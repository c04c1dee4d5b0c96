//! The choices that shape a new project, and what is made of them: the
//! configuration, the checks on the machine, and the files to lay out.

pub mod builder;
pub mod config;
pub mod laws;
pub mod layout;
pub mod validator;

pub use builder::ProjectBuilder;
pub use config::CppStandard;
pub use config::ProjectConfig;
pub use config::ProjectType;
pub use validator::ProjectValidator;

use crate::text::contains_text;
use crate::text::join;
use crate::text::join_spec;
use crate::text::slice_texts;
use crate::text::text_eq;
use crate::text::texts;
use vstd::prelude::*;
use vstd::string::StringExecFns;

verus! {

/// The build system the project is set up for.
#[derive(Debug, Clone, Copy, PartialEq, Eq, Structural)]
pub enum BuildSystem {
    /// CMake, with a list file per directory.
    CMake,
    /// GNU Make, with a single makefile.
    Make,
}

impl BuildSystem {
    /// The name the build system goes by in templates and on the command line.
    pub open spec fn name(self) -> Seq<char> {
        match self {
            BuildSystem::CMake => "cmake"@,
            BuildSystem::Make => "make"@,
        }
    }

    /// The build system that `value` names; CMake where it names none.
    pub open spec fn parse_spec(value: Seq<char>) -> BuildSystem {
        if value == "make"@ {
            BuildSystem::Make
        } else {
            BuildSystem::CMake
        }
    }

    /// The name the build system goes by.
    pub fn to_string(&self) -> (name: String)
        ensures
            name@ == self.name(),
    {
        match self {
            BuildSystem::CMake => String::from_str("cmake"),
            BuildSystem::Make => String::from_str("make"),
        }
    }

    /// Reads a build system from its name, falling back to CMake.
    pub fn parse(value: &str) -> (system: BuildSystem)
        ensures
            system == Self::parse_spec(value@),
    {
        if text_eq(value, "make") {
            BuildSystem::Make
        } else {
            BuildSystem::CMake
        }
    }
}

/// The license the project is released under.
#[derive(Debug, Clone, Copy, PartialEq, Eq, Structural)]
pub enum License {
    /// The MIT license.
    MIT,
    /// The Apache license, version 2.0.
    Apache2,
    /// The GNU General Public License, version 3.
    GPL3,
    /// The three-clause BSD license.
    BSD3,
}

impl License {
    /// The identifier of the license, which is also the name of its template.
    pub open spec fn name(self) -> Seq<char> {
        match self {
            License::MIT => "MIT"@,
            License::Apache2 => "Apache-2.0"@,
            License::GPL3 => "GPL-3.0"@,
            License::BSD3 => "BSD-3-Clause"@,
        }
    }

    /// The license that `value` identifies, if any.
    pub open spec fn parse_spec(value: Seq<char>) -> Option<License> {
        if value == "MIT"@ {
            Some(License::MIT)
        } else if value == "Apache-2.0"@ {
            Some(License::Apache2)
        } else if value == "GPL-3.0"@ {
            Some(License::GPL3)
        } else if value == "BSD-3-Clause"@ {
            Some(License::BSD3)
        } else {
            None
        }
    }

    /// The identifier of the license.
    pub fn to_string(&self) -> (name: String)
        ensures
            name@ == self.name(),
    {
        match self {
            License::MIT => String::from_str("MIT"),
            License::Apache2 => String::from_str("Apache-2.0"),
            License::GPL3 => String::from_str("GPL-3.0"),
            License::BSD3 => String::from_str("BSD-3-Clause"),
        }
    }

    /// Reads a license from its identifier.
    pub fn parse(value: &str) -> (license: Option<License>)
        ensures
            license == Self::parse_spec(value@),
    {
        if text_eq(value, "MIT") {
            Some(License::MIT)
        } else if text_eq(value, "Apache-2.0") {
            Some(License::Apache2)
        } else if text_eq(value, "GPL-3.0") {
            Some(License::GPL3)
        } else if text_eq(value, "BSD-3-Clause") {
            Some(License::BSD3)
        } else {
            None
        }
    }
}

/// The package manager that fetches the project's dependencies.
#[derive(Debug, Clone, Copy, PartialEq, Eq, Structural)]
pub enum PackageManager {
    /// Conan.
    Conan,
    /// Vcpkg.
    Vcpkg,
    /// No package manager.
    Absent,
}

impl PackageManager {
    /// The name the package manager goes by.
    pub open spec fn name(self) -> Seq<char> {
        match self {
            PackageManager::Conan => "conan"@,
            PackageManager::Vcpkg => "vcpkg"@,
            PackageManager::Absent => "none"@,
        }
    }

    /// The package manager that `value` selects, if any; the word `none`
    /// selects that there be none.
    pub open spec fn parse_spec(value: Seq<char>) -> Option<PackageManager> {
        if value == "conan"@ {
            Some(PackageManager::Conan)
        } else if value == "vcpkg"@ {
            Some(PackageManager::Vcpkg)
        } else if value == "none"@ {
            Some(PackageManager::Absent)
        } else {
            None
        }
    }

    /// The name the package manager goes by.
    pub fn to_string(&self) -> (name: String)
        ensures
            name@ == self.name(),
    {
        match self {
            PackageManager::Conan => String::from_str("conan"),
            PackageManager::Vcpkg => String::from_str("vcpkg"),
            PackageManager::Absent => String::from_str("none"),
        }
    }

    /// Reads a package manager from the word that selects it.
    pub fn parse(value: &str) -> (manager: Option<PackageManager>)
        ensures
            manager == Self::parse_spec(value@),
    {
        if text_eq(value, "conan") {
            Some(PackageManager::Conan)
        } else if text_eq(value, "vcpkg") {
            Some(PackageManager::Vcpkg)
        } else if text_eq(value, "none") {
            Some(PackageManager::Absent)
        } else {
            None
        }
    }
}

/// Which static analysis tools the project is set up for.
#[derive(Debug, Clone, Copy, PartialEq, Eq, Structural)]
pub struct QualityConfig {
    /// Whether clang-tidy is set up.
    pub enable_clang_tidy: bool,
    /// Whether cppcheck is set up.
    pub enable_cppcheck: bool,
    /// Whether include-what-you-use is set up.
    pub enable_include_what_you_use: bool,
}

/// `name` alone where `enabled`, nothing otherwise.
pub open spec fn name_if(enabled: bool, name: Seq<char>) -> Seq<Seq<char>> {
    if enabled {
        seq![name]
    } else {
        Seq::empty()
    }
}

impl QualityConfig {
    /// The names of the tools that are switched on, in their fixed order.
    pub open spec fn tools(self) -> Seq<Seq<char>> {
        name_if(self.enable_clang_tidy, "clang-tidy"@) + name_if(self.enable_cppcheck, "cppcheck"@)
            + name_if(self.enable_include_what_you_use, "include-what-you-use"@)
    }

    /// The names of the tools that are switched on, separated by a comma and a space.
    pub open spec fn text(self) -> Seq<char> {
        join_spec(self.tools(), ", "@)
    }

    /// Switches on the tools that `tools` names.
    pub fn new(tools: &[&str]) -> (config: Self)
        ensures
            config.enable_clang_tidy == slice_texts(tools@).contains("clang-tidy"@),
            config.enable_cppcheck == slice_texts(tools@).contains("cppcheck"@),
            config.enable_include_what_you_use == slice_texts(tools@).contains(
                "include-what-you-use"@,
            ),
    {
        Self {
            enable_clang_tidy: contains_text(tools, "clang-tidy"),
            enable_cppcheck: contains_text(tools, "cppcheck"),
            enable_include_what_you_use: contains_text(tools, "include-what-you-use"),
        }
    }

    /// The names of the tools that are switched on, in their fixed order.
    pub fn tool_names(&self) -> (names: Vec<String>)
        ensures
            texts(names@) == self.tools(),
    {
        let mut names: Vec<String> = Vec::new();
        if self.enable_clang_tidy {
            names.push(String::from_str("clang-tidy"));
        }
        if self.enable_cppcheck {
            names.push(String::from_str("cppcheck"));
        }
        if self.enable_include_what_you_use {
            names.push(String::from_str("include-what-you-use"));
        }
        assert(texts(names@) =~= self.tools());
        names
    }

    /// The names of the tools that are switched on, separated by a comma and a space.
    pub fn to_string(&self) -> (text: String)
        ensures
            text@ == self.text(),
    {
        let names = self.tool_names();
        join(&names, ", ")
    }
}

/// Which formatters the project is set up for.
#[derive(Debug, Clone, Copy, PartialEq, Eq, Structural)]
pub struct CodeFormatter {
    /// Whether clang-format is set up.
    pub enable_clang_format: bool,
    /// Whether cmake-format is set up.
    pub enable_cmake_format: bool,
}

impl CodeFormatter {
    /// The names of the formatters that are switched on, in their fixed order.
    pub open spec fn tools(self) -> Seq<Seq<char>> {
        name_if(self.enable_clang_format, "clang-format"@) + name_if(
            self.enable_cmake_format,
            "cmake-format"@,
        )
    }

    /// The names of the formatters that are switched on, separated by a comma and a space.
    pub open spec fn text(self) -> Seq<char> {
        join_spec(self.tools(), ", "@)
    }

    /// Switches on the formatters that `tools` names.
    pub fn new(tools: &[&str]) -> (formatter: Self)
        ensures
            formatter.enable_clang_format == slice_texts(tools@).contains("clang-format"@),
            formatter.enable_cmake_format == slice_texts(tools@).contains("cmake-format"@),
    {
        Self {
            enable_clang_format: contains_text(tools, "clang-format"),
            enable_cmake_format: contains_text(tools, "cmake-format"),
        }
    }

    /// The names of the formatters that are switched on, in their fixed order.
    pub fn tool_names(&self) -> (names: Vec<String>)
        ensures
            texts(names@) == self.tools(),
    {
        let mut names: Vec<String> = Vec::new();
        if self.enable_clang_format {
            names.push(String::from_str("clang-format"));
        }
        if self.enable_cmake_format {
            names.push(String::from_str("cmake-format"));
        }
        assert(texts(names@) =~= self.tools());
        names
    }

    /// The names of the formatters that are switched on, separated by a comma and a space.
    pub fn to_string(&self) -> (text: String)
        ensures
            text@ == self.text(),
    {
        let names = self.tool_names();
        join(&names, ", ")
    }
}

/// The framework the project's tests are written with.
#[derive(Debug, Clone, Copy, PartialEq, Eq, Structural)]
pub enum TestFramework {
    /// doctest.
    Doctest,
    /// Google Test.
    GTest,
    /// Catch2.
    Catch2,
    /// Boost.Test.
    BoostTest,
    /// No tests.
    Absent,
}

impl TestFramework {
    /// The name the framework goes by in templates.
    pub open spec fn name(self) -> Seq<char> {
        match self {
            TestFramework::Doctest => "doctest"@,
            TestFramework::GTest => "gtest"@,
            TestFramework::Catch2 => "catch2"@,
            TestFramework::BoostTest => "boost"@,
            TestFramework::Absent => "none"@,
        }
    }

    /// The framework that `value` selects on the command line, if any.
    pub open spec fn parse_spec(value: Seq<char>) -> Option<TestFramework> {
        if value == "doctest"@ {
            Some(TestFramework::Doctest)
        } else if value == "gtest"@ {
            Some(TestFramework::GTest)
        } else if value == "catch2"@ {
            Some(TestFramework::Catch2)
        } else if value == "boosttest"@ {
            Some(TestFramework::BoostTest)
        } else if value == "none"@ {
            Some(TestFramework::Absent)
        } else {
            None
        }
    }

    /// The name the framework goes by in templates.
    pub fn to_string(&self) -> (name: String)
        ensures
            name@ == self.name(),
    {
        match self {
            TestFramework::Doctest => String::from_str("doctest"),
            TestFramework::GTest => String::from_str("gtest"),
            TestFramework::Catch2 => String::from_str("catch2"),
            TestFramework::BoostTest => String::from_str("boost"),
            TestFramework::Absent => String::from_str("none"),
        }
    }

    /// Reads a framework from the word that selects it on the command line.
    pub fn parse(value: &str) -> (framework: Option<TestFramework>)
        ensures
            framework == Self::parse_spec(value@),
    {
        if text_eq(value, "doctest") {
            Some(TestFramework::Doctest)
        } else if text_eq(value, "gtest") {
            Some(TestFramework::GTest)
        } else if text_eq(value, "catch2") {
            Some(TestFramework::Catch2)
        } else if text_eq(value, "boosttest") {
            Some(TestFramework::BoostTest)
        } else if text_eq(value, "none") {
            Some(TestFramework::Absent)
        } else {
            None
        }
    }
}

} // verus!
