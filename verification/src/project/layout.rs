//! What a project consists of: its directories, and for each of its files
//! the template that it is rendered from.

use crate::project::config::ProjectConfig;
use crate::project::config::ProjectConfigView;
use crate::project::config::ProjectType;
use crate::project::name_if;
use crate::project::BuildSystem;
use crate::project::PackageManager;
use crate::project::TestFramework;
use crate::templates::TemplateOutput;
use crate::templates::TemplateOutputView;
use crate::text::texts;
use vstd::prelude::*;
use vstd::string::StringExecFns;

verus! {

/// The template `template`, rendered to the file at `path`.
pub open spec fn output(template: Seq<char>, path: Seq<char>) -> TemplateOutputView {
    TemplateOutputView { template, path }
}

/// `planned` alone where `wanted`, nothing otherwise.
pub open spec fn output_if(wanted: bool, planned: TemplateOutputView) -> Seq<TemplateOutputView> {
    if wanted {
        seq![planned]
    } else {
        Seq::empty()
    }
}

/// The templates and paths of a list of planned outputs.
pub open spec fn outputs_view(outputs: Seq<TemplateOutput>) -> Seq<TemplateOutputView> {
    outputs.map_values(|planned: TemplateOutput| planned@)
}

/// The views of two lists of planned outputs, one after the other, are the
/// views of the one followed by the views of the other.
pub proof fn lemma_outputs_add(first: Seq<TemplateOutput>, second: Seq<TemplateOutput>)
    ensures
        outputs_view(first + second) == outputs_view(first) + outputs_view(second),
{
    assert(outputs_view(first + second) =~= outputs_view(first) + outputs_view(second));
}

/// The view of a list of planned outputs with one more at its end is the
/// view of the list with the view of that one at its end.
pub proof fn lemma_outputs_push(outputs: Seq<TemplateOutput>, planned: TemplateOutput)
    ensures
        outputs_view(outputs.push(planned)) == outputs_view(outputs).push(planned@),
{
    assert(outputs_view(outputs.push(planned)) =~= outputs_view(outputs).push(planned@));
}

/// The name of the template that holds a first test for `framework`.
pub open spec fn test_template(framework: TestFramework) -> Seq<char> {
    match framework {
        TestFramework::Doctest => "doctest_main.cpp"@,
        TestFramework::GTest => "gtest_main.cpp"@,
        TestFramework::BoostTest => "boost_test_main.cpp"@,
        TestFramework::Catch2 => "catch2_main.cpp"@,
        TestFramework::Absent => Seq::empty(),
    }
}

/// The path of the public header of the library `name`.
pub open spec fn header_path(name: Seq<char>) -> Seq<char> {
    "include/"@ + name + ".hpp"@
}

impl ProjectConfigView {
    /// Whether the project has tests.
    pub open spec fn has_tests(self) -> bool {
        self.test_framework != TestFramework::Absent
    }

    /// Whether the project is a library.
    pub open spec fn is_library(self) -> bool {
        self.project_type == ProjectType::Library
    }

    /// The directories inside the project's own, in the order they are made:
    /// the standard ones, `examples` for a library or `assets` for a program,
    /// and `tests` where the project has tests.
    pub open spec fn directories(self) -> Seq<Seq<char>> {
        seq![
            "src"@,
            "cmake"@,
            "include"@,
            if self.is_library() {
                "examples"@
            } else {
                "assets"@
            },
        ] + name_if(self.has_tests(), "tests"@)
    }

    /// The list file at the root of a CMake project.
    pub open spec fn cmake_file(self) -> TemplateOutputView {
        output("CMakeLists.txt"@, "CMakeLists.txt"@)
    }

    /// The files of a CMake build: the list file at the root, the switches,
    /// the compiler flags, the list file of the sources and, for a library,
    /// that of the examples.
    pub open spec fn cmake_files(self) -> Seq<TemplateOutputView> {
        seq![
            self.cmake_file(),
            output("options.cmake"@, "cmake/options.cmake"@),
            output("compilation-flags.cmake"@, "cmake/compilation-flags.cmake"@),
            output("source.cmake"@, "src/CMakeLists.txt"@),
        ] + output_if(self.is_library(), output("example.cmake"@, "examples/CMakeLists.txt"@))
    }

    /// The makefile of a project built with Make.
    pub open spec fn makefile(self) -> TemplateOutputView {
        output("Makefile"@, "Makefile"@)
    }

    /// The files of the build system that was chosen.
    pub open spec fn build_files(self) -> Seq<TemplateOutputView> {
        match self.build_system {
            BuildSystem::CMake => self.cmake_files(),
            BuildSystem::Make => seq![self.makefile()],
        }
    }

    /// The first sources: the entry point of a program, or the header, the
    /// implementation and an example of a library.
    pub open spec fn source_files(self) -> Seq<TemplateOutputView> {
        match self.project_type {
            ProjectType::Executable => seq![output("main.cpp"@, "src/main.cpp"@)],
            ProjectType::Library => seq![
                output("header.hpp"@, header_path(self.name)),
                output("library.cpp"@, "src/lib.cpp"@),
                output("example.cpp"@, "examples/example.cpp"@),
            ],
        }
    }

    /// The build file of the tests: their list file in a CMake project,
    /// their makefile in a project built with Make.
    pub open spec fn test_build_file(self) -> TemplateOutputView {
        match self.build_system {
            BuildSystem::CMake => output("tests.cmake"@, "tests/CMakeLists.txt"@),
            BuildSystem::Make => output("tests.mk"@, "tests/Makefile"@),
        }
    }

    /// The files of the tests, where the project has tests: their build
    /// file, whatever the build system, and a first test written with the
    /// chosen framework.
    pub open spec fn test_files(self) -> Seq<TemplateOutputView> {
        if self.has_tests() {
            seq![
                self.test_build_file(),
                output(test_template(self.test_framework), "tests/main_test.cpp"@),
            ]
        } else {
            Seq::empty()
        }
    }

    /// The page that introduces the project.
    pub open spec fn readme(self) -> TemplateOutputView {
        output("README.md"@, "README.md"@)
    }

    /// The settings of clang-format.
    pub open spec fn clang_format(self) -> TemplateOutputView {
        output("clang-format"@, ".clang-format"@)
    }

    /// The settings of the static analysis tools that are switched on.
    pub open spec fn quality_files(self) -> Seq<TemplateOutputView> {
        output_if(self.quality_config.enable_clang_tidy, output("clang-tidy"@, ".clang-tidy"@))
            + output_if(
            self.quality_config.enable_cppcheck,
            output("cppcheck-suppressions.xml"@, "cppcheck-suppressions.xml"@),
        )
    }

    /// The settings of the formatters that are switched on.
    pub open spec fn formatter_files(self) -> Seq<TemplateOutputView> {
        output_if(self.code_formatter.enable_clang_format, self.clang_format()) + output_if(
            self.code_formatter.enable_cmake_format,
            output("cmake-format"@, "cmake-format.yaml"@),
        )
    }

    /// The text of the license, from the template named like the license.
    pub open spec fn license_file(self) -> TemplateOutputView {
        output(self.license.name(), "LICENSE"@)
    }

    /// The list of dependencies for the package manager, where one was chosen.
    pub open spec fn package_files(self) -> Seq<TemplateOutputView> {
        match self.package_manager {
            PackageManager::Conan => seq![output("conanfile.txt"@, "conanfile.txt"@)],
            PackageManager::Vcpkg => seq![output("vcpkg.json"@, "vcpkg.json"@)],
            PackageManager::Absent => Seq::empty(),
        }
    }

    /// What version control adds, where it is used: the list of what to leave alone.
    pub open spec fn git_files(self) -> Seq<TemplateOutputView> {
        output_if(self.use_git, output("gitignore"@, ".gitignore"@))
    }

    /// The files that are rendered right after the directories are made:
    /// build files, sources, tests, the introduction, the settings of tools
    /// and formatters, and the license.
    pub open spec fn template_outputs(self) -> Seq<TemplateOutputView> {
        self.build_files() + self.source_files() + self.test_files() + seq![self.readme()]
            + self.quality_files() + self.formatter_files() + seq![self.license_file()]
    }

    /// Every file of the project, in the order of rendering.
    pub open spec fn planned_outputs(self) -> Seq<TemplateOutputView> {
        self.template_outputs() + self.package_files() + self.git_files()
    }
}

/// Plans the file at `path`, rendered from the template `template`.
fn plan(template: &str, path: &str) -> (planned: TemplateOutput)
    ensures
        planned@ == output(template@, path@),
{
    TemplateOutput { template: String::from_str(template), path: String::from_str(path) }
}

impl ProjectConfig {
    /// Whether the project has tests.
    pub fn has_tests(&self) -> (has: bool)
        ensures
            has == self@.has_tests(),
    {
        match self.test_framework {
            TestFramework::Absent => false,
            _ => true,
        }
    }

    /// Whether the project is a library.
    pub fn is_library(&self) -> (is: bool)
        ensures
            is == self@.is_library(),
    {
        match self.project_type {
            ProjectType::Library => true,
            ProjectType::Executable => false,
        }
    }

    /// The directories to make inside the project's own, in order.
    pub fn create_directory_structure(&self) -> (directories: Vec<String>)
        ensures
            texts(directories@) == self@.directories(),
    {
        let mut directories: Vec<String> = Vec::new();
        directories.push(String::from_str("src"));
        directories.push(String::from_str("cmake"));
        directories.push(String::from_str("include"));
        if self.is_library() {
            directories.push(String::from_str("examples"));
        } else {
            directories.push(String::from_str("assets"));
        }
        if self.has_tests() {
            directories.push(String::from_str("tests"));
        }
        assert(texts(directories@) =~= self@.directories());
        directories
    }

    /// Plans the list file at the root of a CMake project.
    pub fn generate_cmake_file(&self) -> (planned: TemplateOutput)
        ensures
            planned@ == self@.cmake_file(),
    {
        plan("CMakeLists.txt", "CMakeLists.txt")
    }

    /// Plans the files of a CMake build.
    pub fn generate_cmake_files(&self) -> (planned: Vec<TemplateOutput>)
        ensures
            outputs_view(planned@) == self@.cmake_files(),
    {
        let mut planned: Vec<TemplateOutput> = Vec::new();
        planned.push(self.generate_cmake_file());
        planned.push(plan("options.cmake", "cmake/options.cmake"));
        planned.push(plan("compilation-flags.cmake", "cmake/compilation-flags.cmake"));
        planned.push(plan("source.cmake", "src/CMakeLists.txt"));
        if self.is_library() {
            planned.push(plan("example.cmake", "examples/CMakeLists.txt"));
        }
        assert(outputs_view(planned@) =~= self@.cmake_files());
        planned
    }

    /// Plans the makefile of a project built with Make.
    pub fn generate_makefile(&self) -> (planned: TemplateOutput)
        ensures
            planned@ == self@.makefile(),
    {
        plan("Makefile", "Makefile")
    }

    /// Plans the files of the build system that was chosen.
    pub fn generate_build_files(&self) -> (planned: Vec<TemplateOutput>)
        ensures
            outputs_view(planned@) == self@.build_files(),
    {
        match self.build_system {
            BuildSystem::CMake => self.generate_cmake_files(),
            BuildSystem::Make => {
                let mut planned: Vec<TemplateOutput> = Vec::new();
                planned.push(self.generate_makefile());
                assert(outputs_view(planned@) =~= self@.build_files());
                planned
            },
        }
    }

    /// Plans the first sources of the project.
    pub fn generate_source_files(&self) -> (planned: Vec<TemplateOutput>)
        ensures
            outputs_view(planned@) == self@.source_files(),
    {
        let mut planned: Vec<TemplateOutput> = Vec::new();
        match self.project_type {
            ProjectType::Executable => {
                planned.push(plan("main.cpp", "src/main.cpp"));
            },
            ProjectType::Library => {
                let header = String::from_str("include/").concat(self.name.as_str()).concat(".hpp");
                planned.push(plan("header.hpp", header.as_str()));
                planned.push(plan("library.cpp", "src/lib.cpp"));
                planned.push(plan("example.cpp", "examples/example.cpp"));
            },
        }
        assert(outputs_view(planned@) =~= self@.source_files());
        planned
    }

    /// Plans the files of the tests, where the project has tests.
    pub fn generate_test_files(&self) -> (planned: Vec<TemplateOutput>)
        ensures
            outputs_view(planned@) == self@.test_files(),
    {
        let mut planned: Vec<TemplateOutput> = Vec::new();
        if self.has_tests() {
            match self.build_system {
                BuildSystem::CMake => {
                    planned.push(plan("tests.cmake", "tests/CMakeLists.txt"));
                },
                BuildSystem::Make => {
                    planned.push(plan("tests.mk", "tests/Makefile"));
                },
            }
            match self.test_framework {
                TestFramework::Doctest => {
                    planned.push(plan("doctest_main.cpp", "tests/main_test.cpp"));
                },
                TestFramework::GTest => {
                    planned.push(plan("gtest_main.cpp", "tests/main_test.cpp"));
                },
                TestFramework::BoostTest => {
                    planned.push(plan("boost_test_main.cpp", "tests/main_test.cpp"));
                },
                TestFramework::Catch2 => {
                    planned.push(plan("catch2_main.cpp", "tests/main_test.cpp"));
                },
                TestFramework::Absent => {},
            }
        }
        assert(outputs_view(planned@) =~= self@.test_files());
        planned
    }

    /// Plans the page that introduces the project.
    pub fn generate_readme(&self) -> (planned: TemplateOutput)
        ensures
            planned@ == self@.readme(),
    {
        plan("README.md", "README.md")
    }

    /// Plans the settings of clang-format.
    pub fn generate_clang_format(&self) -> (planned: TemplateOutput)
        ensures
            planned@ == self@.clang_format(),
    {
        plan("clang-format", ".clang-format")
    }

    /// Plans the settings of the static analysis tools that are switched on.
    pub fn generate_quality_files(&self) -> (planned: Vec<TemplateOutput>)
        ensures
            outputs_view(planned@) == self@.quality_files(),
    {
        let mut planned: Vec<TemplateOutput> = Vec::new();
        if self.quality_config.enable_clang_tidy {
            planned.push(plan("clang-tidy", ".clang-tidy"));
        }
        if self.quality_config.enable_cppcheck {
            planned.push(plan("cppcheck-suppressions.xml", "cppcheck-suppressions.xml"));
        }
        assert(outputs_view(planned@) =~= self@.quality_files());
        planned
    }

    /// Plans the settings of the formatters that are switched on.
    pub fn generate_code_formatter_files(&self) -> (planned: Vec<TemplateOutput>)
        ensures
            outputs_view(planned@) == self@.formatter_files(),
    {
        let mut planned: Vec<TemplateOutput> = Vec::new();
        if self.code_formatter.enable_clang_format {
            planned.push(self.generate_clang_format());
        }
        if self.code_formatter.enable_cmake_format {
            planned.push(plan("cmake-format", "cmake-format.yaml"));
        }
        assert(outputs_view(planned@) =~= self@.formatter_files());
        planned
    }

    /// Plans the text of the license.
    pub fn generate_license(&self) -> (planned: TemplateOutput)
        ensures
            planned@ == self@.license_file(),
    {
        TemplateOutput { template: self.license.to_string(), path: String::from_str("LICENSE") }
    }

    /// Plans the list of dependencies for the package manager, where one was chosen.
    pub fn setup_package_manager(&self) -> (planned: Vec<TemplateOutput>)
        ensures
            outputs_view(planned@) == self@.package_files(),
    {
        let mut planned: Vec<TemplateOutput> = Vec::new();
        match self.package_manager {
            PackageManager::Conan => {
                planned.push(plan("conanfile.txt", "conanfile.txt"));
            },
            PackageManager::Vcpkg => {
                planned.push(plan("vcpkg.json", "vcpkg.json"));
            },
            PackageManager::Absent => {},
        }
        assert(outputs_view(planned@) =~= self@.package_files());
        planned
    }

    /// Plans what version control adds once the repository is there.
    pub fn initialize_git(&self) -> (planned: Vec<TemplateOutput>)
        ensures
            outputs_view(planned@) == self@.git_files(),
    {
        let mut planned: Vec<TemplateOutput> = Vec::new();
        if self.use_git {
            planned.push(plan("gitignore", ".gitignore"));
        }
        assert(outputs_view(planned@) =~= self@.git_files());
        planned
    }

    /// Plans the files that are rendered right after the directories are made.
    pub fn template_outputs(&self) -> (planned: Vec<TemplateOutput>)
        ensures
            outputs_view(planned@) == self@.template_outputs(),
    {
        let mut planned = self.generate_build_files();
        let mut sources = self.generate_source_files();
        proof {
            lemma_outputs_add(planned@, sources@);
        }
        planned.append(&mut sources);
        let mut tests = self.generate_test_files();
        proof {
            lemma_outputs_add(planned@, tests@);
        }
        planned.append(&mut tests);
        let readme = self.generate_readme();
        proof {
            lemma_outputs_push(planned@, readme);
        }
        planned.push(readme);
        assert(outputs_view(planned@) =~= self@.build_files() + self@.source_files()
            + self@.test_files() + seq![self@.readme()]);
        let mut quality = self.generate_quality_files();
        proof {
            lemma_outputs_add(planned@, quality@);
        }
        planned.append(&mut quality);
        let mut formatters = self.generate_code_formatter_files();
        proof {
            lemma_outputs_add(planned@, formatters@);
        }
        planned.append(&mut formatters);
        let license = self.generate_license();
        proof {
            lemma_outputs_push(planned@, license);
        }
        planned.push(license);
        assert(outputs_view(planned@) =~= self@.template_outputs());
        planned
    }

    /// Plans every file of the project, in the order of rendering.
    pub fn planned_outputs(&self) -> (planned: Vec<TemplateOutput>)
        ensures
            outputs_view(planned@) == self@.planned_outputs(),
    {
        let mut planned = self.template_outputs();
        let mut packages = self.setup_package_manager();
        proof {
            lemma_outputs_add(planned@, packages@);
        }
        planned.append(&mut packages);
        let mut git = self.initialize_git();
        proof {
            lemma_outputs_add(planned@, git@);
        }
        planned.append(&mut git);
        planned
    }
}

} // verus!
