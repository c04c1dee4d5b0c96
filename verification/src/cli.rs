//! What a caller may say on the command line.

use vstd::prelude::*;

verus! {

/// The options of one run, as words and switches, before any of them is read.
#[derive(Debug, Clone)]
pub struct Cli {
    /// Name of the project.
    pub name: Option<String>,
    /// Project description.
    pub description: Option<String>,
    /// Project type: `executable` or `library`.
    pub project_type: Option<String>,
    /// Build system: `cmake` or `make`.
    pub build_system: String,
    /// C++ standard: `11`, `14`, `17`, `20` or `23`.
    pub cpp_standard: String,
    /// Directory in which the project's own directory is created.
    pub path: String,
    /// Whether a git repository is initialized.
    pub git: bool,
    /// Whether to take every choice from the options instead of asking.
    pub non_interactive: bool,
    /// Test framework: `doctest`, `gtest`, `catch2`, `boosttest` or `none`.
    pub test_framework: String,
    /// Package manager: `conan`, `vcpkg` or `none`.
    pub package_manager: String,
    /// License: `MIT`, `Apache-2.0`, `GPL-3.0` or `BSD-3-Clause`.
    pub license: String,
    /// Author of the project.
    pub author: Option<String>,
    /// Static analysis tools to set up.
    pub quality_tools: Vec<String>,
    /// Formatters to set up.
    pub code_formatter: Vec<String>,
}

} // verus!
