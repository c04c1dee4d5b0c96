//! The choices a user keeps between runs.

use vstd::prelude::*;
use vstd::string::StringExecFns;

verus! {

/// The choices a user keeps between runs, each as the word that selects it
/// on the command line.
#[derive(Debug, Clone)]
pub struct CppupConfig {
    /// Name of the project.
    pub name: Option<String>,
    /// Project description.
    pub description: Option<String>,
    /// Project type.
    pub project_type: Option<String>,
    /// Build system.
    pub build_system: String,
    /// C++ standard.
    pub cpp_standard: String,
    /// Package manager.
    pub package_manager: String,
    /// Test framework.
    pub test_framework: String,
    /// License.
    pub license: String,
    /// Author of the project.
    pub author: Option<String>,
    /// Static analysis tools.
    pub quality_tools: Vec<String>,
    /// Continuous integration service.
    pub ci: String,
    /// Whether the project is set up for Docker.
    pub docker: bool,
    /// Editors the project is set up for.
    pub ide: Vec<String>,
    /// Whether the project uses C++ modules.
    pub modules: bool,
    /// Whether a git repository is initialized.
    pub git: bool,
}

impl CppupConfig {
    /// Whether these are the choices of a user who has made none: a program
    /// built with CMake in C++17 under the MIT license, in a git repository,
    /// and nothing else.
    pub open spec fn is_default(&self) -> bool {
        &&& self.name is None
        &&& self.description is None
        &&& self.project_type matches Some(project_type) && project_type@ == "executable"@
        &&& self.build_system@ == "cmake"@
        &&& self.cpp_standard@ == "17"@
        &&& self.package_manager@ == "none"@
        &&& self.test_framework@ == "none"@
        &&& self.license@ == "MIT"@
        &&& self.author is None
        &&& self.quality_tools@.len() == 0
        &&& self.ci@ == "none"@
        &&& !self.docker
        &&& self.ide@.len() == 0
        &&& !self.modules
        &&& self.git
    }
}

impl Default for CppupConfig {
    fn default() -> (config: Self)
        ensures
            config.is_default(),
    {
        Self {
            name: None,
            description: None,
            project_type: Some(String::from_str("executable")),
            build_system: String::from_str("cmake"),
            cpp_standard: String::from_str("17"),
            package_manager: String::from_str("none"),
            test_framework: String::from_str("none"),
            license: String::from_str("MIT"),
            author: None,
            quality_tools: Vec::new(),
            ci: String::from_str("none"),
            docker: false,
            ide: Vec::new(),
            modules: false,
            git: true,
        }
    }
}

} // verus!
