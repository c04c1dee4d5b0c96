use cppup::project::builder::create_template_data;
use cppup::project::{
    BuildSystem, CodeFormatter, CppStandard, License, PackageManager, ProjectBuilder,
    ProjectConfig, ProjectType, QualityConfig, TestFramework,
};

fn create_test_config() -> ProjectConfig {
    ProjectConfig {
        name: "test-project".to_string(),
        description: "A test project".to_string(),
        project_type: ProjectType::Executable,
        build_system: BuildSystem::CMake,
        cpp_standard: CppStandard::Cpp17,
        test_framework: TestFramework::Doctest,
        package_manager: PackageManager::Conan,
        license: License::MIT,
        use_git: true,
        path: "/tmp/test-project".to_string(),
        author: "Test Author".to_string(),
        version: "1.0.0".to_string(),
        quality_config: QualityConfig::new(&["clang-tidy", "cppcheck"]),
        code_formatter: CodeFormatter::new(&["clang-format"]),
    }
}

#[test]
fn test_create_template_data_executable() {
    let config = create_test_config();
    let data = create_template_data(&config, 2024);

    assert_eq!(data.name, "test-project");
    assert_eq!(data.cpp_standard, "17");
    assert_eq!(data.is_library, false);
    assert_eq!(data.namespace, "test_project");
    assert_eq!(data.build_system, "cmake");
    assert_eq!(data.description, "A test project");
    assert_eq!(data.author, "Test Author");
    assert_eq!(data.version, "1.0.0");
    assert_eq!(data.enable_tests, true);
    assert_eq!(data.test_framework, "doctest");
    assert_eq!(data.package_manager, "conan");
}

#[test]
fn test_create_template_data_library() {
    let mut config = create_test_config();
    config.project_type = ProjectType::Library;
    let data = create_template_data(&config, 2024);

    assert_eq!(data.is_library, true);
    assert_eq!(data.name, "test-project");
}

#[test]
fn test_create_template_data_namespace_conversion() {
    let mut config = create_test_config();
    config.name = "my-awesome-project".to_string();
    let data = create_template_data(&config, 2024);

    assert_eq!(data.namespace, "my_awesome_project");
}

#[test]
fn test_create_template_data_no_tests() {
    let mut config = create_test_config();
    config.test_framework = TestFramework::Absent;
    let data = create_template_data(&config, 2024);

    assert_eq!(data.enable_tests, false);
    assert_eq!(data.test_framework, "none");
}

#[test]
fn test_create_template_data_different_standards() {
    let mut config = create_test_config();
    config.cpp_standard = CppStandard::Cpp20;
    let data = create_template_data(&config, 2024);
    assert_eq!(data.cpp_standard, "20");

    config.cpp_standard = CppStandard::Cpp11;
    let data = create_template_data(&config, 2024);
    assert_eq!(data.cpp_standard, "11");
}

#[test]
fn test_create_template_data_package_managers() {
    let mut config = create_test_config();

    config.package_manager = PackageManager::Vcpkg;
    let data = create_template_data(&config, 2024);
    assert_eq!(data.package_manager, "vcpkg");

    config.package_manager = PackageManager::Absent;
    let data = create_template_data(&config, 2024);
    assert_eq!(data.package_manager, "none");
}

#[test]
fn test_project_builder_creation() {
    let config = create_test_config();
    let builder = ProjectBuilder::new(config.clone(), 2024);

    assert_eq!(builder.config.name, "test-project");
    assert_eq!(builder.template_data.name, "test-project");
}

#[test]
fn template_data_for_a_year_is_exact() {
    let data = create_template_data(&create_test_config(), 2024);
    assert_eq!(data.year, "2024");
    assert_eq!(data.quality_config, "clang-tidy, cppcheck");
    assert_eq!(data.code_formatter, "clang-format");
    assert_eq!(data.test_framework, "doctest");

    let mut config = create_test_config();
    config.test_framework = TestFramework::BoostTest;
    config.build_system = BuildSystem::Make;
    config.quality_config = QualityConfig::new(&[]);
    let data = create_template_data(&config, -44);
    assert_eq!(data.year, "-44");
    assert_eq!(data.test_framework, "boost");
    assert_eq!(data.build_system, "make");
    assert_eq!(data.quality_config, "");
    assert!(data.enable_tests);
}

#[test]
fn namespace_replaces_every_hyphen() {
    let mut config = create_test_config();
    config.name = "-a--b-".to_string();
    assert_eq!(create_template_data(&config, 2024).namespace, "_a__b_");
    config.name = "plain".to_string();
    assert_eq!(create_template_data(&config, 2024).namespace, "plain");
}

#[test]
fn builder_for_a_year_holds_config_and_data() {
    let builder = ProjectBuilder::new(create_test_config(), 1999);
    assert_eq!(builder.config.name, "test-project");
    assert_eq!(builder.template_data.year, "1999");
    assert_eq!(builder.create_directory_structure(), vec!["src", "cmake", "include", "assets", "tests"]);
}

#[test]
fn next_steps_follow_package_manager_and_build_system() {
    let mut config = create_test_config();
    let lines = ProjectBuilder::new(config.clone(), 2024).success_message();
    assert_eq!(
        lines,
        vec![
            "",
            "\u{2728} Project created successfully!",
            "",
            "Next steps:",
            "1. cd /tmp/test-project",
            "2. mkdir build && cd build",
            "3. conan install .. --output-folder=. --build=missing",
            "4. cmake .. -DCMAKE_TOOLCHAIN_FILE=./conan_toolchain.cmake",
            "5. cmake --build .",
        ]
    );

    config.package_manager = PackageManager::Vcpkg;
    let lines = ProjectBuilder::new(config.clone(), 2024).success_message();
    assert_eq!(
        lines[5..],
        [
            "2. mkdir build && cd build",
            "3. cmake .. -DCMAKE_TOOLCHAIN_FILE=${VCPKG_ROOT}/scripts/buildsystems/vcpkg.cmake",
            "4. cmake --build .",
        ]
    );

    config.package_manager = PackageManager::Absent;
    let lines = ProjectBuilder::new(config.clone(), 2024).success_message();
    assert_eq!(lines[5..], ["2. mkdir build && cd build", "3. cmake ..", "4. cmake --build ."]);

    config.build_system = BuildSystem::Make;
    let lines = ProjectBuilder::new(config.clone(), 2024).success_message();
    assert_eq!(lines[5..], ["2. make"]);

    // A package manager decides before the build system does.
    config.package_manager = PackageManager::Conan;
    let lines = ProjectBuilder::new(config, 2024).success_message();
    assert_eq!(lines.len(), 9);
    assert_eq!(lines[8], "5. cmake --build .");
}
