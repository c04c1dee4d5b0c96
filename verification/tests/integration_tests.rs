use cppup::cli::Cli;
use cppup::error::{Error, ErrorKind};
use cppup::project::builder::Scaffold;
use cppup::project::config::{create_config_from_cli, Environment, PathStatus};
use cppup::project::ProjectBuilder;

const WORK: &str = "/tmp/work";

/// Reads the options of a run as the program does.
fn options(args: &[&str]) -> Cli {
    let mut cli = Cli {
        name: None,
        description: None,
        project_type: None,
        build_system: "cmake".to_string(),
        cpp_standard: "17".to_string(),
        path: ".".to_string(),
        git: true,
        non_interactive: false,
        test_framework: "none".to_string(),
        package_manager: "none".to_string(),
        license: "MIT".to_string(),
        author: None,
        quality_tools: Vec::new(),
        code_formatter: vec!["none".to_string()],
    };
    let mut i = 0;
    while i < args.len() {
        let value = args.get(i + 1).map(|v| v.to_string());
        let list = || value.clone().unwrap().split(',').map(str::to_string).collect::<Vec<String>>();
        match args[i] {
            "--git" => {
                cli.git = true;
                i += 1;
                continue;
            }
            "--non-interactive" => {
                cli.non_interactive = true;
                i += 1;
                continue;
            }
            "--name" => cli.name = value,
            "--description" => cli.description = value,
            "--project-type" => cli.project_type = value,
            "--author" => cli.author = value,
            "--build-system" => cli.build_system = value.unwrap(),
            "--cpp-standard" => cli.cpp_standard = value.unwrap(),
            "--path" => cli.path = value.unwrap(),
            "--test-framework" => cli.test_framework = value.unwrap(),
            "--package-manager" => cli.package_manager = value.unwrap(),
            "--license" => cli.license = value.unwrap(),
            "--quality-tools" => cli.quality_tools = list(),
            "--code-formatter" => cli.code_formatter = list(),
            other => panic!("unknown option {}", other),
        }
        i += 2;
    }
    cli
}

fn machine(target_exists: bool) -> Environment {
    Environment {
        user: Some("tester".to_string()),
        username: None,
        base: PathStatus { exists: true, is_dir: true, readonly: Some(false) },
        target_exists,
    }
}

/// One run of the generator, up to the point where it would write.
fn run_on(args: &[&str], target_exists: bool) -> Result<Scaffold, Error> {
    let cli = options(args);
    assert!(cli.non_interactive);
    let config = create_config_from_cli(&cli, &machine(target_exists))?;
    ProjectBuilder::new(config, 2024).build()
}

fn run(args: &[&str]) -> Result<Scaffold, Error> {
    run_on(args, false)
}

fn has_dir(project: &Scaffold, dir: &str) -> bool {
    project.directories.iter().any(|d| d == dir)
}

fn has_file(project: &Scaffold, path: &str) -> bool {
    project.files.iter().chain(project.git_files.iter()).any(|f| f.path == path)
}

fn file<'a>(project: &'a Scaffold, path: &str) -> &'a str {
    let found = project.files.iter().chain(project.git_files.iter()).find(|f| f.path == path);
    found.map(|f| f.contents.as_str()).unwrap()
}

// ============================================================================
// Basic Project Creation Tests
// ============================================================================

#[test]
fn test_non_interactive_project_creation() {
    let project = run(&[
        "--name",
        "test-project",
        "--description",
        "Test project",
        "--project-type",
        "executable",
        "--build-system",
        "cmake",
        "--cpp-standard",
        "17",
        "--package-manager",
        "none",
        "--test-framework",
        "none",
        "--license",
        "MIT",
        "--non-interactive",
        "--path",
        WORK,
    ])
    .unwrap();

    // Verify project structure
    assert_eq!(project.root, "/tmp/work/test-project");
    assert!(has_dir(&project, "src"));
    assert!(has_file(&project, "src/main.cpp"));
    assert!(has_file(&project, "CMakeLists.txt"));
    assert!(has_file(&project, "README.md"));
    assert!(has_file(&project, "LICENSE"));
}

#[test]
fn test_library_project_creation() {
    let project = run(&[
        "--name",
        "test-lib",
        "--description",
        "Test library",
        "--project-type",
        "library",
        "--build-system",
        "cmake",
        "--cpp-standard",
        "20",
        "--package-manager",
        "none",
        "--test-framework",
        "none",
        "--license",
        "MIT",
        "--non-interactive",
        "--path",
        WORK,
    ])
    .unwrap();

    // Verify library-specific structure
    assert_eq!(project.root, "/tmp/work/test-lib");
    assert!(has_dir(&project, "src"));
    assert!(has_dir(&project, "include"));
    assert!(has_dir(&project, "examples"));
    assert!(has_file(&project, "src/lib.cpp"));
    assert!(has_file(&project, "include/test-lib.hpp"));
}

// ============================================================================
// Build System Tests
// ============================================================================

#[test]
fn test_make_build_system_executable() {
    let project = run(&[
        "--name",
        "make-project",
        "--project-type",
        "executable",
        "--build-system",
        "make",
        "--cpp-standard",
        "17",
        "--test-framework",
        "none",
        "--license",
        "MIT",
        "--non-interactive",
        "--path",
        WORK,
    ])
    .unwrap();

    assert!(has_file(&project, "Makefile"));
    assert!(!has_file(&project, "CMakeLists.txt"));
}

#[test]
fn test_make_build_system_library() {
    let project = run(&[
        "--name",
        "make-lib",
        "--project-type",
        "library",
        "--build-system",
        "make",
        "--cpp-standard",
        "17",
        "--test-framework",
        "none",
        "--license",
        "MIT",
        "--non-interactive",
        "--path",
        WORK,
    ])
    .unwrap();

    assert!(has_file(&project, "Makefile"));
    assert!(has_dir(&project, "include"));
    assert!(has_dir(&project, "examples"));
}

// ============================================================================
// Test Framework Tests
// ============================================================================

#[test]
fn test_doctest_framework() {
    let project = run(&[
        "--name",
        "doctest-project",
        "--project-type",
        "executable",
        "--test-framework",
        "doctest",
        "--non-interactive",
        "--path",
        WORK,
    ])
    .unwrap();

    assert!(has_dir(&project, "tests"));
    assert!(has_file(&project, "tests/main_test.cpp"));
    assert!(has_file(&project, "tests/CMakeLists.txt"));
}

#[test]
fn test_gtest_framework() {
    let project = run(&[
        "--name",
        "gtest-project",
        "--project-type",
        "executable",
        "--test-framework",
        "gtest",
        "--non-interactive",
        "--path",
        WORK,
    ])
    .unwrap();

    assert!(has_dir(&project, "tests"));
    assert!(has_file(&project, "tests/main_test.cpp"));
}

#[test]
fn test_catch2_framework() {
    let project = run(&[
        "--name",
        "catch2-project",
        "--project-type",
        "executable",
        "--test-framework",
        "catch2",
        "--non-interactive",
        "--path",
        WORK,
    ])
    .unwrap();

    assert!(has_dir(&project, "tests"));
    assert!(has_file(&project, "tests/main_test.cpp"));
}

#[test]
fn test_boosttest_framework() {
    let project = run(&[
        "--name",
        "boost-project",
        "--project-type",
        "executable",
        "--test-framework",
        "boosttest",
        "--non-interactive",
        "--path",
        WORK,
    ])
    .unwrap();

    assert!(has_dir(&project, "tests"));
    assert!(has_file(&project, "tests/main_test.cpp"));
}

// ============================================================================
// Package Manager Tests
// ============================================================================

#[test]
fn test_conan_package_manager() {
    let project = run(&[
        "--name",
        "conan-project",
        "--project-type",
        "executable",
        "--package-manager",
        "conan",
        "--test-framework",
        "none",
        "--non-interactive",
        "--path",
        WORK,
    ])
    .unwrap();

    assert!(has_file(&project, "conanfile.txt"));
}

#[test]
fn test_vcpkg_package_manager() {
    let project = run(&[
        "--name",
        "vcpkg-project",
        "--project-type",
        "executable",
        "--package-manager",
        "vcpkg",
        "--test-framework",
        "none",
        "--non-interactive",
        "--path",
        WORK,
    ])
    .unwrap();

    assert!(has_file(&project, "vcpkg.json"));
}

// ============================================================================
// C++ Standard Tests
// ============================================================================

#[test]
fn test_cpp11_standard() {
    let project = run(&[
        "--name",
        "cpp11-project",
        "--project-type",
        "executable",
        "--cpp-standard",
        "11",
        "--test-framework",
        "none",
        "--non-interactive",
        "--path",
        WORK,
    ]);

    assert!(project.is_ok());
}

#[test]
fn test_cpp14_standard() {
    let project = run(&[
        "--name",
        "cpp14-project",
        "--project-type",
        "executable",
        "--cpp-standard",
        "14",
        "--test-framework",
        "none",
        "--non-interactive",
        "--path",
        WORK,
    ]);

    assert!(project.is_ok());
}

#[test]
fn test_cpp20_standard() {
    let project = run(&[
        "--name",
        "cpp20-project",
        "--project-type",
        "executable",
        "--cpp-standard",
        "20",
        "--test-framework",
        "none",
        "--non-interactive",
        "--path",
        WORK,
    ]);

    assert!(project.is_ok());
}

#[test]
fn test_cpp23_standard() {
    let project = run(&[
        "--name",
        "cpp23-project",
        "--project-type",
        "executable",
        "--cpp-standard",
        "23",
        "--test-framework",
        "none",
        "--non-interactive",
        "--path",
        WORK,
    ]);

    assert!(project.is_ok());
}

// ============================================================================
// License Tests
// ============================================================================

#[test]
fn test_apache_license() {
    let project = run(&[
        "--name",
        "apache-project",
        "--project-type",
        "executable",
        "--license",
        "Apache-2.0",
        "--test-framework",
        "none",
        "--non-interactive",
        "--path",
        WORK,
    ])
    .unwrap();

    let license_content = file(&project, "LICENSE");
    assert!(license_content.contains("Apache License"));
}

#[test]
fn test_gpl_license() {
    let project = run(&[
        "--name",
        "gpl-project",
        "--project-type",
        "executable",
        "--license",
        "GPL-3.0",
        "--test-framework",
        "none",
        "--non-interactive",
        "--path",
        WORK,
    ])
    .unwrap();

    let license_content = file(&project, "LICENSE");
    assert!(license_content.contains("GNU GENERAL PUBLIC LICENSE"));
}

#[test]
fn test_bsd_license() {
    let project = run(&[
        "--name",
        "bsd-project",
        "--project-type",
        "executable",
        "--license",
        "BSD-3-Clause",
        "--test-framework",
        "none",
        "--non-interactive",
        "--path",
        WORK,
    ])
    .unwrap();

    let license_content = file(&project, "LICENSE");
    assert!(license_content.contains("BSD") || license_content.contains("Redistribution"));
}

// ============================================================================
// Quality Tools Tests
// ============================================================================

#[test]
fn test_quality_tools_clang_tidy() {
    let project = run(&[
        "--name",
        "quality-project",
        "--project-type",
        "executable",
        "--quality-tools",
        "clang-tidy",
        "--test-framework",
        "none",
        "--non-interactive",
        "--path",
        WORK,
    ])
    .unwrap();

    assert!(has_file(&project, ".clang-tidy"));
}

#[test]
fn test_quality_tools_cppcheck() {
    let project = run(&[
        "--name",
        "cppcheck-project",
        "--project-type",
        "executable",
        "--quality-tools",
        "cppcheck",
        "--test-framework",
        "none",
        "--non-interactive",
        "--path",
        WORK,
    ])
    .unwrap();

    assert!(has_file(&project, "cppcheck-suppressions.xml"));
}

#[test]
fn test_code_formatter_clang_format() {
    let project = run(&[
        "--name",
        "format-project",
        "--project-type",
        "executable",
        "--code-formatter",
        "clang-format",
        "--test-framework",
        "none",
        "--non-interactive",
        "--path",
        WORK,
    ])
    .unwrap();

    assert!(has_file(&project, ".clang-format"));
}

#[test]
fn test_code_formatter_cmake_format() {
    let project = run(&[
        "--name",
        "cmake-format-project",
        "--project-type",
        "executable",
        "--code-formatter",
        "cmake-format",
        "--test-framework",
        "none",
        "--non-interactive",
        "--path",
        WORK,
    ])
    .unwrap();

    assert!(has_file(&project, "cmake-format.yaml"));
}

// ============================================================================
// Git Integration Tests
// ============================================================================

#[test]
fn test_git_initialization() {
    let project = run(&[
        "--name",
        "git-project",
        "--project-type",
        "executable",
        "--git",
        "--test-framework",
        "none",
        "--non-interactive",
        "--path",
        WORK,
    ])
    .unwrap();

    assert!(project.init_git);
    assert!(project.git_files.iter().any(|f| f.path == ".gitignore"));
}

// ============================================================================
// Error Handling Tests
// ============================================================================

#[test]
fn test_invalid_project_name() {
    let project = run(&[
        "--name",
        "123invalid",
        "--project-type",
        "executable",
        "--non-interactive",
        "--path",
        WORK,
    ]);

    assert!(matches!(project, Err(Error::NameStartsWithNumber)));
}

#[test]
fn test_project_name_with_spaces() {
    let project = run(&[
        "--name",
        "invalid name",
        "--project-type",
        "executable",
        "--non-interactive",
        "--path",
        WORK,
    ]);

    assert!(matches!(project, Err(Error::NameInvalidCharacters)));
}

#[test]
fn test_project_name_with_special_chars() {
    let project = run(&[
        "--name",
        "invalid@project!",
        "--project-type",
        "executable",
        "--non-interactive",
        "--path",
        WORK,
    ]);

    assert!(matches!(project, Err(Error::NameInvalidCharacters)));
}

#[test]
fn test_missing_required_name() {
    let project = run(&["--project-type", "executable", "--non-interactive", "--path", WORK]);

    assert!(matches!(project, Err(Error::MissingName)));
}

#[test]
fn test_missing_required_project_type() {
    let project = run(&["--name", "test-project", "--non-interactive", "--path", WORK]);

    assert!(matches!(project, Err(Error::MissingProjectType)));
}

#[test]
fn test_duplicate_project_creation() {
    // Create first project successfully
    let first = run(&[
        "--name",
        "duplicate-project",
        "--project-type",
        "executable",
        "--test-framework",
        "none",
        "--non-interactive",
        "--path",
        WORK,
    ]);
    assert!(first.is_ok());

    // Try to create the same project again, now that it is there
    let second = run_on(
        &[
            "--name",
            "duplicate-project",
            "--project-type",
            "executable",
            "--test-framework",
            "none",
            "--non-interactive",
            "--path",
            WORK,
        ],
        true,
    );
    let failure = second.unwrap_err();
    assert_eq!(failure.kind(), ErrorKind::AlreadyExists);
    assert_eq!(
        failure.to_string(),
        "Project directory already exists: /tmp/work/duplicate-project"
    );
}

// ============================================================================
// Complex Scenario Tests
// ============================================================================

#[test]
fn test_full_featured_project() {
    let project = run(&[
        "--name",
        "full-project",
        "--description",
        "A fully featured test project",
        "--author",
        "Test Author",
        "--project-type",
        "library",
        "--build-system",
        "cmake",
        "--cpp-standard",
        "20",
        "--package-manager",
        "conan",
        "--test-framework",
        "doctest",
        "--license",
        "MIT",
        "--quality-tools",
        "clang-tidy,cppcheck",
        "--code-formatter",
        "clang-format",
        "--git",
        "--non-interactive",
        "--path",
        WORK,
    ])
    .unwrap();

    // Verify all components
    assert!(has_file(&project, "src/lib.cpp"));
    assert!(has_file(&project, "include/full-project.hpp"));
    assert!(has_dir(&project, "examples"));
    assert!(has_dir(&project, "tests"));
    assert!(has_file(&project, "CMakeLists.txt"));
    assert!(has_file(&project, "conanfile.txt"));
    assert!(has_file(&project, ".clang-tidy"));
    assert!(has_file(&project, "cppcheck-suppressions.xml"));
    assert!(has_file(&project, ".clang-format"));
    assert!(has_file(&project, ".gitignore"));
    assert!(has_file(&project, "LICENSE"));
    assert!(has_file(&project, "README.md"));
}

#[test]
fn test_executable_with_make_and_tests() {
    let project = run(&[
        "--name",
        "make-test-project",
        "--project-type",
        "executable",
        "--build-system",
        "make",
        "--cpp-standard",
        "17",
        "--test-framework",
        "catch2",
        "--non-interactive",
        "--path",
        WORK,
    ])
    .unwrap();

    assert!(has_file(&project, "Makefile"));
    assert!(has_dir(&project, "tests"));
    assert!(has_file(&project, "src/main.cpp"));
    assert!(has_file(&project, "tests/main_test.cpp"));
    assert!(has_file(&project, "tests/Makefile"));
}
