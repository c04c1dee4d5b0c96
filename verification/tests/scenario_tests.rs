use cppup::error::Error;
use cppup::project::builder::Scaffold;
use cppup::project::{
    BuildSystem, CodeFormatter, CppStandard, License, PackageManager, ProjectBuilder,
    ProjectConfig, ProjectType, QualityConfig, TestFramework,
};

fn demo() -> ProjectConfig {
    ProjectConfig {
        name: "demo".to_string(),
        description: "A C++ project generated with cppup".to_string(),
        project_type: ProjectType::Executable,
        build_system: BuildSystem::CMake,
        cpp_standard: CppStandard::Cpp17,
        test_framework: TestFramework::Absent,
        package_manager: PackageManager::Absent,
        license: License::MIT,
        use_git: false,
        path: "./demo".to_string(),
        author: "Unknown".to_string(),
        version: "0.1.0".to_string(),
        quality_config: QualityConfig::new(&[]),
        code_formatter: CodeFormatter::new(&[]),
    }
}

fn build(config: ProjectConfig) -> Scaffold {
    ProjectBuilder::new(config, 2024).build().unwrap()
}

fn paths(project: &Scaffold) -> Vec<String> {
    project.files.iter().chain(project.git_files.iter()).map(|f| f.path.clone()).collect()
}

fn contents<'a>(project: &'a Scaffold, path: &str) -> &'a str {
    let found = project.files.iter().chain(project.git_files.iter()).find(|f| f.path == path);
    found.map(|f| f.contents.as_str()).unwrap()
}

/// The files that a configuration must lead to, worked out anew from the choices.
fn expected_paths(config: &ProjectConfig) -> Vec<String> {
    let library = config.project_type == ProjectType::Library;
    let cmake = config.build_system == BuildSystem::CMake;
    let tests = config.test_framework != TestFramework::Absent;
    let mut expected: Vec<String> = Vec::new();
    if cmake {
        expected.push("CMakeLists.txt".into());
        expected.push("cmake/options.cmake".into());
        expected.push("cmake/compilation-flags.cmake".into());
        expected.push("src/CMakeLists.txt".into());
        if library {
            expected.push("examples/CMakeLists.txt".into());
        }
    } else {
        expected.push("Makefile".into());
    }
    if library {
        expected.push(format!("include/{}.hpp", config.name));
        expected.push("src/lib.cpp".into());
        expected.push("examples/example.cpp".into());
    } else {
        expected.push("src/main.cpp".into());
    }
    if tests {
        if cmake {
            expected.push("tests/CMakeLists.txt".into());
        } else {
            expected.push("tests/Makefile".into());
        }
        expected.push("tests/main_test.cpp".into());
    }
    expected.push("README.md".into());
    if config.quality_config.enable_clang_tidy {
        expected.push(".clang-tidy".into());
    }
    if config.quality_config.enable_cppcheck {
        expected.push("cppcheck-suppressions.xml".into());
    }
    if config.code_formatter.enable_clang_format {
        expected.push(".clang-format".into());
    }
    if config.code_formatter.enable_cmake_format {
        expected.push("cmake-format.yaml".into());
    }
    expected.push("LICENSE".into());
    match config.package_manager {
        PackageManager::Conan => expected.push("conanfile.txt".into()),
        PackageManager::Vcpkg => expected.push("vcpkg.json".into()),
        PackageManager::Absent => {}
    }
    if config.use_git {
        expected.push(".gitignore".into());
    }
    expected
}

#[test]
fn scenario_executable_with_cmake() {
    let project = build(demo());
    assert_eq!(project.root, "./demo");
    assert_eq!(
        paths(&project),
        vec![
            "CMakeLists.txt",
            "cmake/options.cmake",
            "cmake/compilation-flags.cmake",
            "src/CMakeLists.txt",
            "src/main.cpp",
            "README.md",
            "LICENSE"
        ]
    );
    assert_eq!(project.directories, vec!["src", "cmake", "include", "assets"]);
    assert!(!project.directories.iter().any(|d| d == "tests"));
    assert!(!project.init_git);
    assert!(project.git_files.is_empty());
    assert!(contents(&project, "LICENSE").starts_with("MIT License"));
    assert!(contents(&project, "CMakeLists.txt").contains("project(demo"));
}

#[test]
fn scenario_library_with_cmake() {
    let mut config = demo();
    config.project_type = ProjectType::Library;
    let project = build(config);
    assert_eq!(
        paths(&project),
        vec![
            "CMakeLists.txt",
            "cmake/options.cmake",
            "cmake/compilation-flags.cmake",
            "src/CMakeLists.txt",
            "examples/CMakeLists.txt",
            "include/demo.hpp",
            "src/lib.cpp",
            "examples/example.cpp",
            "README.md",
            "LICENSE"
        ]
    );
    assert_eq!(project.directories, vec!["src", "cmake", "include", "examples"]);
    assert!(contents(&project, "include/demo.hpp").contains("namespace demo {"));
    assert!(contents(&project, "src/lib.cpp").contains("#include \"demo.hpp\""));
}

#[test]
fn scenario_gtest_adds_its_own_stub() {
    let mut config = demo();
    config.test_framework = TestFramework::GTest;
    let project = build(config);
    assert!(paths(&project).contains(&"tests/main_test.cpp".to_string()));
    assert!(paths(&project).contains(&"tests/CMakeLists.txt".to_string()));
    assert!(project.directories.iter().any(|d| d == "tests"));
    let stub = contents(&project, "tests/main_test.cpp");
    assert!(stub.contains("#include <gtest/gtest.h>"));
    assert!(stub.contains("RUN_ALL_TESTS"));
    assert!(!stub.contains("doctest"));
    assert!(contents(&project, "tests/CMakeLists.txt").contains("find_package(GTest REQUIRED)"));
}

#[test]
fn each_framework_has_its_own_stub() {
    let marks = [
        (TestFramework::Doctest, "#include <doctest/doctest.h>"),
        (TestFramework::GTest, "#include <gtest/gtest.h>"),
        (TestFramework::Catch2, "#include <catch2/catch_test_macros.hpp>"),
        (TestFramework::BoostTest, "#include <boost/test/included/unit_test.hpp>"),
    ];
    for (framework, mark) in marks {
        let mut config = demo();
        config.test_framework = framework;
        let project = build(config);
        let stub = contents(&project, "tests/main_test.cpp");
        for (_, other) in marks {
            assert_eq!(stub.contains(other), other == mark);
        }
    }
}

#[test]
fn scenario_package_manager_adds_its_file() {
    let mut config = demo();
    config.package_manager = PackageManager::Conan;
    let found = paths(&build(config.clone()));
    assert!(found.contains(&"conanfile.txt".to_string()));
    assert!(!found.contains(&"vcpkg.json".to_string()));

    config.package_manager = PackageManager::Vcpkg;
    let found = paths(&build(config.clone()));
    assert!(found.contains(&"vcpkg.json".to_string()));
    assert!(!found.contains(&"conanfile.txt".to_string()));

    config.package_manager = PackageManager::Absent;
    let found = paths(&build(config));
    assert!(!found.contains(&"vcpkg.json".to_string()));
    assert!(!found.contains(&"conanfile.txt".to_string()));
}

#[test]
fn every_combination_leads_to_exactly_its_files() {
    let types = [ProjectType::Executable, ProjectType::Library];
    let systems = [BuildSystem::CMake, BuildSystem::Make];
    let frameworks = [
        TestFramework::Absent,
        TestFramework::Doctest,
        TestFramework::GTest,
        TestFramework::Catch2,
        TestFramework::BoostTest,
    ];
    for project_type in types {
        for build_system in systems {
            for test_framework in frameworks {
                let mut config = demo();
                config.project_type = project_type;
                config.build_system = build_system;
                config.test_framework = test_framework;
                let project = build(config.clone());
                assert_eq!(paths(&project), expected_paths(&config));
                let has_tests_dir = project.directories.iter().any(|d| d == "tests");
                assert_eq!(has_tests_dir, test_framework != TestFramework::Absent);
                let under_tests = paths(&project).iter().any(|p| p.starts_with("tests/"));
                assert_eq!(under_tests, test_framework != TestFramework::Absent);
                let planned: Vec<String> =
                    config.planned_outputs().into_iter().map(|o| o.path).collect();
                assert_eq!(planned, expected_paths(&config));
            }
        }
    }
}

#[test]
fn tools_and_git_add_their_files() {
    let mut config = demo();
    config.project_type = ProjectType::Library;
    config.test_framework = TestFramework::Doctest;
    config.package_manager = PackageManager::Conan;
    config.use_git = true;
    config.quality_config = QualityConfig::new(&["clang-tidy", "cppcheck", "include-what-you-use"]);
    config.code_formatter = CodeFormatter::new(&["clang-format", "cmake-format"]);
    let project = build(config.clone());
    assert_eq!(paths(&project), expected_paths(&config));
    assert!(project.init_git);
    assert_eq!(project.git_files.len(), 1);
    assert_eq!(project.git_files[0].path, ".gitignore");
    assert_eq!(project.files.last().unwrap().path, "conanfile.txt");
    assert_eq!(project.directories, vec!["src", "cmake", "include", "examples", "tests"]);
}

#[test]
fn every_file_goes_into_a_directory_that_is_made() {
    let mut config = demo();
    config.project_type = ProjectType::Library;
    config.test_framework = TestFramework::Catch2;
    config.use_git = true;
    let project = build(config);
    for path in paths(&project) {
        if let Some((dir, _)) = path.split_once('/') {
            assert!(project.directories.iter().any(|d| d == dir), "no directory for {}", path);
        }
    }
}

#[test]
fn same_config_renders_the_same_bytes() {
    let mut config = demo();
    config.project_type = ProjectType::Library;
    config.test_framework = TestFramework::Doctest;
    config.use_git = true;
    let first = build(config.clone());
    let second = build(config);
    assert_eq!(first.files.len(), second.files.len());
    for (a, b) in first.files.iter().zip(second.files.iter()) {
        assert_eq!(a.path, b.path);
        assert_eq!(a.contents, b.contents);
    }
    assert_eq!(first.git_files[0].contents, second.git_files[0].contents);
    assert_eq!(first.directories, second.directories);
    assert_eq!(first.next_steps, second.next_steps);
}

#[test]
fn fresh_path_reproduces_the_contents() {
    let here = build(demo());
    let mut moved = demo();
    moved.path = "/elsewhere/demo".to_string();
    let there = build(moved);
    assert_eq!(there.root, "/elsewhere/demo");
    assert_eq!(paths(&here), paths(&there));
    for (a, b) in here.files.iter().zip(there.files.iter()) {
        assert_eq!(a.contents, b.contents);
    }
    assert_eq!(here.directories, there.directories);
    assert_eq!(there.next_steps[4], "1. cd /elsewhere/demo");
}

#[test]
fn year_and_author_reach_the_license() {
    let mut config = demo();
    config.author = "Grace Hopper".to_string();
    let project = ProjectBuilder::new(config, 1952).build().unwrap();
    assert!(contents(&project, "LICENSE").contains("Copyright (c) 1952 Grace Hopper"));
}

#[test]
fn license_comes_from_the_template_of_its_name() {
    let marks = [
        (License::MIT, "MIT License"),
        (License::Apache2, "Apache License"),
        (License::GPL3, "GNU GENERAL PUBLIC LICENSE"),
        (License::BSD3, "BSD 3-Clause License"),
    ];
    for (license, mark) in marks {
        let mut config = demo();
        config.license = license;
        let project = build(config);
        assert!(contents(&project, "LICENSE").starts_with(mark));
    }
}

#[test]
fn a_missing_template_fails_the_whole_build() {
    let mut builder = ProjectBuilder::new(demo(), 2024);
    builder.template_renderer.register_template("README.md", "{{lookup name}}").unwrap();
    let failure = builder.build().unwrap_err();
    assert!(matches!(&failure, Error::RenderFailed { name, .. } if name == "README.md"));
    let step = builder.render_templates();
    assert!(matches!(step, Err(Error::RenderFailed { .. })));
    // What comes before the failing template still renders on its own.
    let sources = builder.render_outputs(&builder.config.generate_source_files()).unwrap();
    assert_eq!(sources.len(), 1);
    assert_eq!(sources[0].path, "src/main.cpp");
}

#[test]
fn steps_render_their_own_files() {
    let mut config = demo();
    config.package_manager = PackageManager::Vcpkg;
    config.use_git = true;
    let builder = ProjectBuilder::new(config, 2024);
    let templates: Vec<String> =
        builder.render_templates().unwrap().into_iter().map(|f| f.path).collect();
    assert_eq!(templates.last().unwrap(), "LICENSE");
    assert!(!templates.contains(&"vcpkg.json".to_string()));
    let packages = builder.setup_package_manager().unwrap();
    assert_eq!(packages.len(), 1);
    assert_eq!(packages[0].path, "vcpkg.json");
    assert!(packages[0].contents.contains("\"name\": \"demo\""));
    let git = builder.initialize_git().unwrap();
    assert_eq!(git.len(), 1);
    assert_eq!(git[0].path, ".gitignore");
}

#[test]
fn plans_name_template_and_path() {
    let mut config = demo();
    config.license = License::GPL3;
    assert_eq!(config.generate_cmake_file().template, "CMakeLists.txt");
    assert_eq!(config.generate_cmake_file().path, "CMakeLists.txt");
    assert_eq!(config.generate_makefile().template, "Makefile");
    assert_eq!(config.generate_readme().path, "README.md");
    assert_eq!(config.generate_clang_format().template, "clang-format");
    assert_eq!(config.generate_clang_format().path, ".clang-format");
    assert_eq!(config.generate_license().template, "GPL-3.0");
    assert_eq!(config.generate_license().path, "LICENSE");
    assert!(config.generate_test_files().is_empty());
    config.test_framework = TestFramework::BoostTest;
    config.build_system = BuildSystem::Make;
    let tests = config.generate_test_files();
    assert_eq!(tests.len(), 2);
    assert_eq!(tests[0].template, "tests.mk");
    assert_eq!(tests[0].path, "tests/Makefile");
    assert_eq!(tests[1].template, "boost_test_main.cpp");
    assert_eq!(tests[1].path, "tests/main_test.cpp");
    config.project_type = ProjectType::Library;
    let sources = config.generate_source_files();
    assert_eq!(sources[0].template, "header.hpp");
    assert_eq!(sources[0].path, "include/demo.hpp");
}

#[test]
fn tests_come_with_a_build_file_for_either_build_system() {
    let mut config = demo();
    config.test_framework = TestFramework::Catch2;
    let project = build(config.clone());
    let found = paths(&project);
    assert!(found.contains(&"tests/main_test.cpp".to_string()));
    assert!(found.contains(&"tests/CMakeLists.txt".to_string()));
    assert!(!found.contains(&"tests/Makefile".to_string()));

    config.build_system = BuildSystem::Make;
    let project = build(config.clone());
    let found = paths(&project);
    assert!(found.contains(&"tests/main_test.cpp".to_string()));
    assert!(found.contains(&"tests/Makefile".to_string()));
    assert!(!found.contains(&"tests/CMakeLists.txt".to_string()));
    assert!(contents(&project, "tests/Makefile").contains("main_test.cpp"));
    assert!(contents(&project, "Makefile").contains("$(MAKE) -C tests test"));

    config.test_framework = TestFramework::Absent;
    let found = paths(&build(config));
    assert!(!found.iter().any(|p| p.starts_with("tests/")));
}
