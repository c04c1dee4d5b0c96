use cppup::error::{Error, ErrorKind};
use cppup::project::validator::{
    first_failure, parse_version, tool_verdict, tools_verdict, version_verdict, CompilerVersion,
};
use cppup::project::{
    BuildSystem, CodeFormatter, CppStandard, License, PackageManager, ProjectConfig, ProjectType,
    ProjectValidator, QualityConfig, TestFramework,
};

fn create_test_config() -> ProjectConfig {
    ProjectConfig {
        name: "test-project".to_string(),
        description: "Test project".to_string(),
        project_type: ProjectType::Executable,
        build_system: BuildSystem::CMake,
        cpp_standard: CppStandard::Cpp17,
        test_framework: TestFramework::Absent,
        package_manager: PackageManager::Absent,
        license: License::MIT,
        use_git: false,
        path: "/tmp/test-project".to_string(),
        author: "Test Author".to_string(),
        version: "0.1.0".to_string(),
        quality_config: QualityConfig::new(&[]),
        code_formatter: CodeFormatter::new(&[]),
    }
}

fn as_number(version: Option<CompilerVersion>) -> Option<f32> {
    version.map(|v| v.text.parse().unwrap())
}

fn version(text: &str) -> Option<CompilerVersion> {
    parse_version(text)
}

#[test]
fn test_extract_gcc_version_valid() {
    let version_string = "g++ (Ubuntu 11.4.0-1ubuntu1~22.04) 11.4.0";
    let version = ProjectValidator::extract_gcc_version(version_string);
    assert_eq!(as_number(version), Some(11.4));
}

#[test]
fn test_extract_gcc_version_different_format() {
    let version_string = "g++ (GCC) 12.2.0";
    let version = ProjectValidator::extract_gcc_version(version_string);
    assert_eq!(as_number(version), Some(12.2));
}

#[test]
fn test_extract_gcc_version_invalid() {
    let version_string = "invalid version string";
    let version = ProjectValidator::extract_gcc_version(version_string);
    assert_eq!(as_number(version), None);
}

#[test]
fn test_extract_gcc_version_no_number() {
    let version_string = "g++ version unknown";
    let version = ProjectValidator::extract_gcc_version(version_string);
    assert_eq!(as_number(version), None);
}

#[test]
fn test_validator_creation() {
    let config = create_test_config();
    let validator = ProjectValidator::new(config.clone());
    assert_eq!(validator.config.name, "test-project");
}

#[test]
fn test_cpp_standard_version_requirements() {
    // Test that we can access the required version logic through the type
    let cpp11_config = ProjectConfig {
        cpp_standard: CppStandard::Cpp11,
        ..create_test_config()
    };
    let validator11 = ProjectValidator::new(cpp11_config);
    assert!(matches!(validator11.config.cpp_standard, CppStandard::Cpp11));

    let cpp23_config = ProjectConfig {
        cpp_standard: CppStandard::Cpp23,
        ..create_test_config()
    };
    let validator23 = ProjectValidator::new(cpp23_config);
    assert!(matches!(validator23.config.cpp_standard, CppStandard::Cpp23));
}

#[test]
fn extracted_version_holds_number_and_tenth() {
    let found = ProjectValidator::extract_gcc_version("g++ (Ubuntu 11.4.0-1ubuntu1~22.04) 11.4.0")
        .unwrap();
    assert_eq!(found.major, 11);
    assert_eq!(found.tenth, 4);
    assert_eq!(found.text, "11.4");
    // The pattern wants a space after the compiler's name and before the version.
    assert!(ProjectValidator::extract_gcc_version("g++ 12.2.0").is_none());
    assert!(ProjectValidator::extract_gcc_version("clang version 15.0.0").is_none());
}

#[test]
fn version_is_read_from_digits_point_digits() {
    let v = version("11.4").unwrap();
    assert_eq!((v.major, v.tenth, v.text.as_str()), (11, 4, "11.4"));
    let v = version("4.10").unwrap();
    assert_eq!((v.major, v.tenth), (4, 1));
    let v = version("007.25").unwrap();
    assert_eq!((v.major, v.tenth), (7, 2));
    let v = version("0.0").unwrap();
    assert_eq!((v.major, v.tenth), (0, 0));
    assert!(version("").is_none());
    assert!(version("11").is_none());
    assert!(version("11.").is_none());
    assert!(version(".4").is_none());
    assert!(version("11.4.0").is_none());
    assert!(version("1x.4").is_none());
    assert!(version("11.4a").is_none());
    assert!(version("\u{661}\u{661}.4").is_none());
}

#[test]
fn version_number_saturates() {
    let v = version("18446744073709551615.9").unwrap();
    assert_eq!((v.major, v.tenth), (u64::MAX, 9));
    let v = version("18446744073709551616.0").unwrap();
    assert_eq!(v.major, u64::MAX);
    let v = version("99999999999999999999999999.5").unwrap();
    assert_eq!((v.major, v.tenth), (u64::MAX, 5));
}

#[test]
fn required_versions_match_the_table() {
    assert_eq!(CppStandard::Cpp11.required_version(), (4, 8));
    assert_eq!(CppStandard::Cpp14.required_version(), (5, 0));
    assert_eq!(CppStandard::Cpp17.required_version(), (7, 0));
    assert_eq!(CppStandard::Cpp20.required_version(), (10, 0));
    assert_eq!(CppStandard::Cpp23.required_version(), (12, 0));
    assert_eq!(CppStandard::Cpp11.required_version_text(), "4.8");
    assert_eq!(CppStandard::Cpp14.required_version_text(), "5");
    assert_eq!(CppStandard::Cpp17.required_version_text(), "7");
    assert_eq!(CppStandard::Cpp20.required_version_text(), "10");
    assert_eq!(CppStandard::Cpp23.required_version_text(), "12");
}

#[test]
fn compiler_is_judged_against_the_threshold() {
    assert!(version_verdict(CppStandard::Cpp11, version("4.8")).is_ok());
    assert!(version_verdict(CppStandard::Cpp11, version("4.9")).is_ok());
    assert!(version_verdict(CppStandard::Cpp11, version("5.0")).is_ok());
    assert!(version_verdict(CppStandard::Cpp14, version("5.0")).is_ok());
    assert!(version_verdict(CppStandard::Cpp17, version("7.0")).is_ok());
    assert!(version_verdict(CppStandard::Cpp20, version("10.0")).is_ok());
    assert!(version_verdict(CppStandard::Cpp23, version("12.0")).is_ok());
    assert!(version_verdict(CppStandard::Cpp23, version("13.2")).is_ok());

    assert!(version_verdict(CppStandard::Cpp11, version("4.7")).is_err());
    assert!(version_verdict(CppStandard::Cpp11, version("4.10")).is_err());
    assert!(version_verdict(CppStandard::Cpp11, version("3.9")).is_err());
    assert!(version_verdict(CppStandard::Cpp14, version("4.9")).is_err());
    assert!(version_verdict(CppStandard::Cpp17, version("6.5")).is_err());
    assert!(version_verdict(CppStandard::Cpp20, version("9.9")).is_err());
    assert!(version_verdict(CppStandard::Cpp23, version("11.4")).is_err());
}

#[test]
fn unreadable_version_passes() {
    assert!(version_verdict(CppStandard::Cpp23, None).is_ok());
    let validator = ProjectValidator::new(ProjectConfig {
        cpp_standard: CppStandard::Cpp23,
        ..create_test_config()
    });
    assert!(validator.check_compiler_version("unknown").is_ok());
    assert!(validator.check_compiler_version("g++ version unknown").is_ok());
    assert!(validator.check_compiler_version("").is_ok());
}

#[test]
fn old_compiler_is_named_in_the_failure() {
    let validator = ProjectValidator::new(ProjectConfig {
        cpp_standard: CppStandard::Cpp20,
        ..create_test_config()
    });
    let failure = validator.check_compiler_version("g++ (GCC) 9.4.0").unwrap_err();
    assert_eq!(
        failure.to_string(),
        "G++ version 9.4 is too old for C++20. Version >= 10 required."
    );
    assert_eq!(failure.kind(), ErrorKind::PrerequisiteMissing);
    assert!(validator.check_compiler_version("g++ (GCC) 10.2.1 20210110").is_ok());

    let validator = ProjectValidator::new(ProjectConfig {
        cpp_standard: CppStandard::Cpp11,
        ..create_test_config()
    });
    let failure = validator.check_compiler_version("g++ (GCC) 4.7.2").unwrap_err();
    assert_eq!(
        failure.to_string(),
        "G++ version 4.7 is too old for C++11. Version >= 4.8 required."
    );
}

#[test]
fn first_line_of_the_report_is_taken() {
    assert_eq!(
        ProjectValidator::get_compiler_version("g++ (GCC) 12.2.0\nCopyright (C) 2022 Free Software Foundation, Inc.\n"),
        "g++ (GCC) 12.2.0"
    );
    assert_eq!(ProjectValidator::get_compiler_version("g++ (GCC) 12.2.0\r\nCopyright"), "g++ (GCC) 12.2.0");
    assert_eq!(ProjectValidator::get_compiler_version("one line"), "one line");
    assert_eq!(ProjectValidator::get_compiler_version("bare\r"), "bare\r");
    assert_eq!(ProjectValidator::get_compiler_version("\nsecond"), "");
    assert_eq!(ProjectValidator::get_compiler_version("\r\nsecond"), "");
    assert_eq!(ProjectValidator::get_compiler_version(""), "unknown");
    assert_eq!(ProjectValidator::get_compiler_version("h\u{e9}llo\nworld"), "h\u{e9}llo");
}

#[test]
fn missing_tool_is_named() {
    assert!(tool_verdict("cmake", true).is_ok());
    let failure = tool_verdict("cmake", false).unwrap_err();
    assert_eq!(failure.to_string(), "cmake is not installed");
    assert_eq!(failure.kind(), ErrorKind::PrerequisiteMissing);
}

#[test]
fn required_tools_follow_the_choices() {
    let validator = ProjectValidator::new(create_test_config());
    assert_eq!(validator.required_tools(), vec!["cmake", "g++"]);

    let validator = ProjectValidator::new(ProjectConfig {
        build_system: BuildSystem::Make,
        package_manager: PackageManager::Conan,
        quality_config: QualityConfig::new(&["cppcheck", "clang-tidy", "include-what-you-use"]),
        code_formatter: CodeFormatter::new(&["clang-format", "cmake-format"]),
        ..create_test_config()
    });
    assert_eq!(
        validator.required_tools(),
        vec![
            "make",
            "g++",
            "conan",
            "clang-tidy",
            "cppcheck",
            "include-what-you-use",
            "clang-format",
            "cmake-format"
        ]
    );

    let validator = ProjectValidator::new(ProjectConfig {
        package_manager: PackageManager::Vcpkg,
        ..create_test_config()
    });
    assert_eq!(validator.required_tools(), vec!["cmake", "g++", "vcpkg"]);
}

#[test]
fn a_failed_search_names_a_required_tool() {
    let validator = ProjectValidator::new(ProjectConfig {
        package_manager: PackageManager::Conan,
        quality_config: QualityConfig::new(&["clang-tidy"]),
        ..create_test_config()
    });
    let tools = validator.required_tools();
    match validator.check_required_tools() {
        Ok(()) => {}
        Err(Error::ToolNotFound(tool)) => assert!(tools.contains(&tool)),
        Err(other) => panic!("unexpected failure: {}", other.to_string()),
    }
    match validator.check_prerequisites(Ok("g++ (GCC) 12.2.0".to_string())) {
        Ok(()) => {}
        Err(Error::ToolNotFound(tool)) => assert!(tools.contains(&tool)),
        Err(other) => panic!("unexpected failure: {}", other.to_string()),
    }
}

fn names(tools: &[&str]) -> Vec<String> {
    tools.iter().map(|t| t.to_string()).collect()
}

#[test]
fn the_first_tool_not_found_is_named() {
    let tools = names(&["cmake", "g++", "conan", "clang-tidy"]);
    assert!(tools_verdict(&tools, &vec![true, true, true, true]).is_ok());
    let failure = tools_verdict(&tools, &vec![true, false, true, false]).unwrap_err();
    assert_eq!(failure.to_string(), "g++ is not installed");
    let failure = tools_verdict(&tools, &vec![false, false, false, false]).unwrap_err();
    assert_eq!(failure.to_string(), "cmake is not installed");
    let failure = tools_verdict(&tools, &vec![true, true, true, false]).unwrap_err();
    assert_eq!(failure.to_string(), "clang-tidy is not installed");
    // Lookups that stopped at the first tool that was not found.
    let failure = tools_verdict(&tools, &vec![true, true, false]).unwrap_err();
    assert_eq!(failure.to_string(), "conan is not installed");
    // No lookups, no failure; answers without a tool count for nothing.
    assert!(tools_verdict(&tools, &Vec::new()).is_ok());
    assert!(tools_verdict(&names(&["make"]), &vec![true, false]).is_ok());
    assert!(tools_verdict(&Vec::new(), &vec![false]).is_ok());
}

#[test]
fn tools_come_before_the_compiler() {
    let tool = || Err(Error::ToolNotFound("cmake".to_string()));
    let old = || {
        Err(Error::CompilerTooOld {
            found: "4.7".to_string(),
            standard: "11".to_string(),
            required: "4.8".to_string(),
        })
    };
    assert!(first_failure(Ok(()), Ok(())).is_ok());
    assert!(matches!(first_failure(tool(), Ok(())), Err(Error::ToolNotFound(_))));
    assert!(matches!(first_failure(Ok(()), old()), Err(Error::CompilerTooOld { .. })));
    assert!(matches!(first_failure(tool(), old()), Err(Error::ToolNotFound(_))));
    assert!(matches!(
        first_failure(tool(), Err(Error::CompilerQueryFailed)),
        Err(Error::ToolNotFound(_))
    ));
}

#[test]
fn a_compiler_that_could_not_be_asked_fails_the_check() {
    let validator = ProjectValidator::new(ProjectConfig {
        cpp_standard: CppStandard::Cpp20,
        ..create_test_config()
    });
    let failure = validator.check_reported_compiler(Err(Error::CompilerQueryFailed)).unwrap_err();
    assert_eq!(failure.to_string(), "Failed to get g++ version");
    assert_eq!(failure.kind(), ErrorKind::SubprocessFailure);
    assert!(validator.check_reported_compiler(Ok("g++ (GCC) 12.2.0".to_string())).is_ok());
    let failure =
        validator.check_reported_compiler(Ok("g++ (GCC) 9.4.0".to_string())).unwrap_err();
    assert!(matches!(failure, Error::CompilerTooOld { .. }));
    assert!(validator.check_reported_compiler(Ok("unknown".to_string())).is_ok());
}

#[test]
fn prerequisites_fail_on_a_tool_or_on_the_compiler() {
    let validator = ProjectValidator::new(ProjectConfig {
        cpp_standard: CppStandard::Cpp23,
        ..create_test_config()
    });
    let tools = validator.required_tools();
    match validator.check_prerequisites(Ok("g++ (GCC) 4.1.0".to_string())) {
        Ok(()) => panic!("an old compiler passed"),
        Err(Error::ToolNotFound(tool)) => assert!(tools.contains(&tool)),
        Err(Error::CompilerTooOld { found, .. }) => assert_eq!(found, "4.1"),
        Err(other) => panic!("unexpected failure: {}", other.to_string()),
    }
    match validator.check_prerequisites(Err(Error::CompilerQueryFailed)) {
        Ok(()) => panic!("a compiler that was not asked passed"),
        Err(Error::ToolNotFound(tool)) => assert!(tools.contains(&tool)),
        Err(Error::CompilerQueryFailed) => {}
        Err(other) => panic!("unexpected failure: {}", other.to_string()),
    }
}
