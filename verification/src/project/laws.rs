//! What holds of every project: which files a configuration leads to, that
//! the same choices give the same project, and what the place of a project
//! does and does not change.

use crate::cli::Cli;
use crate::error::ErrorView;
use crate::project::builder::lemma_build_renders_the_plan;
use crate::project::builder::lemma_rendered_files_follow_the_plan;
use crate::project::builder::template_data_spec;
use crate::project::builder::ProjectBuilder;
use crate::project::config::chosen_project_type;
use crate::project::config::cli_verdict;
use crate::project::config::name_verdict;
use crate::project::config::path_verdict;
use crate::project::config::target_path;
use crate::project::config::valid_name;
use crate::project::config::CppStandard;
use crate::project::config::Environment;
use crate::project::config::ProjectConfigView;
use crate::project::layout::header_path;
use crate::project::BuildSystem;
use crate::project::PackageManager;
use crate::templates::hold_table_entries;
use crate::templates::is_table_entry;
use crate::templates::is_table_name;
use crate::templates::sources::builtin_table;
use crate::templates::GeneratedFileView;
use crate::templates::TemplateOutputView;
use vstd::prelude::*;

verus! {

/// The paths of a list of planned outputs.
pub open spec fn paths_of(outputs: Seq<TemplateOutputView>) -> Seq<Seq<char>> {
    outputs.map_values(|planned: TemplateOutputView| planned.path)
}

impl ProjectConfigView {
    /// Whether the build system that was chosen calls for a file at `path`.
    pub open spec fn mandates_build_file(self, path: Seq<char>) -> bool {
        match self.build_system {
            BuildSystem::CMake => {
                ||| path == "CMakeLists.txt"@
                ||| path == "cmake/options.cmake"@
                ||| path == "cmake/compilation-flags.cmake"@
                ||| path == "src/CMakeLists.txt"@
                ||| self.is_library() && path == "examples/CMakeLists.txt"@
            },
            BuildSystem::Make => path == "Makefile"@,
        }
    }

    /// Whether the kind of project calls for a source file at `path`.
    pub open spec fn mandates_source_file(self, path: Seq<char>) -> bool {
        if self.is_library() {
            ||| path == header_path(self.name)
            ||| path == "src/lib.cpp"@
            ||| path == "examples/example.cpp"@
        } else {
            path == "src/main.cpp"@
        }
    }

    /// Whether the tests call for a file at `path`: the first test, and the
    /// build file of the tests for the build system that was chosen.
    pub open spec fn mandates_test_file(self, path: Seq<char>) -> bool {
        self.has_tests() && {
            ||| path == "tests/main_test.cpp"@
            ||| self.build_system == BuildSystem::CMake && path == "tests/CMakeLists.txt"@
            ||| self.build_system == BuildSystem::Make && path == "tests/Makefile"@
        }
    }

    /// Whether a tool or formatter that is switched on calls for a file at `path`.
    pub open spec fn mandates_settings_file(self, path: Seq<char>) -> bool {
        ||| self.quality_config.enable_clang_tidy && path == ".clang-tidy"@
        ||| self.quality_config.enable_cppcheck && path == "cppcheck-suppressions.xml"@
        ||| self.code_formatter.enable_clang_format && path == ".clang-format"@
        ||| self.code_formatter.enable_cmake_format && path == "cmake-format.yaml"@
    }

    /// Whether the package manager or version control calls for a file at `path`.
    pub open spec fn mandates_service_file(self, path: Seq<char>) -> bool {
        ||| self.package_manager == PackageManager::Conan && path == "conanfile.txt"@
        ||| self.package_manager == PackageManager::Vcpkg && path == "vcpkg.json"@
        ||| self.use_git && path == ".gitignore"@
    }

    /// Whether the choices call for a file at `path`.
    pub open spec fn mandates(self, path: Seq<char>) -> bool {
        ||| path == "README.md"@
        ||| path == "LICENSE"@
        ||| self.mandates_build_file(path)
        ||| self.mandates_source_file(path)
        ||| self.mandates_test_file(path)
        ||| self.mandates_settings_file(path)
        ||| self.mandates_service_file(path)
    }
}

/// What is in one of two sequences is in the two of them put together, and
/// nothing else is.
proof fn lemma_contains_add(first: Seq<Seq<char>>, second: Seq<Seq<char>>, x: Seq<char>)
    ensures
        (first + second).contains(x) <==> first.contains(x) || second.contains(x),
{
    if first.contains(x) {
        let i = choose|i: int| 0 <= i < first.len() && first[i] == x;
        assert((first + second)[i] == x);
    }
    if second.contains(x) {
        let i = choose|i: int| 0 <= i < second.len() && second[i] == x;
        assert((first + second)[first.len() + i] == x);
    }
    if (first + second).contains(x) {
        let i = choose|i: int| 0 <= i < (first + second).len() && (first + second)[i] == x;
        if i < first.len() {
            assert(first[i] == x);
        } else {
            assert(second[i - first.len()] == x);
        }
    }
}

/// The paths of two plans put together.
proof fn lemma_paths_add(first: Seq<TemplateOutputView>, second: Seq<TemplateOutputView>)
    ensures
        paths_of(first + second) == paths_of(first) + paths_of(second),
{
    assert(paths_of(first + second) =~= paths_of(first) + paths_of(second));
}

/// The paths of two plans put together hold what the paths of either hold.
proof fn lemma_planned_in_parts(
    first: Seq<TemplateOutputView>,
    second: Seq<TemplateOutputView>,
    path: Seq<char>,
)
    ensures
        paths_of(first + second).contains(path) <==> paths_of(first).contains(path) || paths_of(
            second,
        ).contains(path),
{
    lemma_paths_add(first, second);
    lemma_contains_add(paths_of(first), paths_of(second), path);
}

/// The files of the build system are those that the build system calls for.
proof fn lemma_build_files(config: ProjectConfigView, path: Seq<char>)
    ensures
        paths_of(config.build_files()).contains(path) <==> config.mandates_build_file(path),
{
    let paths = paths_of(config.build_files());
    match config.build_system {
        BuildSystem::CMake => {
            assert(paths[0] == "CMakeLists.txt"@);
            assert(paths[1] == "cmake/options.cmake"@);
            assert(paths[2] == "cmake/compilation-flags.cmake"@);
            assert(paths[3] == "src/CMakeLists.txt"@);
            if config.is_library() {
                assert(paths.len() == 5);
                assert(paths[4] == "examples/CMakeLists.txt"@);
            } else {
                assert(paths.len() == 4);
            }
        },
        BuildSystem::Make => {
            assert(paths.len() == 1);
            assert(paths[0] == "Makefile"@);
        },
    }
}

/// The sources are those that the kind of project calls for.
proof fn lemma_source_files(config: ProjectConfigView, path: Seq<char>)
    ensures
        paths_of(config.source_files()).contains(path) <==> config.mandates_source_file(path),
{
    let paths = paths_of(config.source_files());
    if config.is_library() {
        assert(paths.len() == 3);
        assert(paths[0] == header_path(config.name));
        assert(paths[1] == "src/lib.cpp"@);
        assert(paths[2] == "examples/example.cpp"@);
    } else {
        assert(paths.len() == 1);
        assert(paths[0] == "src/main.cpp"@);
    }
}

/// The files of the tests are those that the tests call for.
proof fn lemma_test_files(config: ProjectConfigView, path: Seq<char>)
    ensures
        paths_of(config.test_files()).contains(path) <==> config.mandates_test_file(path),
{
    let paths = paths_of(config.test_files());
    if config.has_tests() {
        assert(paths.len() == 2);
        assert(paths[1] == "tests/main_test.cpp"@);
        if config.build_system == BuildSystem::CMake {
            assert(paths[0] == "tests/CMakeLists.txt"@);
        } else {
            assert(paths[0] == "tests/Makefile"@);
        }
    } else {
        assert(paths.len() == 0);
    }
}

/// Wherever a test framework is chosen, the plan holds the first test and
/// a build file of the tests, for either build system.
pub proof fn lemma_tests_come_with_their_build_file(config: ProjectConfigView)
    requires
        config.has_tests(),
    ensures
        paths_of(config.planned_outputs()).contains("tests/main_test.cpp"@),
        paths_of(config.planned_outputs()).contains(config.test_build_file().path),
        config.test_build_file().path == "tests/CMakeLists.txt"@ || config.test_build_file().path
            == "tests/Makefile"@,
{
    lemma_planned_files_are_the_mandated(config, "tests/main_test.cpp"@);
    lemma_planned_files_are_the_mandated(config, config.test_build_file().path);
}

/// The settings of the tools are those of the tools that are switched on.
proof fn lemma_quality_files(config: ProjectConfigView, path: Seq<char>)
    ensures
        paths_of(config.quality_files()).contains(path) <==> (config.quality_config.enable_clang_tidy
            && path == ".clang-tidy"@) || (config.quality_config.enable_cppcheck && path
            == "cppcheck-suppressions.xml"@),
{
    let quality = paths_of(config.quality_files());
    if config.quality_config.enable_clang_tidy {
        assert(quality[0] == ".clang-tidy"@);
        if config.quality_config.enable_cppcheck {
            assert(quality.len() == 2);
            assert(quality[1] == "cppcheck-suppressions.xml"@);
        } else {
            assert(quality.len() == 1);
        }
    } else if config.quality_config.enable_cppcheck {
        assert(quality.len() == 1);
        assert(quality[0] == "cppcheck-suppressions.xml"@);
    } else {
        assert(quality.len() == 0);
    }
}

/// The settings of the formatters are those of the formatters that are switched on.
proof fn lemma_formatter_files(config: ProjectConfigView, path: Seq<char>)
    ensures
        paths_of(config.formatter_files()).contains(path) <==> (
        config.code_formatter.enable_clang_format && path == ".clang-format"@) || (
        config.code_formatter.enable_cmake_format && path == "cmake-format.yaml"@),
{
    let formatters = paths_of(config.formatter_files());
    if config.code_formatter.enable_clang_format {
        assert(formatters[0] == ".clang-format"@);
        if config.code_formatter.enable_cmake_format {
            assert(formatters.len() == 2);
            assert(formatters[1] == "cmake-format.yaml"@);
        } else {
            assert(formatters.len() == 1);
        }
    } else if config.code_formatter.enable_cmake_format {
        assert(formatters.len() == 1);
        assert(formatters[0] == "cmake-format.yaml"@);
    } else {
        assert(formatters.len() == 0);
    }
}

/// The file of the package manager is that of the one that was chosen.
proof fn lemma_package_files(config: ProjectConfigView, path: Seq<char>)
    ensures
        paths_of(config.package_files()).contains(path) <==> (config.package_manager
            == PackageManager::Conan && path == "conanfile.txt"@) || (config.package_manager
            == PackageManager::Vcpkg && path == "vcpkg.json"@),
{
    let packages = paths_of(config.package_files());
    match config.package_manager {
        PackageManager::Conan => {
            assert(packages.len() == 1);
            assert(packages[0] == "conanfile.txt"@);
        },
        PackageManager::Vcpkg => {
            assert(packages.len() == 1);
            assert(packages[0] == "vcpkg.json"@);
        },
        PackageManager::Absent => {
            assert(packages.len() == 0);
        },
    }
}

/// The file of version control is there where version control is used.
proof fn lemma_git_files(config: ProjectConfigView, path: Seq<char>)
    ensures
        paths_of(config.git_files()).contains(path) <==> config.use_git && path == ".gitignore"@,
{
    let git = paths_of(config.git_files());
    if config.use_git {
        assert(git.len() == 1);
        assert(git[0] == ".gitignore"@);
    } else {
        assert(git.len() == 0);
    }
}

/// The paths of a plan of one file.
proof fn lemma_single_file(planned: TemplateOutputView, path: Seq<char>)
    ensures
        paths_of(seq![planned]).contains(path) <==> path == planned.path,
{
    let paths = paths_of(seq![planned]);
    assert(paths.len() == 1);
    assert(paths[0] == planned.path);
}

/// The files that follow the directories are those that the build system,
/// the kind of project, the tests and the tools call for, with the
/// introduction and the license.
proof fn lemma_template_files(config: ProjectConfigView, path: Seq<char>)
    ensures
        paths_of(config.template_outputs()).contains(path) <==> {
            ||| path == "README.md"@
            ||| path == "LICENSE"@
            ||| config.mandates_build_file(path)
            ||| config.mandates_source_file(path)
            ||| config.mandates_test_file(path)
            ||| config.mandates_settings_file(path)
        },
{
    let upto_sources = config.build_files() + config.source_files();
    let upto_tests = upto_sources + config.test_files();
    let upto_readme = upto_tests + seq![config.readme()];
    let upto_quality = upto_readme + config.quality_files();
    let upto_formatters = upto_quality + config.formatter_files();
    lemma_planned_in_parts(upto_formatters, seq![config.license_file()], path);
    lemma_planned_in_parts(upto_quality, config.formatter_files(), path);
    lemma_planned_in_parts(upto_readme, config.quality_files(), path);
    lemma_planned_in_parts(upto_tests, seq![config.readme()], path);
    lemma_planned_in_parts(upto_sources, config.test_files(), path);
    lemma_planned_in_parts(config.build_files(), config.source_files(), path);
    lemma_build_files(config, path);
    lemma_source_files(config, path);
    lemma_test_files(config, path);
    lemma_quality_files(config, path);
    lemma_formatter_files(config, path);
    lemma_single_file(config.readme(), path);
    lemma_single_file(config.license_file(), path);
}

/// A project has exactly the files that its choices call for: a file is
/// planned at a path if and only if the choices mandate one there.
pub proof fn lemma_planned_files_are_the_mandated(config: ProjectConfigView, path: Seq<char>)
    ensures
        paths_of(config.planned_outputs()).contains(path) <==> config.mandates(path),
{
    lemma_planned_in_parts(
        config.template_outputs() + config.package_files(),
        config.git_files(),
        path,
    );
    lemma_planned_in_parts(config.template_outputs(), config.package_files(), path);
    lemma_template_files(config, path);
    lemma_package_files(config, path);
    lemma_git_files(config, path);
}

/// The same choices in the same year give the same project: two builders
/// whose renderers hold the same templates and helpers, with the same
/// configuration and the values of the same year lay out the same directories and files
/// with the same contents, or fail at the same template.
pub proof fn lemma_same_choices_same_project(first: ProjectBuilder, second: ProjectBuilder, year: int)
    requires
        first.config@ == second.config@,
        first.template_data@ == template_data_spec(first.config@, year),
        second.template_data@ == template_data_spec(second.config@, year),
        first.template_renderer.templates() == second.template_renderer.templates(),
        first.template_renderer.list_helpers() == second.template_renderer.list_helpers(),
    ensures
        first.build_spec() == second.build_spec(),
{
}

/// The place of a project changes nothing in it: two builders whose
/// renderers hold the same templates and helpers and whose configurations
/// differ in the path alone lay out the same directories and
/// the same files with the same contents, or fail at the same template.
pub proof fn lemma_fresh_path_same_contents(first: ProjectBuilder, second: ProjectBuilder, year: int)
    requires
        second.config@ == (ProjectConfigView { path: second.config@.path, ..first.config@ }),
        first.template_data@ == template_data_spec(first.config@, year),
        second.template_data@ == template_data_spec(second.config@, year),
        first.template_renderer.templates() == second.template_renderer.templates(),
        first.template_renderer.list_helpers() == second.template_renderer.list_helpers(),
    ensures
        match first.build_spec() {
            Ok(here) => second.build_spec() matches Ok(there) && there.directories
                == here.directories && there.files == here.files && there.init_git == here.init_git
                && there.git_files == here.git_files,
            Err(name) => second.build_spec() == Err::<
                crate::project::builder::ScaffoldView,
                Seq<char>,
            >(name),
        },
{
    assert(first.template_data@ == second.template_data@);
    assert(first.config@.template_outputs() == second.config@.template_outputs());
    assert(first.config@.package_files() == second.config@.package_files());
    assert(first.config@.git_files() == second.config@.git_files());
    assert(first.config@.directories() == second.config@.directories());
}

/// A project that is there already is not made again: options that are
/// otherwise in order are refused when the project's directory exists, and
/// the failure names that directory.
pub proof fn lemma_existing_project_is_refused(cli: Cli, env: Environment)
    requires
        env.target_exists,
        cli.name is Some,
        valid_name(cli.name->0@),
        path_verdict(cli.path@, env.base) is Ok,
        chosen_project_type(cli.project_type) is Some,
        CppStandard::parse_spec(cli.cpp_standard@) is Some,
    ensures
        cli_verdict(cli, env) == Err::<ProjectConfigView, ErrorView>(
            ErrorView::AlreadyExists(target_path(cli.path@, cli.name->0@)),
        ),
{
}

/// A name that breaks a rule stops everything else: whatever the machine
/// says and whatever else the options hold, the failure is that of the name.
pub proof fn lemma_bad_name_is_refused_first(cli: Cli, env: Environment)
    requires
        cli.name is Some,
        !valid_name(cli.name->0@),
    ensures
        cli_verdict(cli, env) is Err,
        name_verdict(cli.name->0@) == Err::<(), ErrorView>(cli_verdict(cli, env)->Err_0),
{
}

impl ProjectConfigView {
    /// Whether the choices call for a directory `dir` inside the project's own.
    pub open spec fn mandates_directory(self, dir: Seq<char>) -> bool {
        ||| dir == "src"@
        ||| dir == "cmake"@
        ||| dir == "include"@
        ||| self.is_library() && dir == "examples"@
        ||| !self.is_library() && dir == "assets"@
        ||| self.has_tests() && dir == "tests"@
    }
}

/// A project has exactly the directories that its choices call for: the
/// standard ones, `examples` for a library and `assets` for a program, and
/// `tests` where a test framework was chosen.
pub proof fn lemma_directories_are_the_mandated(config: ProjectConfigView, dir: Seq<char>)
    ensures
        config.directories().contains(dir) <==> config.mandates_directory(dir),
{
    let directories = config.directories();
    assert(directories[0] == "src"@);
    assert(directories[1] == "cmake"@);
    assert(directories[2] == "include"@);
    if config.is_library() {
        assert(directories[3] == "examples"@);
    } else {
        assert(directories[3] == "assets"@);
    }
    if config.has_tests() {
        assert(directories.len() == 5);
        assert(directories[4] == "tests"@);
    } else {
        assert(directories.len() == 4);
    }
}

/// Whether `path` lies inside the directory `dir`.
pub open spec fn is_under(path: Seq<char>, dir: Seq<char>) -> bool {
    &&& path.len() > dir.len()
    &&& path.subrange(0, dir.len() as int) == dir
    &&& path[dir.len() as int] == '/'
}

/// No file of the build system lies inside `tests`.
proof fn lemma_build_files_outside_tests(config: ProjectConfigView, path: Seq<char>)
    requires
        config.mandates_build_file(path),
    ensures
        path[0] != 't',
{
    reveal_strlit("CMakeLists.txt");
    reveal_strlit("cmake/options.cmake");
    reveal_strlit("cmake/compilation-flags.cmake");
    reveal_strlit("src/CMakeLists.txt");
    reveal_strlit("examples/CMakeLists.txt");
    reveal_strlit("Makefile");
}

/// No source file lies inside `tests`.
proof fn lemma_source_files_outside_tests(config: ProjectConfigView, path: Seq<char>)
    requires
        config.mandates_source_file(path),
    ensures
        path[0] != 't',
{
    reveal_strlit("include/");
    reveal_strlit("src/lib.cpp");
    reveal_strlit("examples/example.cpp");
    reveal_strlit("src/main.cpp");
    if path == header_path(config.name) {
        assert(path[0] == "include/"@[0]);
    }
}

/// No file of a tool, a formatter, the package manager or version control
/// lies inside `tests`, nor do the introduction and the license.
proof fn lemma_other_files_outside_tests(config: ProjectConfigView, path: Seq<char>)
    requires
        config.mandates_settings_file(path) || config.mandates_service_file(path) || path
            == "README.md"@ || path == "LICENSE"@,
    ensures
        path[0] != 't',
{
    reveal_strlit(".clang-tidy");
    reveal_strlit("cppcheck-suppressions.xml");
    reveal_strlit(".clang-format");
    reveal_strlit("cmake-format.yaml");
    reveal_strlit("conanfile.txt");
    reveal_strlit("vcpkg.json");
    reveal_strlit(".gitignore");
    reveal_strlit("README.md");
    reveal_strlit("LICENSE");
}

/// Tests come with a test framework and not without one: the directory
/// `tests` is made, and files are planned inside it, exactly where a
/// framework was chosen.
pub proof fn lemma_tests_only_with_a_framework(config: ProjectConfigView)
    ensures
        config.directories().contains("tests"@) <==> config.has_tests(),
        config.has_tests() <==> exists|path: Seq<char>| #[trigger]
            paths_of(config.planned_outputs()).contains(path) && is_under(path, "tests"@),
{
    reveal_strlit("tests");
    let directories = config.directories();
    if config.has_tests() {
        assert(directories[4] == "tests"@);
        let path = "tests/main_test.cpp"@;
        reveal_strlit("tests/main_test.cpp");
        lemma_planned_files_are_the_mandated(config, path);
        assert(path.subrange(0, 5) =~= "tests"@);
        assert(paths_of(config.planned_outputs()).contains(path) && is_under(path, "tests"@));
    } else {
        reveal_strlit("src");
        reveal_strlit("cmake");
        reveal_strlit("include");
        reveal_strlit("examples");
        reveal_strlit("assets");
        assert(directories.len() == 4);
        assert(directories[1][0] != "tests"@[0]);
    }
    assert forall|path: Seq<char>| #[trigger]
        paths_of(config.planned_outputs()).contains(path) && is_under(
            path,
            "tests"@,
        ) implies config.has_tests() by {
        lemma_planned_files_are_the_mandated(config, path);
        assert(path[0] == path.subrange(0, 5)[0]);
        if config.mandates_build_file(path) {
            lemma_build_files_outside_tests(config, path);
        } else if config.mandates_source_file(path) {
            lemma_source_files_outside_tests(config, path);
        } else if !config.mandates_test_file(path) {
            lemma_other_files_outside_tests(config, path);
        }
    }
}

/// Whether every template that `outputs` name comes with the library.
pub open spec fn all_builtin(outputs: Seq<TemplateOutputView>) -> bool {
    forall|i: int| 0 <= i < outputs.len() ==> is_table_name((#[trigger] outputs[i]).template)
}

/// The names of the table, each at its place.
proof fn lemma_builtin_names()
    ensures
        is_table_name("main.cpp"@),
        is_table_name("CMakeLists.txt"@),
        is_table_name("options.cmake"@),
        is_table_name("compilation-flags.cmake"@),
        is_table_name("source.cmake"@),
        is_table_name("Makefile"@),
        is_table_name("header.hpp"@),
        is_table_name("library.cpp"@),
        is_table_name("example.cpp"@),
        is_table_name("example.cmake"@),
        is_table_name("gitignore"@),
        is_table_name("README.md"@),
        is_table_name("conanfile.txt"@),
        is_table_name("vcpkg.json"@),
        is_table_name("MIT"@),
        is_table_name("GPL-3.0"@),
        is_table_name("BSD-3-Clause"@),
        is_table_name("Apache-2.0"@),
        is_table_name("clang-format"@),
        is_table_name("cmake-format"@),
        is_table_name("clang-tidy"@),
        is_table_name("cppcheck-suppressions.xml"@),
        is_table_name("tests.cmake"@),
        is_table_name("boost_test_main.cpp"@),
        is_table_name("catch2_main.cpp"@),
        is_table_name("gtest_main.cpp"@),
        is_table_name("doctest_main.cpp"@),
        is_table_name("tests.mk"@),
{
    let table = builtin_table();
    assert(table.len() == 28);
    assert(table[0].0 == "main.cpp"@);
    assert(table[1].0 == "CMakeLists.txt"@);
    assert(table[2].0 == "options.cmake"@);
    assert(table[3].0 == "compilation-flags.cmake"@);
    assert(table[4].0 == "source.cmake"@);
    assert(table[5].0 == "Makefile"@);
    assert(table[6].0 == "header.hpp"@);
    assert(table[7].0 == "library.cpp"@);
    assert(table[8].0 == "example.cpp"@);
    assert(table[9].0 == "example.cmake"@);
    assert(table[10].0 == "gitignore"@);
    assert(table[11].0 == "README.md"@);
    assert(table[12].0 == "conanfile.txt"@);
    assert(table[13].0 == "vcpkg.json"@);
    assert(table[14].0 == "MIT"@);
    assert(table[15].0 == "GPL-3.0"@);
    assert(table[16].0 == "BSD-3-Clause"@);
    assert(table[17].0 == "Apache-2.0"@);
    assert(table[18].0 == "clang-format"@);
    assert(table[19].0 == "cmake-format"@);
    assert(table[20].0 == "clang-tidy"@);
    assert(table[21].0 == "cppcheck-suppressions.xml"@);
    assert(table[22].0 == "tests.cmake"@);
    assert(table[23].0 == "boost_test_main.cpp"@);
    assert(table[24].0 == "catch2_main.cpp"@);
    assert(table[25].0 == "gtest_main.cpp"@);
    assert(table[26].0 == "doctest_main.cpp"@);
    assert(table[27].0 == "tests.mk"@);
}

/// Two plans of templates that come with the library make one such plan.
proof fn lemma_all_builtin_add(first: Seq<TemplateOutputView>, second: Seq<TemplateOutputView>)
    requires
        all_builtin(first),
        all_builtin(second),
    ensures
        all_builtin(first + second),
{
    assert forall|i: int| 0 <= i < (first + second).len() implies is_table_name(
        (#[trigger] (first + second)[i]).template,
    ) by {
        if i < first.len() {
            assert((first + second)[i] == first[i]);
        } else {
            assert((first + second)[i] == second[i - first.len()]);
        }
    }
}

/// Every template that the files after the directories are rendered from
/// comes with the library.
proof fn lemma_template_outputs_are_builtin(config: ProjectConfigView)
    ensures
        all_builtin(config.template_outputs()),
{
    lemma_builtin_names();
    assert(all_builtin(config.build_files()));
    assert(all_builtin(config.source_files()));
    assert(all_builtin(config.test_files()));
    assert(all_builtin(seq![config.readme()]));
    assert(all_builtin(config.quality_files()));
    assert(all_builtin(config.formatter_files()));
    assert(all_builtin(seq![config.license_file()]));
    let upto_sources = config.build_files() + config.source_files();
    let upto_tests = upto_sources + config.test_files();
    let upto_readme = upto_tests + seq![config.readme()];
    let upto_quality = upto_readme + config.quality_files();
    let upto_formatters = upto_quality + config.formatter_files();
    lemma_all_builtin_add(config.build_files(), config.source_files());
    lemma_all_builtin_add(upto_sources, config.test_files());
    lemma_all_builtin_add(upto_tests, seq![config.readme()]);
    lemma_all_builtin_add(upto_readme, config.quality_files());
    lemma_all_builtin_add(upto_quality, config.formatter_files());
    lemma_all_builtin_add(upto_formatters, seq![config.license_file()]);
}

/// The plan asks for no template that the library does not bring: every
/// file of every project is rendered from a template of the table.
pub proof fn lemma_planned_templates_are_builtin(config: ProjectConfigView)
    ensures
        all_builtin(config.planned_outputs()),
{
    lemma_builtin_names();
    lemma_template_outputs_are_builtin(config);
    assert(all_builtin(config.package_files()));
    assert(all_builtin(config.git_files()));
    lemma_all_builtin_add(config.template_outputs(), config.package_files());
    lemma_all_builtin_add(config.template_outputs() + config.package_files(), config.git_files());
}

/// Whether `text` holds no separator of directories.
pub open spec fn is_one_component(text: Seq<char>) -> bool {
    forall|i: int| 0 <= i < text.len() ==> text[i] != '/'
}

/// The directory right inside the project that a path leads through is what
/// stands before the first separator of the path.
proof fn lemma_first_component(path: Seq<char>, at: int, dir: Seq<char>)
    requires
        0 <= at < path.len(),
        path[at] == '/',
        forall|i: int| 0 <= i < at ==> path[i] != '/',
        is_under(path, dir),
        is_one_component(dir),
    ensures
        dir == path.subrange(0, at),
{
    if dir.len() > at {
        assert(dir[at] == path.subrange(0, dir.len() as int)[at]);
    }
}

/// A path without a separator leads through no directory.
proof fn lemma_no_component(path: Seq<char>, dir: Seq<char>)
    requires
        is_one_component(path),
    ensures
        !is_under(path, dir),
{
}

/// The files of the build system lie in the project's directory or in a
/// directory that is made.
proof fn lemma_build_files_have_their_directory(
    config: ProjectConfigView,
    path: Seq<char>,
    dir: Seq<char>,
)
    requires
        config.mandates_build_file(path),
        is_under(path, dir),
        is_one_component(dir),
    ensures
        config.directories().contains(dir),
{
    let directories = config.directories();
    reveal_strlit("src");
    reveal_strlit("cmake");
    reveal_strlit("examples");
    if path == "CMakeLists.txt"@ {
        reveal_strlit("CMakeLists.txt");
        lemma_no_component(path, dir);
    } else if path == "Makefile"@ {
        reveal_strlit("Makefile");
        lemma_no_component(path, dir);
    } else if path == "cmake/options.cmake"@ {
        reveal_strlit("cmake/options.cmake");
        lemma_first_component(path, 5, dir);
        assert(dir =~= "cmake"@);
        assert(directories[1] == dir);
    } else if path == "cmake/compilation-flags.cmake"@ {
        reveal_strlit("cmake/compilation-flags.cmake");
        lemma_first_component(path, 5, dir);
        assert(dir =~= "cmake"@);
        assert(directories[1] == dir);
    } else if path == "src/CMakeLists.txt"@ {
        reveal_strlit("src/CMakeLists.txt");
        lemma_first_component(path, 3, dir);
        assert(dir =~= "src"@);
        assert(directories[0] == dir);
    } else {
        reveal_strlit("examples/CMakeLists.txt");
        lemma_first_component(path, 8, dir);
        assert(dir =~= "examples"@);
        assert(directories[3] == dir);
    }
}

/// The sources lie in directories that are made.
proof fn lemma_source_files_have_their_directory(
    config: ProjectConfigView,
    path: Seq<char>,
    dir: Seq<char>,
)
    requires
        config.mandates_source_file(path),
        is_under(path, dir),
        is_one_component(dir),
    ensures
        config.directories().contains(dir),
{
    let directories = config.directories();
    reveal_strlit("src");
    reveal_strlit("include");
    reveal_strlit("examples");
    if path == "src/main.cpp"@ {
        reveal_strlit("src/main.cpp");
        lemma_first_component(path, 3, dir);
        assert(dir =~= "src"@);
        assert(directories[0] == dir);
    } else if path == "src/lib.cpp"@ {
        reveal_strlit("src/lib.cpp");
        lemma_first_component(path, 3, dir);
        assert(dir =~= "src"@);
        assert(directories[0] == dir);
    } else if path == "examples/example.cpp"@ {
        reveal_strlit("examples/example.cpp");
        lemma_first_component(path, 8, dir);
        assert(dir =~= "examples"@);
        assert(directories[3] == dir);
    } else {
        reveal_strlit("include/");
        assert forall|i: int| 0 <= i <= 7 implies path[i] == "include/"@[i] by {}
        lemma_first_component(path, 7, dir);
        assert(dir =~= "include"@);
        assert(directories[2] == dir);
    }
}

/// The files of the tests lie in the directory of the tests, which is made
/// with them.
proof fn lemma_test_files_have_their_directory(
    config: ProjectConfigView,
    path: Seq<char>,
    dir: Seq<char>,
)
    requires
        config.mandates_test_file(path),
        is_under(path, dir),
        is_one_component(dir),
    ensures
        config.directories().contains(dir),
{
    let directories = config.directories();
    reveal_strlit("tests");
    if path == "tests/main_test.cpp"@ {
        reveal_strlit("tests/main_test.cpp");
        lemma_first_component(path, 5, dir);
    } else if path == "tests/CMakeLists.txt"@ {
        reveal_strlit("tests/CMakeLists.txt");
        lemma_first_component(path, 5, dir);
    } else {
        reveal_strlit("tests/Makefile");
        lemma_first_component(path, 5, dir);
    }
    assert(dir =~= "tests"@);
    assert(directories[4] == dir);
}

/// The other files lie in the project's directory itself.
proof fn lemma_other_files_have_no_directory(
    config: ProjectConfigView,
    path: Seq<char>,
    dir: Seq<char>,
)
    requires
        config.mandates_settings_file(path) || config.mandates_service_file(path) || path
            == "README.md"@ || path == "LICENSE"@,
    ensures
        !is_under(path, dir),
{
    reveal_strlit(".clang-tidy");
    reveal_strlit("cppcheck-suppressions.xml");
    reveal_strlit(".clang-format");
    reveal_strlit("cmake-format.yaml");
    reveal_strlit("conanfile.txt");
    reveal_strlit("vcpkg.json");
    reveal_strlit(".gitignore");
    reveal_strlit("README.md");
    reveal_strlit("LICENSE");
    lemma_no_component(path, dir);
}

/// Every file has its place: the directory right inside the project that a
/// planned file lies in, if it lies in one, is among the directories that
/// are made.
pub proof fn lemma_files_go_into_made_directories(
    config: ProjectConfigView,
    path: Seq<char>,
    dir: Seq<char>,
)
    requires
        paths_of(config.planned_outputs()).contains(path),
        is_under(path, dir),
        is_one_component(dir),
    ensures
        config.directories().contains(dir),
{
    lemma_planned_files_are_the_mandated(config, path);
    if config.mandates_build_file(path) {
        lemma_build_files_have_their_directory(config, path, dir);
    } else if config.mandates_source_file(path) {
        lemma_source_files_have_their_directory(config, path, dir);
    } else if config.mandates_test_file(path) {
        lemma_test_files_have_their_directory(config, path, dir);
    } else {
        lemma_other_files_have_no_directory(config, path, dir);
    }
}

/// The paths of a list of files.
pub open spec fn file_paths(files: Seq<GeneratedFileView>) -> Seq<Seq<char>> {
    files.map_values(|file: GeneratedFileView| file.path)
}

/// A project that was built has exactly the files that its choices call
/// for: among the files that follow the directories and those that follow
/// the repository, one lies at a path if and only if the choices mandate
/// one there.
pub proof fn lemma_built_project_has_the_mandated_files(builder: ProjectBuilder, path: Seq<char>)
    requires
        builder.build_spec() is Ok,
    ensures
        file_paths(builder.build_spec()->Ok_0.files + builder.build_spec()->Ok_0.git_files).contains(
            path,
        ) <==> builder.config@.mandates(path),
{
    let scaffold = builder.build_spec()->Ok_0;
    let files = scaffold.files + scaffold.git_files;
    let planned = builder.config@.planned_outputs();
    lemma_build_renders_the_plan(builder);
    lemma_rendered_files_follow_the_plan(
        builder.template_renderer.templates(),
        builder.template_renderer.list_helpers(),
        builder.template_data@.fields(),
        planned,
    );
    assert(file_paths(files) =~= paths_of(planned)) by {
        assert forall|i: int| 0 <= i < files.len() implies file_paths(files)[i] == paths_of(
            planned,
        )[i] by {
            assert(files[i].path == planned[i].path);
        }
    }
    lemma_planned_files_are_the_mandated(builder.config@, path);
}

/// Two lists without repetition that share nothing make one such list.
proof fn lemma_apart_add(first: Seq<Seq<char>>, second: Seq<Seq<char>>)
    requires
        first.no_duplicates(),
        second.no_duplicates(),
        forall|x: Seq<char>| first.contains(x) ==> !second.contains(x),
    ensures
        (first + second).no_duplicates(),
{
    assert forall|i: int, j: int|
        0 <= i < first.len() && 0 <= j < second.len() implies first[i] != second[j] by {
        assert(first.contains(first[i]));
        assert(second.contains(second[j]));
    }
    vstd::seq_lib::lemma_no_dup_in_concat(first, second);
}

/// What tells the fixed paths of a project apart: the first character and
/// the length.
pub open spec fn mark(path: Seq<char>) -> (char, nat) {
    (path[0], path.len())
}

/// The marks of the fixed paths. No two of them are the same, and none
/// begins like the path of a header.
proof fn lemma_marks(name: Seq<char>)
    ensures
        mark("CMakeLists.txt"@) == ('C', 14nat),
        mark("cmake/options.cmake"@) == ('c', 19nat),
        mark("cmake/compilation-flags.cmake"@) == ('c', 29nat),
        mark("src/CMakeLists.txt"@) == ('s', 18nat),
        mark("examples/CMakeLists.txt"@) == ('e', 23nat),
        mark("Makefile"@) == ('M', 8nat),
        mark("src/lib.cpp"@) == ('s', 11nat),
        mark("examples/example.cpp"@) == ('e', 20nat),
        mark("src/main.cpp"@) == ('s', 12nat),
        mark("tests/CMakeLists.txt"@) == ('t', 20nat),
        mark("tests/Makefile"@) == ('t', 14nat),
        mark("tests/main_test.cpp"@) == ('t', 19nat),
        mark(".clang-tidy"@) == ('.', 11nat),
        mark("cppcheck-suppressions.xml"@) == ('c', 25nat),
        mark(".clang-format"@) == ('.', 13nat),
        mark("cmake-format.yaml"@) == ('c', 17nat),
        mark("conanfile.txt"@) == ('c', 13nat),
        mark("vcpkg.json"@) == ('v', 10nat),
        mark(".gitignore"@) == ('.', 10nat),
        mark("README.md"@) == ('R', 9nat),
        mark("LICENSE"@) == ('L', 7nat),
        mark(header_path(name)).0 == 'i',
{
    reveal_strlit("CMakeLists.txt");
    reveal_strlit("cmake/options.cmake");
    reveal_strlit("cmake/compilation-flags.cmake");
    reveal_strlit("src/CMakeLists.txt");
    reveal_strlit("examples/CMakeLists.txt");
    reveal_strlit("Makefile");
    reveal_strlit("include/");
    reveal_strlit("src/lib.cpp");
    reveal_strlit("examples/example.cpp");
    reveal_strlit("src/main.cpp");
    reveal_strlit("tests/Makefile");
    reveal_strlit("tests/CMakeLists.txt");
    reveal_strlit("tests/main_test.cpp");
    reveal_strlit(".clang-tidy");
    reveal_strlit("cppcheck-suppressions.xml");
    reveal_strlit(".clang-format");
    reveal_strlit("cmake-format.yaml");
    reveal_strlit("conanfile.txt");
    reveal_strlit("vcpkg.json");
    reveal_strlit(".gitignore");
    reveal_strlit("README.md");
    reveal_strlit("LICENSE");
    assert(header_path(name)[0] == "include/"@[0]);
}

/// The files of the build system differ from one another, and so do the
/// sources, the files of the tests, and the settings.
proof fn lemma_groups_without_repetition(config: ProjectConfigView)
    ensures
        paths_of(config.build_files()).no_duplicates(),
        paths_of(config.source_files()).no_duplicates(),
        paths_of(config.test_files()).no_duplicates(),
        paths_of(config.quality_files()).no_duplicates(),
        paths_of(config.formatter_files()).no_duplicates(),
        paths_of(config.package_files()).no_duplicates(),
        paths_of(config.git_files()).no_duplicates(),
        paths_of(seq![config.readme()]).no_duplicates(),
        paths_of(seq![config.license_file()]).no_duplicates(),
{
    lemma_marks(config.name);
    let build = paths_of(config.build_files());
    assert forall|i: int, j: int| 0 <= i < build.len() && 0 <= j < build.len() && i
        != j implies mark(build[i]) != mark(build[j]) by {}
    let sources = paths_of(config.source_files());
    assert forall|i: int, j: int| 0 <= i < sources.len() && 0 <= j < sources.len() && i
        != j implies mark(sources[i]) != mark(sources[j]) by {}
    let tests = paths_of(config.test_files());
    assert forall|i: int, j: int| 0 <= i < tests.len() && 0 <= j < tests.len() && i
        != j implies mark(tests[i]) != mark(tests[j]) by {}
    let quality = paths_of(config.quality_files());
    assert forall|i: int, j: int| 0 <= i < quality.len() && 0 <= j < quality.len() && i
        != j implies mark(quality[i]) != mark(quality[j]) by {}
    let formatters = paths_of(config.formatter_files());
    assert forall|i: int, j: int| 0 <= i < formatters.len() && 0 <= j < formatters.len() && i
        != j implies mark(formatters[i]) != mark(formatters[j]) by {}
}

/// No path belongs to two kinds of files: what the build system calls for
/// is no source, no file of the tests, no settings and so on; and within
/// the settings and the services, each path is called for by one choice.
proof fn lemma_groups_share_nothing(config: ProjectConfigView, path: Seq<char>)
    ensures
        config.mandates_build_file(path) ==> !config.mandates_source_file(path)
            && !config.mandates_test_file(path) && !config.mandates_settings_file(path)
            && !config.mandates_service_file(path) && path != "README.md"@ && path != "LICENSE"@,
        config.mandates_source_file(path) ==> !config.mandates_test_file(path)
            && !config.mandates_settings_file(path) && !config.mandates_service_file(path) && path
            != "README.md"@ && path != "LICENSE"@,
        config.mandates_test_file(path) ==> !config.mandates_settings_file(path)
            && !config.mandates_service_file(path) && path != "README.md"@ && path != "LICENSE"@,
        config.mandates_settings_file(path) ==> !config.mandates_service_file(path) && path
            != "README.md"@ && path != "LICENSE"@,
        config.mandates_service_file(path) ==> path != "README.md"@ && path != "LICENSE"@,
        "README.md"@ != "LICENSE"@,
        path == ".clang-tidy"@ || path == "cppcheck-suppressions.xml"@ ==> path
            != ".clang-format"@ && path != "cmake-format.yaml"@,
        path == "conanfile.txt"@ || path == "vcpkg.json"@ ==> path != ".gitignore"@,
{
    lemma_marks(config.name);
    // Two paths with different marks differ; the mark of `path` decides.
    let decisive = mark(path);
}

/// No file is planned twice: the paths of a plan differ from one another.
pub proof fn lemma_no_file_is_planned_twice(config: ProjectConfigView)
    ensures
        paths_of(config.planned_outputs()).no_duplicates(),
{
    lemma_groups_without_repetition(config);
    let build = config.build_files();
    let upto_sources = build + config.source_files();
    let upto_tests = upto_sources + config.test_files();
    let upto_readme = upto_tests + seq![config.readme()];
    let upto_quality = upto_readme + config.quality_files();
    let upto_formatters = upto_quality + config.formatter_files();
    let upto_license = upto_formatters + seq![config.license_file()];
    let upto_packages = upto_license + config.package_files();
    let all = upto_packages + config.git_files();
    assert forall|x: Seq<char>| paths_of(build).contains(x) implies !paths_of(
        config.source_files(),
    ).contains(x) by {
        lemma_build_files(config, x);
        lemma_source_files(config, x);
        lemma_groups_share_nothing(config, x);
    }
    lemma_paths_add(build, config.source_files());
    lemma_apart_add(paths_of(build), paths_of(config.source_files()));

    assert forall|x: Seq<char>| paths_of(upto_sources).contains(x) implies !paths_of(
        config.test_files(),
    ).contains(x) by {
        lemma_planned_in_parts(build, config.source_files(), x);
        lemma_build_files(config, x);
        lemma_source_files(config, x);
        lemma_test_files(config, x);
        lemma_groups_share_nothing(config, x);
    }
    lemma_paths_add(upto_sources, config.test_files());
    lemma_apart_add(paths_of(upto_sources), paths_of(config.test_files()));

    assert forall|x: Seq<char>| paths_of(upto_tests).contains(x) implies !paths_of(
        seq![config.readme()],
    ).contains(x) by {
        lemma_planned_in_parts(upto_sources, config.test_files(), x);
        lemma_planned_in_parts(build, config.source_files(), x);
        lemma_build_files(config, x);
        lemma_source_files(config, x);
        lemma_test_files(config, x);
        lemma_single_file(config.readme(), x);
        lemma_groups_share_nothing(config, x);
    }
    lemma_paths_add(upto_tests, seq![config.readme()]);
    lemma_apart_add(paths_of(upto_tests), paths_of(seq![config.readme()]));

    assert forall|x: Seq<char>| paths_of(upto_readme).contains(x) implies !paths_of(
        config.quality_files(),
    ).contains(x) by {
        lemma_planned_in_parts(upto_tests, seq![config.readme()], x);
        lemma_planned_in_parts(upto_sources, config.test_files(), x);
        lemma_planned_in_parts(build, config.source_files(), x);
        lemma_build_files(config, x);
        lemma_source_files(config, x);
        lemma_test_files(config, x);
        lemma_single_file(config.readme(), x);
        lemma_quality_files(config, x);
        lemma_groups_share_nothing(config, x);
    }
    lemma_paths_add(upto_readme, config.quality_files());
    lemma_apart_add(paths_of(upto_readme), paths_of(config.quality_files()));

    assert forall|x: Seq<char>| paths_of(upto_quality).contains(x) implies !paths_of(
        config.formatter_files(),
    ).contains(x) by {
        lemma_planned_in_parts(upto_readme, config.quality_files(), x);
        lemma_planned_in_parts(upto_tests, seq![config.readme()], x);
        lemma_planned_in_parts(upto_sources, config.test_files(), x);
        lemma_planned_in_parts(build, config.source_files(), x);
        lemma_build_files(config, x);
        lemma_source_files(config, x);
        lemma_test_files(config, x);
        lemma_single_file(config.readme(), x);
        lemma_quality_files(config, x);
        lemma_formatter_files(config, x);
        lemma_groups_share_nothing(config, x);
    }
    lemma_paths_add(upto_quality, config.formatter_files());
    lemma_apart_add(paths_of(upto_quality), paths_of(config.formatter_files()));

    assert forall|x: Seq<char>| paths_of(upto_formatters).contains(x) implies !paths_of(
        seq![config.license_file()],
    ).contains(x) by {
        lemma_template_files_before_the_license(config, x);
        lemma_single_file(config.license_file(), x);
        lemma_groups_share_nothing(config, x);
    }
    lemma_paths_add(upto_formatters, seq![config.license_file()]);
    lemma_apart_add(paths_of(upto_formatters), paths_of(seq![config.license_file()]));

    assert forall|x: Seq<char>| paths_of(upto_license).contains(x) implies !paths_of(
        config.package_files(),
    ).contains(x) by {
        lemma_template_files(config, x);
        lemma_package_files(config, x);
        lemma_groups_share_nothing(config, x);
    }
    lemma_paths_add(upto_license, config.package_files());
    lemma_apart_add(paths_of(upto_license), paths_of(config.package_files()));

    assert forall|x: Seq<char>| paths_of(upto_packages).contains(x) implies !paths_of(
        config.git_files(),
    ).contains(x) by {
        lemma_planned_in_parts(upto_license, config.package_files(), x);
        lemma_template_files(config, x);
        lemma_package_files(config, x);
        lemma_git_files(config, x);
        lemma_groups_share_nothing(config, x);
    }
    lemma_paths_add(upto_packages, config.git_files());
    lemma_apart_add(paths_of(upto_packages), paths_of(config.git_files()));
}

/// What is planned before the license is what the build system, the kind of
/// project, the tests and the tools call for, and the introduction.
proof fn lemma_template_files_before_the_license(config: ProjectConfigView, path: Seq<char>)
    ensures
        paths_of(
            config.build_files() + config.source_files() + config.test_files() + seq![
                config.readme(),
            ] + config.quality_files() + config.formatter_files(),
        ).contains(path) <==> {
            ||| path == "README.md"@
            ||| config.mandates_build_file(path)
            ||| config.mandates_source_file(path)
            ||| config.mandates_test_file(path)
            ||| config.mandates_settings_file(path)
        },
{
    let upto_sources = config.build_files() + config.source_files();
    let upto_tests = upto_sources + config.test_files();
    let upto_readme = upto_tests + seq![config.readme()];
    let upto_quality = upto_readme + config.quality_files();
    lemma_planned_in_parts(upto_quality, config.formatter_files(), path);
    lemma_planned_in_parts(upto_readme, config.quality_files(), path);
    lemma_planned_in_parts(upto_tests, seq![config.readme()], path);
    lemma_planned_in_parts(upto_sources, config.test_files(), path);
    lemma_planned_in_parts(config.build_files(), config.source_files(), path);
    lemma_build_files(config, path);
    lemma_source_files(config, path);
    lemma_test_files(config, path);
    lemma_quality_files(config, path);
    lemma_formatter_files(config, path);
    lemma_single_file(config.readme(), path);
}

/// What tells the names of the table apart: the first two characters and
/// the length.
pub open spec fn name_mark(name: Seq<char>) -> (char, char, nat) {
    (name[0], name[1], name.len())
}

/// The marks of the names of the table, each at its place.
proof fn lemma_name_marks()
    ensures
        builtin_table().len() == 28,
        name_mark(builtin_table()[0].0) == ('m', 'a', 8nat),
        name_mark(builtin_table()[1].0) == ('C', 'M', 14nat),
        name_mark(builtin_table()[2].0) == ('o', 'p', 13nat),
        name_mark(builtin_table()[3].0) == ('c', 'o', 23nat),
        name_mark(builtin_table()[4].0) == ('s', 'o', 12nat),
        name_mark(builtin_table()[5].0) == ('M', 'a', 8nat),
        name_mark(builtin_table()[6].0) == ('h', 'e', 10nat),
        name_mark(builtin_table()[7].0) == ('l', 'i', 11nat),
        name_mark(builtin_table()[8].0) == ('e', 'x', 11nat),
        name_mark(builtin_table()[9].0) == ('e', 'x', 13nat),
        name_mark(builtin_table()[10].0) == ('g', 'i', 9nat),
        name_mark(builtin_table()[11].0) == ('R', 'E', 9nat),
        name_mark(builtin_table()[12].0) == ('c', 'o', 13nat),
        name_mark(builtin_table()[13].0) == ('v', 'c', 10nat),
        name_mark(builtin_table()[14].0) == ('M', 'I', 3nat),
        name_mark(builtin_table()[15].0) == ('G', 'P', 7nat),
        name_mark(builtin_table()[16].0) == ('B', 'S', 12nat),
        name_mark(builtin_table()[17].0) == ('A', 'p', 10nat),
        name_mark(builtin_table()[18].0) == ('c', 'l', 12nat),
        name_mark(builtin_table()[19].0) == ('c', 'm', 12nat),
        name_mark(builtin_table()[20].0) == ('c', 'l', 10nat),
        name_mark(builtin_table()[21].0) == ('c', 'p', 25nat),
        name_mark(builtin_table()[22].0) == ('t', 'e', 11nat),
        name_mark(builtin_table()[23].0) == ('b', 'o', 19nat),
        name_mark(builtin_table()[24].0) == ('c', 'a', 15nat),
        name_mark(builtin_table()[25].0) == ('g', 't', 14nat),
        name_mark(builtin_table()[26].0) == ('d', 'o', 16nat),
        name_mark(builtin_table()[27].0) == ('t', 'e', 8nat),
{
    reveal_strlit("main.cpp");
    reveal_strlit("CMakeLists.txt");
    reveal_strlit("options.cmake");
    reveal_strlit("compilation-flags.cmake");
    reveal_strlit("source.cmake");
    reveal_strlit("Makefile");
    reveal_strlit("header.hpp");
    reveal_strlit("library.cpp");
    reveal_strlit("example.cpp");
    reveal_strlit("example.cmake");
    reveal_strlit("gitignore");
    reveal_strlit("README.md");
    reveal_strlit("conanfile.txt");
    reveal_strlit("vcpkg.json");
    reveal_strlit("MIT");
    reveal_strlit("GPL-3.0");
    reveal_strlit("BSD-3-Clause");
    reveal_strlit("Apache-2.0");
    reveal_strlit("clang-format");
    reveal_strlit("cmake-format");
    reveal_strlit("clang-tidy");
    reveal_strlit("cppcheck-suppressions.xml");
    reveal_strlit("tests.cmake");
    reveal_strlit("boost_test_main.cpp");
    reveal_strlit("catch2_main.cpp");
    reveal_strlit("gtest_main.cpp");
    reveal_strlit("doctest_main.cpp");
    reveal_strlit("tests.mk");
}

/// No two templates of the table have the same name.
pub proof fn lemma_table_names_are_distinct()
    ensures
        forall|i: int, j: int|
            0 <= i < builtin_table().len() && 0 <= j < builtin_table().len() && i != j ==> (
            #[trigger] builtin_table()[i]).0 != (#[trigger] builtin_table()[j]).0,
{
    lemma_name_marks();
    assert forall|i: int, j: int|
        0 <= i < builtin_table().len() && 0 <= j < builtin_table().len() && i != j implies (
        #[trigger] builtin_table()[i]).0 != (#[trigger] builtin_table()[j]).0 by {
        assert(name_mark(builtin_table()[i].0) != name_mark(builtin_table()[j].0));
    }
}

/// A renderer that holds nothing but templates of the table holds each
/// under its name with the text that the table has for that name: the text
/// of the only entry, and so of the last entry, of that name.
pub proof fn lemma_held_text_is_the_tables(templates: Map<Seq<char>, Seq<char>>, i: int)
    requires
        hold_table_entries(templates),
        0 <= i < builtin_table().len(),
        templates.dom().contains(builtin_table()[i].0),
    ensures
        templates[builtin_table()[i].0] == builtin_table()[i].1,
{
    lemma_table_names_are_distinct();
    let name = builtin_table()[i].0;
    assert(is_table_entry(name, templates[name]));
    let j = choose|j: int|
        0 <= j < builtin_table().len() && #[trigger] builtin_table()[j] == (name, templates[name]);
    assert(builtin_table()[j].0 == name);
}

} // verus!
