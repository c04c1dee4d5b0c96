//! The configuration of a project and the rules its parts must meet.

use crate::cli::Cli;
use crate::error::Error;
use crate::error::ErrorView;
use crate::project::BuildSystem;
use crate::project::CodeFormatter;
use crate::project::License;
use crate::project::PackageManager;
use crate::project::QualityConfig;
use crate::project::TestFramework;
use crate::text::chars_of;
use crate::text::is_alphanumeric_char;
use crate::text::is_ascii_char;
use crate::text::is_ascii_digit_char;
use crate::text::is_ascii_letter_char;
use crate::text::is_numeric_char;
use crate::text::slice_texts;
use crate::text::text_eq;
use crate::text::texts;
use vstd::prelude::*;
use vstd::string::StringExecFns;

verus! {

/// What the project builds.
#[derive(Debug, Clone, Copy, PartialEq, Eq, Structural)]
pub enum ProjectType {
    /// A program.
    Executable,
    /// A static or dynamic library.
    Library,
}

impl ProjectType {
    /// The name the project type goes by.
    pub open spec fn name(self) -> Seq<char> {
        match self {
            ProjectType::Executable => "executable"@,
            ProjectType::Library => "library"@,
        }
    }

    /// The project type that `value` names, if any.
    pub open spec fn parse_spec(value: Seq<char>) -> Option<ProjectType> {
        if value == "executable"@ {
            Some(ProjectType::Executable)
        } else if value == "library"@ {
            Some(ProjectType::Library)
        } else {
            None
        }
    }

    /// The name the project type goes by.
    pub fn to_string(&self) -> (name: String)
        ensures
            name@ == self.name(),
    {
        match self {
            ProjectType::Executable => String::from_str("executable"),
            ProjectType::Library => String::from_str("library"),
        }
    }

    /// Reads a project type from its name.
    pub fn parse(value: &str) -> (project_type: Option<ProjectType>)
        ensures
            project_type == Self::parse_spec(value@),
    {
        if text_eq(value, "executable") {
            Some(ProjectType::Executable)
        } else if text_eq(value, "library") {
            Some(ProjectType::Library)
        } else {
            None
        }
    }
}

/// The revision of the C++ standard the project is written in.
#[derive(Debug, Clone, Copy, PartialEq, Eq, Structural)]
pub enum CppStandard {
    /// C++11.
    Cpp11,
    /// C++14.
    Cpp14,
    /// C++17.
    Cpp17,
    /// C++20.
    Cpp20,
    /// C++23.
    Cpp23,
}

impl CppStandard {
    /// The two digits the standard goes by.
    pub open spec fn name(self) -> Seq<char> {
        match self {
            CppStandard::Cpp11 => "11"@,
            CppStandard::Cpp14 => "14"@,
            CppStandard::Cpp17 => "17"@,
            CppStandard::Cpp20 => "20"@,
            CppStandard::Cpp23 => "23"@,
        }
    }

    /// The standard that `value` names, if any.
    pub open spec fn parse_spec(value: Seq<char>) -> Option<CppStandard> {
        if value == "11"@ {
            Some(CppStandard::Cpp11)
        } else if value == "14"@ {
            Some(CppStandard::Cpp14)
        } else if value == "17"@ {
            Some(CppStandard::Cpp17)
        } else if value == "20"@ {
            Some(CppStandard::Cpp20)
        } else if value == "23"@ {
            Some(CppStandard::Cpp23)
        } else {
            None
        }
    }

    /// The two digits the standard goes by.
    pub fn to_string(&self) -> (name: String)
        ensures
            name@ == self.name(),
    {
        match self {
            CppStandard::Cpp11 => String::from_str("11"),
            CppStandard::Cpp14 => String::from_str("14"),
            CppStandard::Cpp17 => String::from_str("17"),
            CppStandard::Cpp20 => String::from_str("20"),
            CppStandard::Cpp23 => String::from_str("23"),
        }
    }

    /// Reads a standard from its two digits.
    pub fn parse(value: &str) -> (standard: Option<CppStandard>)
        ensures
            standard == Self::parse_spec(value@),
    {
        if text_eq(value, "11") {
            Some(CppStandard::Cpp11)
        } else if text_eq(value, "14") {
            Some(CppStandard::Cpp14)
        } else if text_eq(value, "17") {
            Some(CppStandard::Cpp17)
        } else if text_eq(value, "20") {
            Some(CppStandard::Cpp20)
        } else if text_eq(value, "23") {
            Some(CppStandard::Cpp23)
        } else {
            None
        }
    }
}

/// The version a new project starts at.
pub const DEFAULT_VERSION: &'static str = "0.1.0";

/// The description of a project that was given none.
pub const DEFAULT_DESCRIPTION: &'static str = "A C++ project generated with cppup";

/// The author of a project where nobody is named and the machine names no user.
pub const UNKNOWN_AUTHOR: &'static str = "Unknown";

/// The largest number of characters a project name may have.
pub const MAX_NAME_LENGTH: usize = 100;

/// Everything that was chosen for one project.
#[derive(Debug, Clone)]
pub struct ProjectConfig {
    /// Name of the project, and of its directory.
    pub name: String,
    /// What the project is, in a sentence.
    pub description: String,
    /// What the project builds.
    pub project_type: ProjectType,
    /// The build system.
    pub build_system: BuildSystem,
    /// The revision of the C++ standard.
    pub cpp_standard: CppStandard,
    /// The framework for tests.
    pub test_framework: TestFramework,
    /// The package manager.
    pub package_manager: PackageManager,
    /// The license.
    pub license: License,
    /// Whether a git repository is initialized.
    pub use_git: bool,
    /// The project's own directory.
    pub path: String,
    /// Who wrote the project.
    pub author: String,
    /// The version the project starts at.
    pub version: String,
    /// The static analysis tools.
    pub quality_config: QualityConfig,
    /// The formatters.
    pub code_formatter: CodeFormatter,
}

/// A [`ProjectConfig`] with its texts as sequences of characters.
pub struct ProjectConfigView {
    pub name: Seq<char>,
    pub description: Seq<char>,
    pub project_type: ProjectType,
    pub build_system: BuildSystem,
    pub cpp_standard: CppStandard,
    pub test_framework: TestFramework,
    pub package_manager: PackageManager,
    pub license: License,
    pub use_git: bool,
    pub path: Seq<char>,
    pub author: Seq<char>,
    pub version: Seq<char>,
    pub quality_config: QualityConfig,
    pub code_formatter: CodeFormatter,
}

impl View for ProjectConfig {
    type V = ProjectConfigView;

    open spec fn view(&self) -> ProjectConfigView {
        ProjectConfigView {
            name: self.name@,
            description: self.description@,
            project_type: self.project_type,
            build_system: self.build_system,
            cpp_standard: self.cpp_standard,
            test_framework: self.test_framework,
            package_manager: self.package_manager,
            license: self.license,
            use_git: self.use_git,
            path: self.path@,
            author: self.author@,
            version: self.version@,
            quality_config: self.quality_config,
            code_formatter: self.code_formatter,
        }
    }
}

/// Whether `c` may stand in a project name.
pub open spec fn is_name_char(c: char) -> bool {
    is_alphanumeric_char(c) || c == '-' || c == '_'
}

/// Whether every character of `name` may stand in a project name.
pub open spec fn all_name_chars(name: Seq<char>) -> bool {
    forall|i: int| 0 <= i < name.len() ==> is_name_char(#[trigger] name[i])
}

/// Whether `name` can be the name of a project: not empty, at most a hundred
/// characters, no numeral in front, and only letters, numerals, `-` and `_`.
pub open spec fn valid_name(name: Seq<char>) -> bool {
    &&& 0 < name.len() <= MAX_NAME_LENGTH
    &&& !is_numeric_char(name[0])
    &&& all_name_chars(name)
}

/// The rule that `name` breaks first, if it breaks one.
pub open spec fn name_verdict(name: Seq<char>) -> Result<(), ErrorView> {
    if name.len() == 0 {
        Err(ErrorView::EmptyName)
    } else if name.len() > MAX_NAME_LENGTH {
        Err(ErrorView::NameTooLong)
    } else if is_numeric_char(name[0]) {
        Err(ErrorView::NameStartsWithNumber)
    } else if !all_name_chars(name) {
        Err(ErrorView::NameInvalidCharacters)
    } else {
        Ok(())
    }
}

/// Checks that `name` can be the name of a project.
pub fn validate_project_name(name: &str) -> (verdict: Result<(), Error>)
    ensures
        verdict is Ok <==> valid_name(name@),
        match verdict {
            Ok(_) => name_verdict(name@) is Ok,
            Err(e) => name_verdict(name@) == Err::<(), ErrorView>(e@),
        },
{
    let chars = chars_of(name);
    if chars.len() == 0 {
        return Err(Error::EmptyName);
    }
    if chars.len() > MAX_NAME_LENGTH {
        return Err(Error::NameTooLong);
    }
    if chars[0].is_numeric() {
        return Err(Error::NameStartsWithNumber);
    }
    let mut i: usize = 0;
    while i < chars.len()
        invariant
            i <= chars.len(),
            chars@ == name@,
            0 < chars.len() <= MAX_NAME_LENGTH,
            !is_numeric_char(name@[0]),
            forall|j: int| 0 <= j < i ==> is_name_char(#[trigger] name@[j]),
        decreases chars.len() - i,
    {
        let c = chars[i];
        if !(c.is_alphanumeric() || c == '-' || c == '_') {
            assert(!is_name_char(name@[i as int]));
            return Err(Error::NameInvalidCharacters);
        }
        i += 1;
    }
    Ok(())
}

/// A name that keeps every rule is accepted.
pub proof fn lemma_valid_name_accepted(name: Seq<char>)
    requires
        valid_name(name),
    ensures
        name_verdict(name) is Ok,
{
}

/// A name that breaks a rule is refused, and the reason names a rule that it
/// breaks: the first one in the order empty, too long, numeral in front,
/// character not allowed.
pub proof fn lemma_invalid_name_refused(name: Seq<char>)
    requires
        !valid_name(name),
    ensures
        name_verdict(name) is Err,
        name_verdict(name) == Err::<(), ErrorView>(ErrorView::EmptyName) <==> name.len() == 0,
        name_verdict(name) == Err::<(), ErrorView>(ErrorView::NameTooLong) <==> name.len()
            > MAX_NAME_LENGTH,
        name_verdict(name) == Err::<(), ErrorView>(ErrorView::NameStartsWithNumber) <==> 0
            < name.len() <= MAX_NAME_LENGTH && is_numeric_char(name[0]),
        name_verdict(name) == Err::<(), ErrorView>(ErrorView::NameInvalidCharacters) <==> 0
            < name.len() <= MAX_NAME_LENGTH && !is_numeric_char(name[0]) && !all_name_chars(name),
{
}

/// The limit on the length is exact: a hundred characters that are otherwise
/// in order are accepted, and a hundred and one are too many whatever they are.
pub proof fn lemma_name_length_boundary(name: Seq<char>)
    ensures
        name.len() == 100 && !is_numeric_char(name[0]) && all_name_chars(name) ==> name_verdict(
            name,
        ) is Ok,
        name.len() == 101 ==> name_verdict(name) == Err::<(), ErrorView>(ErrorView::NameTooLong),
{
}

/// Whether `c` is a letter or a digit of ASCII, the hyphen or the underscore.
pub open spec fn is_ascii_name_char(c: char) -> bool {
    is_ascii_letter_char(c) || is_ascii_digit_char(c) || c == '-' || c == '_'
}

/// Whether `name` consists of characters of ASCII.
pub open spec fn is_ascii_text(name: Seq<char>) -> bool {
    forall|i: int| 0 <= i < name.len() ==> is_ascii_char(#[trigger] name[i])
}

/// Of names written in ASCII, exactly these are accepted: one to a hundred
/// characters, no digit in front, and nothing but letters, digits, hyphens
/// and underscores.
pub proof fn lemma_ascii_names(name: Seq<char>)
    requires
        is_ascii_text(name),
    ensures
        name_verdict(name) is Ok <==> {
            &&& 1 <= name.len() <= 100
            &&& !is_ascii_digit_char(name[0])
            &&& forall|i: int| 0 <= i < name.len() ==> is_ascii_name_char(#[trigger] name[i])
        },
{
    if name.len() > 0 {
        assert(is_ascii_char(name[0]));
    }
    if all_name_chars(name) {
        assert forall|i: int| 0 <= i < name.len() implies is_ascii_name_char(
            #[trigger] name[i],
        ) by {
            assert(is_name_char(name[i]));
            assert(is_ascii_char(name[i]));
        }
    }
    if forall|i: int| 0 <= i < name.len() ==> is_ascii_name_char(#[trigger] name[i]) {
        assert forall|i: int| 0 <= i < name.len() implies is_name_char(#[trigger] name[i]) by {
            assert(is_ascii_name_char(name[i]));
            assert(is_ascii_char(name[i]));
        }
    }
}

/// A name of one to a hundred characters with a digit in front is refused
/// for the digit in front, whatever the other characters are: the rule of
/// the first character is tried before the rule of the characters.
pub proof fn lemma_leading_digit_is_named(name: Seq<char>)
    requires
        1 <= name.len() <= 100,
        is_ascii_digit_char(name[0]),
    ensures
        name_verdict(name) == Err::<(), ErrorView>(ErrorView::NameStartsWithNumber),
        ErrorView::NameStartsWithNumber.message() == "Project name cannot start with a number"@,
{
}

/// What was found at the place where the project is to be created.
#[derive(Debug, Clone, Copy, PartialEq, Eq, Structural)]
pub struct PathStatus {
    /// Whether anything is there.
    pub exists: bool,
    /// Whether a directory is there.
    pub is_dir: bool,
    /// Whether it may only be read; nothing where that could not be found out.
    pub readonly: Option<bool>,
}

/// Whether a project can be created in the directory `path`, of which `status` was found.
pub open spec fn path_verdict(path: Seq<char>, status: PathStatus) -> Result<(), ErrorView> {
    if !status.exists {
        Err(ErrorView::DirectoryNotFound(path))
    } else if !status.is_dir {
        Err(ErrorView::NotADirectory(path))
    } else if status.readonly is None {
        Err(ErrorView::InaccessibleDirectory(path))
    } else if status.readonly == Some(true) {
        Err(ErrorView::ReadOnlyDirectory(path))
    } else {
        Ok(())
    }
}

/// Checks that a project can be created in the directory `path`, of which
/// `status` was found: it is there, it is a directory, and it can be written to.
pub fn validate_project_path(path: &str, status: &PathStatus) -> (verdict: Result<(), Error>)
    ensures
        verdict is Ok <==> status.exists && status.is_dir && status.readonly == Some(false),
        match verdict {
            Ok(_) => path_verdict(path@, *status) is Ok,
            Err(e) => path_verdict(path@, *status) == Err::<(), ErrorView>(e@),
        },
{
    if !status.exists {
        return Err(Error::DirectoryNotFound(String::from_str(path)));
    }
    if !status.is_dir {
        return Err(Error::NotADirectory(String::from_str(path)));
    }
    match status.readonly {
        Some(readonly) => {
            if readonly {
                return Err(Error::ReadOnlyDirectory(String::from_str(path)));
            }
        },
        None => {
            return Err(Error::InaccessibleDirectory(String::from_str(path)));
        },
    }
    Ok(())
}

/// What the machine says of the run: who the user is, and what is on disk
/// where the project is to go.
#[derive(Debug, Clone)]
pub struct Environment {
    /// The user's name as Unix systems give it.
    pub user: Option<String>,
    /// The user's name as Windows gives it.
    pub username: Option<String>,
    /// What was found at the directory to create the project in.
    pub base: PathStatus,
    /// Whether the project's own directory is there already.
    pub target_exists: bool,
}

impl Environment {
    /// The author of a project where nobody is named.
    pub open spec fn default_author(self) -> Seq<char> {
        if self.user is Some {
            self.user->0@
        } else if self.username is Some {
            self.username->0@
        } else {
            UNKNOWN_AUTHOR@
        }
    }
}

/// The author of a project where nobody is named: the user's name, in the
/// Unix way or else the Windows way, or `Unknown`.
pub fn default_author(env: &Environment) -> (author: String)
    ensures
        author@ == env.default_author(),
{
    match &env.user {
        Some(user) => user.clone(),
        None => match &env.username {
            Some(username) => username.clone(),
            None => String::from_str(UNKNOWN_AUTHOR),
        },
    }
}

/// The project's own directory: `name` inside `base`.
pub open spec fn target_path(base: Seq<char>, name: Seq<char>) -> Seq<char> {
    base + seq!['/'] + name
}

/// The directory of a project `name` inside `base`, where it is free; the
/// failure that names it, where something is there already.
pub open spec fn target_verdict(base: Seq<char>, name: Seq<char>, exists: bool) -> Result<
    Seq<char>,
    ErrorView,
> {
    if exists {
        Err(ErrorView::AlreadyExists(target_path(base, name)))
    } else {
        Ok(target_path(base, name))
    }
}

/// Names the directory of a project `name` inside `base`, and refuses it
/// where `target_exists` says that something is there already: a project is
/// never laid over what exists.
pub fn project_directory(base: &str, name: &str, target_exists: bool) -> (directory: Result<
    String,
    Error,
>)
    ensures
        match directory {
            Ok(path) => target_verdict(base@, name@, target_exists) == Ok::<Seq<char>, ErrorView>(
                path@,
            ),
            Err(e) => target_verdict(base@, name@, target_exists) == Err::<Seq<char>, ErrorView>(
                e@,
            ),
        },
{
    let path = String::from_str(base).concat("/").concat(name);
    proof {
        reveal_strlit("/");
        assert("/"@ =~= seq!['/']);
    }
    if target_exists {
        Err(Error::AlreadyExists(path))
    } else {
        Ok(path)
    }
}

/// The text of `value`, or `fallback` where there is none.
pub open spec fn text_or(value: Option<String>, fallback: Seq<char>) -> Seq<char> {
    match value {
        Some(text) => text@,
        None => fallback,
    }
}

/// The project type that the options name, if they name one.
pub open spec fn chosen_project_type(value: Option<String>) -> Option<ProjectType> {
    match value {
        Some(text) => ProjectType::parse_spec(text@),
        None => None,
    }
}

/// The tools that `names` switches on.
pub open spec fn chosen_quality_tools(names: Seq<Seq<char>>) -> QualityConfig {
    QualityConfig {
        enable_clang_tidy: names.contains("clang-tidy"@),
        enable_cppcheck: names.contains("cppcheck"@),
        enable_include_what_you_use: names.contains("include-what-you-use"@),
    }
}

/// The formatters that `names` switches on.
pub open spec fn chosen_formatters(names: Seq<Seq<char>>) -> CodeFormatter {
    CodeFormatter {
        enable_clang_format: names.contains("clang-format"@),
        enable_cmake_format: names.contains("cmake-format"@),
    }
}

/// What the options ask for once every check has passed.
pub open spec fn config_of_cli(cli: Cli, env: Environment) -> ProjectConfigView
    recommends
        cli.name is Some,
        chosen_project_type(cli.project_type) is Some,
        CppStandard::parse_spec(cli.cpp_standard@) is Some,
        PackageManager::parse_spec(cli.package_manager@) is Some,
        License::parse_spec(cli.license@) is Some,
        TestFramework::parse_spec(cli.test_framework@) is Some,
{
    ProjectConfigView {
        name: cli.name->0@,
        description: text_or(cli.description, DEFAULT_DESCRIPTION@),
        project_type: chosen_project_type(cli.project_type)->0,
        build_system: BuildSystem::parse_spec(cli.build_system@),
        cpp_standard: CppStandard::parse_spec(cli.cpp_standard@)->0,
        test_framework: TestFramework::parse_spec(cli.test_framework@)->0,
        package_manager: PackageManager::parse_spec(cli.package_manager@)->0,
        license: License::parse_spec(cli.license@)->0,
        use_git: cli.git,
        path: target_path(cli.path@, cli.name->0@),
        author: text_or(cli.author, env.default_author()),
        version: DEFAULT_VERSION@,
        quality_config: chosen_quality_tools(texts(cli.quality_tools@)),
        code_formatter: chosen_formatters(texts(cli.code_formatter@)),
    }
}

/// The configuration that the options ask for, or the first thing that is
/// wrong with them: no name, a name that breaks a rule, a directory that
/// cannot take the project, no project type, an unknown standard, a project
/// that is there already, an unknown package manager, an unknown license,
/// an unknown test framework. Only the build system has a fallback: a word
/// that names none selects CMake.
pub open spec fn cli_verdict(cli: Cli, env: Environment) -> Result<ProjectConfigView, ErrorView> {
    if cli.name is None {
        Err(ErrorView::MissingName)
    } else if name_verdict(cli.name->0@) is Err {
        Err(name_verdict(cli.name->0@)->Err_0)
    } else if path_verdict(cli.path@, env.base) is Err {
        Err(path_verdict(cli.path@, env.base)->Err_0)
    } else if chosen_project_type(cli.project_type) is None {
        Err(ErrorView::MissingProjectType)
    } else if CppStandard::parse_spec(cli.cpp_standard@) is None {
        Err(ErrorView::UnknownStandard(cli.cpp_standard@))
    } else if target_verdict(cli.path@, cli.name->0@, env.target_exists) is Err {
        Err(target_verdict(cli.path@, cli.name->0@, env.target_exists)->Err_0)
    } else if PackageManager::parse_spec(cli.package_manager@) is None {
        Err(ErrorView::UnknownPackageManager(cli.package_manager@))
    } else if License::parse_spec(cli.license@) is None {
        Err(ErrorView::UnknownLicense(cli.license@))
    } else if TestFramework::parse_spec(cli.test_framework@) is None {
        Err(ErrorView::UnknownTestFramework(cli.test_framework@))
    } else {
        Ok(config_of_cli(cli, env))
    }
}

/// The strings of `names` as slices.
fn as_slices(names: &Vec<String>) -> (slices: Vec<&str>)
    ensures
        slice_texts(slices@) == texts(names@),
{
    let mut slices: Vec<&str> = Vec::new();
    let mut i: usize = 0;
    while i < names.len()
        invariant
            i <= names.len(),
            slices@.len() == i,
            forall|j: int| 0 <= j < i ==> (#[trigger] slices@[j])@ == names@[j]@,
        decreases names.len() - i,
    {
        slices.push(names[i].as_str());
        i += 1;
    }
    assert(slice_texts(slices@) =~= texts(names@));
    slices
}

/// Reads the configuration of a project from the options of a run, without
/// asking anything. `env` says what the machine told of the user and of the
/// directory that the options name.
pub fn create_config_from_cli(cli: &Cli, env: &Environment) -> (made: Result<ProjectConfig, Error>)
    ensures
        match made {
            Ok(config) => cli_verdict(*cli, *env) == Ok::<ProjectConfigView, ErrorView>(config@),
            Err(e) => cli_verdict(*cli, *env) == Err::<ProjectConfigView, ErrorView>(e@),
        },
{
    let name = match &cli.name {
        Some(name) => name.clone(),
        None => {
            return Err(Error::MissingName);
        },
    };
    match validate_project_name(name.as_str()) {
        Ok(_) => {},
        Err(e) => {
            return Err(e);
        },
    }
    match validate_project_path(cli.path.as_str(), &env.base) {
        Ok(_) => {},
        Err(e) => {
            return Err(e);
        },
    }
    let description = match &cli.description {
        Some(description) => description.clone(),
        None => String::from_str(DEFAULT_DESCRIPTION),
    };
    let author = match &cli.author {
        Some(author) => author.clone(),
        None => default_author(env),
    };
    let chosen_type = match &cli.project_type {
        Some(value) => ProjectType::parse(value.as_str()),
        None => None,
    };
    let project_type = match chosen_type {
        Some(project_type) => project_type,
        None => {
            return Err(Error::MissingProjectType);
        },
    };
    let build_system = BuildSystem::parse(cli.build_system.as_str());
    let cpp_standard = match CppStandard::parse(cli.cpp_standard.as_str()) {
        Some(standard) => standard,
        None => {
            return Err(Error::UnknownStandard(cli.cpp_standard.clone()));
        },
    };
    let path = match project_directory(cli.path.as_str(), name.as_str(), env.target_exists) {
        Ok(path) => path,
        Err(e) => {
            return Err(e);
        },
    };
    let package_manager = match PackageManager::parse(cli.package_manager.as_str()) {
        Some(manager) => manager,
        None => {
            return Err(Error::UnknownPackageManager(cli.package_manager.clone()));
        },
    };
    let license = match License::parse(cli.license.as_str()) {
        Some(license) => license,
        None => {
            return Err(Error::UnknownLicense(cli.license.clone()));
        },
    };
    let quality_tools = as_slices(&cli.quality_tools);
    let quality_config = QualityConfig::new(quality_tools.as_slice());
    let formatters = as_slices(&cli.code_formatter);
    let code_formatter = CodeFormatter::new(formatters.as_slice());
    let test_framework = match TestFramework::parse(cli.test_framework.as_str()) {
        Some(framework) => framework,
        None => {
            return Err(Error::UnknownTestFramework(cli.test_framework.clone()));
        },
    };
    Ok(
        ProjectConfig {
            name,
            project_type,
            build_system,
            cpp_standard,
            use_git: cli.git,
            path,
            test_framework,
            package_manager,
            license,
            description,
            author,
            version: String::from_str(DEFAULT_VERSION),
            quality_config,
            code_formatter,
        },
    )
}

/// The name that is offered for a project where the options give none.
pub const DEFAULT_NAME: &'static str = "my-cpp-project";

/// The directory that is offered for a project where the options give none.
pub const DEFAULT_PATH: &'static str = ".";

/// What is offered for the free texts of a project when a user is asked.
#[derive(Debug, Clone)]
pub struct PromptDefaults {
    /// The name that is offered.
    pub name: String,
    /// The description that is offered.
    pub description: String,
    /// The author that is offered.
    pub author: String,
    /// The directory that is offered.
    pub path: String,
}

/// A [`PromptDefaults`] with its texts as sequences of characters.
pub struct PromptDefaultsView {
    pub name: Seq<char>,
    pub description: Seq<char>,
    pub author: Seq<char>,
    pub path: Seq<char>,
}

impl View for PromptDefaults {
    type V = PromptDefaultsView;

    open spec fn view(&self) -> PromptDefaultsView {
        PromptDefaultsView {
            name: self.name@,
            description: self.description@,
            author: self.author@,
            path: self.path@,
        }
    }
}

/// What is offered when a user is asked: what the options give, and for
/// what they do not give the standing defaults and the machine's user.
pub open spec fn prompt_defaults_spec(defaults: Option<Cli>, env: Environment) -> PromptDefaultsView {
    match defaults {
        Some(cli) => PromptDefaultsView {
            name: text_or(cli.name, DEFAULT_NAME@),
            description: text_or(cli.description, DEFAULT_DESCRIPTION@),
            author: text_or(cli.author, env.default_author()),
            path: cli.path@,
        },
        None => PromptDefaultsView {
            name: DEFAULT_NAME@,
            description: DEFAULT_DESCRIPTION@,
            author: env.default_author(),
            path: DEFAULT_PATH@,
        },
    }
}

/// The text of `value`, or `fallback` where there is none.
fn text_or_else(value: &Option<String>, fallback: &str) -> (text: String)
    ensures
        text@ == text_or(*value, fallback@),
{
    match value {
        Some(text) => text.clone(),
        None => String::from_str(fallback),
    }
}

/// Works out what to offer when a user is asked for the free texts of a project.
pub fn prompt_defaults(defaults: Option<&Cli>, env: &Environment) -> (offered: PromptDefaults)
    ensures
        offered@ == prompt_defaults_spec(
            match defaults {
                Some(cli) => Some(*cli),
                None => None,
            },
            *env,
        ),
{
    let author = default_author(env);
    match defaults {
        Some(cli) => PromptDefaults {
            name: text_or_else(&cli.name, DEFAULT_NAME),
            description: text_or_else(&cli.description, DEFAULT_DESCRIPTION),
            author: text_or_else(&cli.author, author.as_str()),
            path: cli.path.clone(),
        },
        None => PromptDefaults {
            name: String::from_str(DEFAULT_NAME),
            description: String::from_str(DEFAULT_DESCRIPTION),
            author,
            path: String::from_str(DEFAULT_PATH),
        },
    }
}

/// What a user answered when asked for every choice of a project.
#[derive(Debug, Clone)]
pub struct Answers {
    /// Name of the project.
    pub name: String,
    /// What the project is, in a sentence.
    pub description: String,
    /// Who wrote the project.
    pub author: String,
    /// Directory in which the project's own directory is created.
    pub path: String,
    /// What the project builds.
    pub project_type: ProjectType,
    /// The build system.
    pub build_system: BuildSystem,
    /// The revision of the C++ standard.
    pub cpp_standard: CppStandard,
    /// The package manager.
    pub package_manager: PackageManager,
    /// The framework for tests.
    pub test_framework: TestFramework,
    /// Whether a git repository is initialized.
    pub use_git: bool,
    /// The license.
    pub license: License,
    /// The static analysis tools.
    pub quality_config: QualityConfig,
    /// The formatters.
    pub code_formatter: CodeFormatter,
}

/// What the answers ask for once every check has passed.
pub open spec fn config_of_answers(answers: Answers) -> ProjectConfigView {
    ProjectConfigView {
        name: answers.name@,
        description: answers.description@,
        project_type: answers.project_type,
        build_system: answers.build_system,
        cpp_standard: answers.cpp_standard,
        test_framework: answers.test_framework,
        package_manager: answers.package_manager,
        license: answers.license,
        use_git: answers.use_git,
        path: target_path(answers.path@, answers.name@),
        author: answers.author@,
        version: DEFAULT_VERSION@,
        quality_config: answers.quality_config,
        code_formatter: answers.code_formatter,
    }
}

/// The configuration that the answers ask for, or the first thing that is
/// wrong with them: a name that breaks a rule, a directory that cannot take
/// the project, a project that is there already.
pub open spec fn answers_verdict(answers: Answers, env: Environment) -> Result<
    ProjectConfigView,
    ErrorView,
> {
    if name_verdict(answers.name@) is Err {
        Err(name_verdict(answers.name@)->Err_0)
    } else if path_verdict(answers.path@, env.base) is Err {
        Err(path_verdict(answers.path@, env.base)->Err_0)
    } else if target_verdict(answers.path@, answers.name@, env.target_exists) is Err {
        Err(target_verdict(answers.path@, answers.name@, env.target_exists)->Err_0)
    } else {
        Ok(config_of_answers(answers))
    }
}

impl ProjectConfig {
    /// Makes the configuration of a project from the answers of a user.
    /// `env` says what the machine told of the directory that was answered.
    pub fn new(answers: &Answers, env: &Environment) -> (made: Result<ProjectConfig, Error>)
        ensures
            match made {
                Ok(config) => answers_verdict(*answers, *env) == Ok::<ProjectConfigView, ErrorView>(
                    config@,
                ),
                Err(e) => answers_verdict(*answers, *env) == Err::<ProjectConfigView, ErrorView>(
                    e@,
                ),
            },
    {
        match validate_project_name(answers.name.as_str()) {
            Ok(_) => {},
            Err(e) => {
                return Err(e);
            },
        }
        match validate_project_path(answers.path.as_str(), &env.base) {
            Ok(_) => {},
            Err(e) => {
                return Err(e);
            },
        }
        let path = match project_directory(
            answers.path.as_str(),
            answers.name.as_str(),
            env.target_exists,
        ) {
            Ok(path) => path,
            Err(e) => {
                return Err(e);
            },
        };
        Ok(
            ProjectConfig {
                name: answers.name.clone(),
                description: answers.description.clone(),
                project_type: answers.project_type,
                build_system: answers.build_system,
                cpp_standard: answers.cpp_standard,
                test_framework: answers.test_framework,
                package_manager: answers.package_manager,
                license: answers.license,
                use_git: answers.use_git,
                path,
                author: answers.author.clone(),
                version: String::from_str(DEFAULT_VERSION),
                quality_config: answers.quality_config,
                code_formatter: answers.code_formatter,
            },
        )
    }
}

} // verus!
