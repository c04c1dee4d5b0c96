//! What can go wrong while a project is configured, checked and laid out.

use vstd::prelude::*;
use vstd::string::StringExecFns;

verus! {

/// The broad classes that failures fall into.
#[derive(Debug, Clone, Copy, PartialEq, Eq, Structural)]
pub enum ErrorKind {
    /// A name, a path or a required choice is missing or malformed.
    InvalidInput,
    /// A tool is not installed, or the compiler is older than the standard needs.
    PrerequisiteMissing,
    /// The directory of the new project is there already.
    AlreadyExists,
    /// A directory or a file could not be created or written.
    IoFailure,
    /// A template is unknown, malformed, or failed to render.
    TemplateFailure,
    /// A helper process could not be run.
    SubprocessFailure,
}

/// A failure, with what it was about.
#[derive(Debug, Clone)]
pub enum Error {
    /// The project name is empty.
    EmptyName,
    /// The project name has more than a hundred characters.
    NameTooLong,
    /// The project name begins with a numeral.
    NameStartsWithNumber,
    /// The project name holds a character other than letters, numerals, `-` and `_`.
    NameInvalidCharacters,
    /// No project name was given where nothing can ask for one.
    MissingName,
    /// No project type was given where nothing can ask for one.
    MissingProjectType,
    /// The C++ standard is none of the known ones.
    UnknownStandard(String),
    /// The package manager is none of the known ones.
    UnknownPackageManager(String),
    /// The license is none of the known ones.
    UnknownLicense(String),
    /// The test framework is none of the known ones.
    UnknownTestFramework(String),
    /// The directory to create the project in does not exist.
    DirectoryNotFound(String),
    /// The place to create the project in is not a directory.
    NotADirectory(String),
    /// The directory to create the project in cannot be written to.
    ReadOnlyDirectory(String),
    /// The directory to create the project in cannot be examined.
    InaccessibleDirectory(String),
    /// The project's own directory exists already.
    AlreadyExists(String),
    /// A required tool is not on the search path.
    ToolNotFound(String),
    /// The compiler is older than the chosen language standard needs.
    CompilerTooOld { found: String, standard: String, required: String },
    /// No template is registered under the name.
    TemplateNotFound(String),
    /// The text of a template includes another template.
    IncludesTemplates(String),
    /// The template engine refused the text of a template.
    InvalidTemplate { name: String, reason: String },
    /// The template engine failed while rendering a template.
    RenderFailed { name: String, reason: String },
    /// A directory could not be created.
    CreateDirectoryFailed(String),
    /// A file could not be written.
    WriteFileFailed(String),
    /// The version control system could not be started.
    GitInitFailed,
    /// The compiler could not be asked for its version.
    CompilerQueryFailed,
}

/// An [`Error`] with its texts as sequences of characters.
pub enum ErrorView {
    EmptyName,
    NameTooLong,
    NameStartsWithNumber,
    NameInvalidCharacters,
    MissingName,
    MissingProjectType,
    UnknownStandard(Seq<char>),
    UnknownPackageManager(Seq<char>),
    UnknownLicense(Seq<char>),
    UnknownTestFramework(Seq<char>),
    DirectoryNotFound(Seq<char>),
    NotADirectory(Seq<char>),
    ReadOnlyDirectory(Seq<char>),
    InaccessibleDirectory(Seq<char>),
    AlreadyExists(Seq<char>),
    ToolNotFound(Seq<char>),
    CompilerTooOld { found: Seq<char>, standard: Seq<char>, required: Seq<char> },
    TemplateNotFound(Seq<char>),
    IncludesTemplates(Seq<char>),
    InvalidTemplate { name: Seq<char>, reason: Seq<char> },
    RenderFailed { name: Seq<char>, reason: Seq<char> },
    CreateDirectoryFailed(Seq<char>),
    WriteFileFailed(Seq<char>),
    GitInitFailed,
    CompilerQueryFailed,
}

impl View for Error {
    type V = ErrorView;

    open spec fn view(&self) -> ErrorView {
        match self {
            Error::EmptyName => ErrorView::EmptyName,
            Error::NameTooLong => ErrorView::NameTooLong,
            Error::NameStartsWithNumber => ErrorView::NameStartsWithNumber,
            Error::NameInvalidCharacters => ErrorView::NameInvalidCharacters,
            Error::MissingName => ErrorView::MissingName,
            Error::MissingProjectType => ErrorView::MissingProjectType,
            Error::UnknownStandard(value) => ErrorView::UnknownStandard(value@),
            Error::UnknownPackageManager(value) => ErrorView::UnknownPackageManager(value@),
            Error::UnknownLicense(value) => ErrorView::UnknownLicense(value@),
            Error::UnknownTestFramework(value) => ErrorView::UnknownTestFramework(value@),
            Error::DirectoryNotFound(path) => ErrorView::DirectoryNotFound(path@),
            Error::NotADirectory(path) => ErrorView::NotADirectory(path@),
            Error::ReadOnlyDirectory(path) => ErrorView::ReadOnlyDirectory(path@),
            Error::InaccessibleDirectory(path) => ErrorView::InaccessibleDirectory(path@),
            Error::AlreadyExists(path) => ErrorView::AlreadyExists(path@),
            Error::ToolNotFound(tool) => ErrorView::ToolNotFound(tool@),
            Error::CompilerTooOld { found, standard, required } => ErrorView::CompilerTooOld {
                found: found@,
                standard: standard@,
                required: required@,
            },
            Error::TemplateNotFound(name) => ErrorView::TemplateNotFound(name@),
            Error::IncludesTemplates(name) => ErrorView::IncludesTemplates(name@),
            Error::InvalidTemplate { name, reason } => ErrorView::InvalidTemplate {
                name: name@,
                reason: reason@,
            },
            Error::RenderFailed { name, reason } => ErrorView::RenderFailed {
                name: name@,
                reason: reason@,
            },
            Error::CreateDirectoryFailed(path) => ErrorView::CreateDirectoryFailed(path@),
            Error::WriteFileFailed(path) => ErrorView::WriteFileFailed(path@),
            Error::GitInitFailed => ErrorView::GitInitFailed,
            Error::CompilerQueryFailed => ErrorView::CompilerQueryFailed,
        }
    }
}

impl ErrorView {
    /// The class the failure belongs to.
    pub open spec fn kind(self) -> ErrorKind {
        match self {
            ErrorView::EmptyName
            | ErrorView::NameTooLong
            | ErrorView::NameStartsWithNumber
            | ErrorView::NameInvalidCharacters
            | ErrorView::MissingName
            | ErrorView::MissingProjectType
            | ErrorView::UnknownStandard(_)
            | ErrorView::UnknownPackageManager(_)
            | ErrorView::UnknownLicense(_)
            | ErrorView::UnknownTestFramework(_)
            | ErrorView::DirectoryNotFound(_)
            | ErrorView::NotADirectory(_)
            | ErrorView::ReadOnlyDirectory(_)
            | ErrorView::InaccessibleDirectory(_) => ErrorKind::InvalidInput,
            ErrorView::AlreadyExists(_) => ErrorKind::AlreadyExists,
            ErrorView::ToolNotFound(_) | ErrorView::CompilerTooOld { .. } => {
                ErrorKind::PrerequisiteMissing
            },
            ErrorView::TemplateNotFound(_)
            | ErrorView::IncludesTemplates(_)
            | ErrorView::InvalidTemplate { .. }
            | ErrorView::RenderFailed { .. } => ErrorKind::TemplateFailure,
            ErrorView::CreateDirectoryFailed(_) | ErrorView::WriteFileFailed(_) => {
                ErrorKind::IoFailure
            },
            ErrorView::GitInitFailed | ErrorView::CompilerQueryFailed => {
                ErrorKind::SubprocessFailure
            },
        }
    }

    /// The one line that tells a person what went wrong.
    pub open spec fn message(self) -> Seq<char> {
        match self {
            ErrorView::EmptyName => "Project name cannot be empty"@,
            ErrorView::NameTooLong => "Project name is too long"@,
            ErrorView::NameStartsWithNumber => "Project name cannot start with a number"@,
            ErrorView::NameInvalidCharacters => {
                "Project name can only contain alphanumeric characters, '-' and '_'"@
            },
            ErrorView::MissingName => "Project name is required in non-interactive mode"@,
            ErrorView::MissingProjectType => "Project type is required in non-interactive mode"@,
            ErrorView::UnknownStandard(value) => "Unknown C++ standard: "@ + value,
            ErrorView::UnknownPackageManager(value) => "Unknown package manager: "@ + value,
            ErrorView::UnknownLicense(value) => "Unknown license: "@ + value,
            ErrorView::UnknownTestFramework(value) => "Unknown test framework: "@ + value,
            ErrorView::DirectoryNotFound(path) => "Directory doesn't exist: "@ + path,
            ErrorView::NotADirectory(path) => "Path is not a directory: "@ + path,
            ErrorView::ReadOnlyDirectory(path) => "Directory is read-only: "@ + path,
            ErrorView::InaccessibleDirectory(path) => "Cannot access directory: "@ + path,
            ErrorView::AlreadyExists(path) => "Project directory already exists: "@ + path,
            ErrorView::ToolNotFound(tool) => tool + " is not installed"@,
            ErrorView::CompilerTooOld { found, standard, required } => "G++ version "@ + found
                + " is too old for C++"@ + standard + ". Version >= "@ + required + " required."@,
            ErrorView::TemplateNotFound(name) => "Failed to render template "@ + name
                + ": template not found"@,
            ErrorView::IncludesTemplates(name) => "Failed to register template "@ + name
                + ": templates that include other templates are not supported"@,
            ErrorView::InvalidTemplate { name, reason } => "Failed to register template "@ + name
                + ": "@ + reason,
            ErrorView::RenderFailed { name, reason } => "Failed to render template "@ + name
                + ": "@ + reason,
            ErrorView::CreateDirectoryFailed(path) => "Failed to create directory "@ + path,
            ErrorView::WriteFileFailed(path) => "Failed to write file "@ + path,
            ErrorView::GitInitFailed => "Failed to initialize git repository"@,
            ErrorView::CompilerQueryFailed => "Failed to get g++ version"@,
        }
    }
}

/// `prefix` followed by `rest`.
fn prefixed(prefix: &str, rest: &String) -> (out: String)
    ensures
        out@ == prefix@ + rest@,
{
    String::from_str(prefix).concat(rest.as_str())
}

impl Error {
    /// The class the failure belongs to.
    pub fn kind(&self) -> (kind: ErrorKind)
        ensures
            kind == self@.kind(),
    {
        match self {
            Error::EmptyName
            | Error::NameTooLong
            | Error::NameStartsWithNumber
            | Error::NameInvalidCharacters
            | Error::MissingName
            | Error::MissingProjectType
            | Error::UnknownStandard(_)
            | Error::UnknownPackageManager(_)
            | Error::UnknownLicense(_)
            | Error::UnknownTestFramework(_)
            | Error::DirectoryNotFound(_)
            | Error::NotADirectory(_)
            | Error::ReadOnlyDirectory(_)
            | Error::InaccessibleDirectory(_) => ErrorKind::InvalidInput,
            Error::AlreadyExists(_) => ErrorKind::AlreadyExists,
            Error::ToolNotFound(_) | Error::CompilerTooOld { .. } => ErrorKind::PrerequisiteMissing,
            Error::TemplateNotFound(_)
            | Error::IncludesTemplates(_)
            | Error::InvalidTemplate { .. }
            | Error::RenderFailed { .. } => ErrorKind::TemplateFailure,
            Error::CreateDirectoryFailed(_) | Error::WriteFileFailed(_) => ErrorKind::IoFailure,
            Error::GitInitFailed | Error::CompilerQueryFailed => ErrorKind::SubprocessFailure,
        }
    }

    /// The one line that tells a person what went wrong.
    pub fn to_string(&self) -> (line: String)
        ensures
            line@ == self@.message(),
    {
        match self {
            Error::EmptyName => String::from_str("Project name cannot be empty"),
            Error::NameTooLong => String::from_str("Project name is too long"),
            Error::NameStartsWithNumber => String::from_str(
                "Project name cannot start with a number",
            ),
            Error::NameInvalidCharacters => String::from_str(
                "Project name can only contain alphanumeric characters, '-' and '_'",
            ),
            Error::MissingName => String::from_str(
                "Project name is required in non-interactive mode",
            ),
            Error::MissingProjectType => String::from_str(
                "Project type is required in non-interactive mode",
            ),
            Error::UnknownStandard(value) => prefixed("Unknown C++ standard: ", value),
            Error::UnknownPackageManager(value) => prefixed("Unknown package manager: ", value),
            Error::UnknownLicense(value) => prefixed("Unknown license: ", value),
            Error::UnknownTestFramework(value) => prefixed("Unknown test framework: ", value),
            Error::DirectoryNotFound(path) => prefixed("Directory doesn't exist: ", path),
            Error::NotADirectory(path) => prefixed("Path is not a directory: ", path),
            Error::ReadOnlyDirectory(path) => prefixed("Directory is read-only: ", path),
            Error::InaccessibleDirectory(path) => prefixed("Cannot access directory: ", path),
            Error::AlreadyExists(path) => prefixed("Project directory already exists: ", path),
            Error::ToolNotFound(tool) => tool.clone().concat(" is not installed"),
            Error::CompilerTooOld { found, standard, required } => {
                prefixed("G++ version ", found).concat(" is too old for C++").concat(
                    standard.as_str(),
                ).concat(". Version >= ").concat(required.as_str()).concat(" required.")
            },
            Error::TemplateNotFound(name) => prefixed("Failed to render template ", name).concat(
                ": template not found",
            ),
            Error::IncludesTemplates(name) => prefixed("Failed to register template ", name).concat(
                ": templates that include other templates are not supported",
            ),
            Error::InvalidTemplate { name, reason } => prefixed(
                "Failed to register template ",
                name,
            ).concat(": ").concat(reason.as_str()),
            Error::RenderFailed { name, reason } => prefixed(
                "Failed to render template ",
                name,
            ).concat(": ").concat(reason.as_str()),
            Error::CreateDirectoryFailed(path) => prefixed("Failed to create directory ", path),
            Error::WriteFileFailed(path) => prefixed("Failed to write file ", path),
            Error::GitInitFailed => String::from_str("Failed to initialize git repository"),
            Error::CompilerQueryFailed => String::from_str("Failed to get g++ version"),
        }
    }
}

} // verus!
