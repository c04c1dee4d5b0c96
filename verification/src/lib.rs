//! A generator of C++ projects.
//!
//! From a handful of choices (what to build, with which build system, which
//! standard, tests, package manager, license and tools) the library works
//! out the directories and files of a new project and renders each file
//! from a template. It writes nothing itself: [`ProjectBuilder::build`]
//! hands out the finished project for the caller to put on disk.
//!
//! The rules are proved: which names are accepted, which files a
//! configuration leads to, what a failure says. The template engine, the
//! regular expressions and the search for tools are outside crates; what is
//! assumed of them stands beside each call. The year is the caller's to
//! give: the library reads no clock.

pub mod cli;
pub mod config;
pub mod error;
pub mod project;
pub mod templates;
pub mod text;

pub use error::Error;
pub use project::ProjectBuilder;
pub use project::ProjectConfig;
pub use project::ProjectValidator;
pub use templates::TemplateRenderer;
