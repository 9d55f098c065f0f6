//! The failures that the registry and a project report, and their wording.

use crate::project::ProjectName;
use crate::script::ScriptName;
use crate::style::{bold, bold_text, red, red_text};
use vstd::prelude::*;

verus! {

/// A failure reported by a project or by the registry.
#[derive(Debug, PartialEq, Eq)]
pub enum Error {
    /// The project has no script of this name.
    ScriptNotFound(ScriptName),
    /// The project has a script of this name already.
    ScriptExists(ScriptName),
    /// A hook names this script, which the project does not have.
    InvalidHook(ScriptName),
    /// A project file's hook names this script, which the file does not hold.
    HookRejected(ScriptName),
    /// This text is not a project file.
    ProjectUnreadable(String),
    /// This text is not a registry file.
    DatabaseUnreadable(String),
    /// The document does not describe a project.
    ProjectMalformed,
    /// The document does not describe a registry.
    DatabaseMalformed,
    /// The registry has no project of this name to remove.
    ProjectUnknown(ProjectName),
    /// The registry has no project of this name to go to.
    ProjectNotFound(ProjectName),
    /// The name is registered already, at this path.
    NameTaken(ProjectName, String),
    /// The path is registered already, under this name.
    PathTaken(String, ProjectName),
    /// The registered path is missing or is not a directory.
    NotADirectory(String),
    /// The value could not be written as a file's text.
    Unwritable,
}

/// What an [`Error`] stands for, with every string as its characters.
pub enum ErrorView {
    ScriptNotFound(Seq<char>),
    ScriptExists(Seq<char>),
    InvalidHook(Seq<char>),
    HookRejected(Seq<char>),
    ProjectUnreadable(Seq<char>),
    DatabaseUnreadable(Seq<char>),
    ProjectMalformed,
    DatabaseMalformed,
    ProjectUnknown(Seq<char>),
    ProjectNotFound(Seq<char>),
    NameTaken(Seq<char>, Seq<char>),
    PathTaken(Seq<char>, Seq<char>),
    NotADirectory(Seq<char>),
    Unwritable,
}

impl View for Error {
    type V = ErrorView;

    open spec fn view(&self) -> ErrorView {
        match self {
            Error::ScriptNotFound(n) => ErrorView::ScriptNotFound(n@),
            Error::ScriptExists(n) => ErrorView::ScriptExists(n@),
            Error::InvalidHook(n) => ErrorView::InvalidHook(n@),
            Error::HookRejected(n) => ErrorView::HookRejected(n@),
            Error::ProjectUnreadable(s) => ErrorView::ProjectUnreadable(s@),
            Error::DatabaseUnreadable(s) => ErrorView::DatabaseUnreadable(s@),
            Error::ProjectMalformed => ErrorView::ProjectMalformed,
            Error::DatabaseMalformed => ErrorView::DatabaseMalformed,
            Error::ProjectUnknown(n) => ErrorView::ProjectUnknown(n@),
            Error::ProjectNotFound(n) => ErrorView::ProjectNotFound(n@),
            Error::NameTaken(n, p) => ErrorView::NameTaken(n@, p@),
            Error::PathTaken(p, n) => ErrorView::PathTaken(p@, n@),
            Error::NotADirectory(p) => ErrorView::NotADirectory(p@),
            Error::Unwritable => ErrorView::Unwritable,
        }
    }
}

/// The sentence that says a project of the name `name` is not registered.
pub open spec fn project_not_found_text(name: Seq<char>) -> Seq<char> {
    "Project "@ + bold_text(name) + " was "@ + bold_text(red_text("not found"@))
        + " on database! Are you sure you registered it?"@
}

/// The sentence that says the hook entry `name` matches no script.
pub open spec fn invalid_hook_text(name: Seq<char>) -> Seq<char> {
    bold_text(name) + " is not a valid hook"@
}

impl ErrorView {
    /// The message that goes with the failure.
    pub open spec fn text(self) -> Seq<char> {
        match self {
            ErrorView::ScriptNotFound(n) => bold_text(n) + " was not found."@,
            ErrorView::ScriptExists(n) => "Script already exists: "@ + bold_text(n),
            ErrorView::InvalidHook(n) => invalid_hook_text(n),
            ErrorView::HookRejected(n) => "Krabby failed to validate project hook.\n"@
                + invalid_hook_text(n),
            ErrorView::ProjectUnreadable(s) => "Krabby couldn't parse project from string:\n"@ + s,
            ErrorView::DatabaseUnreadable(s) => "Failed to parse Database from string:\n"@ + s,
            ErrorView::ProjectMalformed => "The document does not describe a project."@,
            ErrorView::DatabaseMalformed => "The document does not describe a registry."@,
            ErrorView::ProjectUnknown(n) => "There was no project named "@ + bold_text(n)
                + " on the database!"@,
            ErrorView::ProjectNotFound(n) => project_not_found_text(n),
            ErrorView::NameTaken(n, p) => n + " is registered already at "@ + bold_text(p) + "."@,
            ErrorView::PathTaken(p, n) => "The project at "@ + bold_text(p)
                + " is already registered under the name "@ + bold_text(n) + "."@,
            ErrorView::NotADirectory(p) =>
                "I dont know how to tell you this, but there was a problem with the registry.\nApparently "@
                + bold_text(p) + " directory "@ + bold_text(red_text("is missing"@)) + " or "@
                + bold_text(red_text("is not a directory"@)) + "."@,
            ErrorView::Unwritable => "Failed to write the value as text."@,
        }
    }
}

/// Builds [`project_not_found_text`].
pub fn project_not_found(name: &ProjectName) -> (r: String)
    ensures
        r@ == project_not_found_text(name@),
{
    let mut out = String::from_str("Project ");
    out.append(bold(name.as_str()).as_str());
    out.append(" was ");
    out.append(bold(red("not found").as_str()).as_str());
    out.append(" on database! Are you sure you registered it?");
    out
}

/// Builds [`invalid_hook_text`].
fn invalid_hook(name: &ScriptName) -> (r: String)
    ensures
        r@ == invalid_hook_text(name@),
{
    let mut out = bold(name.as_str());
    out.append(" is not a valid hook");
    out
}

impl Error {
    /// The message that goes with the failure.
    pub fn to_string(&self) -> (r: String)
        ensures
            r@ == self@.text(),
    {
        match self {
            Error::ScriptNotFound(n) => {
                let mut out = bold(n.as_str());
                out.append(" was not found.");
                out
            },
            Error::ScriptExists(n) => {
                let mut out = String::from_str("Script already exists: ");
                out.append(bold(n.as_str()).as_str());
                out
            },
            Error::InvalidHook(n) => invalid_hook(n),
            Error::HookRejected(n) => {
                let mut out = String::from_str("Krabby failed to validate project hook.\n");
                out.append(invalid_hook(n).as_str());
                out
            },
            Error::ProjectUnreadable(s) => {
                let mut out = String::from_str("Krabby couldn't parse project from string:\n");
                out.append(s.as_str());
                out
            },
            Error::DatabaseUnreadable(s) => {
                let mut out = String::from_str("Failed to parse Database from string:\n");
                out.append(s.as_str());
                out
            },
            Error::ProjectMalformed => String::from_str("The document does not describe a project."),
            Error::DatabaseMalformed => String::from_str(
                "The document does not describe a registry.",
            ),
            Error::ProjectUnknown(n) => {
                let mut out = String::from_str("There was no project named ");
                out.append(bold(n.as_str()).as_str());
                out.append(" on the database!");
                out
            },
            Error::ProjectNotFound(n) => project_not_found(n),
            Error::NameTaken(n, p) => {
                let mut out = n.to_string();
                out.append(" is registered already at ");
                out.append(bold(p.as_str()).as_str());
                out.append(".");
                out
            },
            Error::PathTaken(p, n) => {
                let mut out = String::from_str("The project at ");
                out.append(bold(p.as_str()).as_str());
                out.append(" is already registered under the name ");
                out.append(bold(n.as_str()).as_str());
                out.append(".");
                out
            },
            Error::NotADirectory(p) => {
                let mut out = String::from_str(
                    "I dont know how to tell you this, but there was a problem with the registry.\nApparently ",
                );
                out.append(bold(p.as_str()).as_str());
                out.append(" directory ");
                out.append(bold(red("is missing").as_str()).as_str());
                out.append(" or ");
                out.append(bold(red("is not a directory").as_str()).as_str());
                out.append(".");
                out
            },
            Error::Unwritable => String::from_str("Failed to write the value as text."),
        }
    }
}

} // verus!
