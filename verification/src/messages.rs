//! What the tool tells its user, apart from failures.

use crate::error::{project_not_found, project_not_found_text, Error, ErrorView};
use crate::project::ProjectName;
use crate::style::{bold, bold_text, green, green_text, red, red_text};
use vstd::prelude::*;

verus! {

/// A message for the user.
#[derive(Debug)]
pub enum Message {
    /// How to register a project.
    RegisterProject,
    /// How to register a script.
    RegisterScript,
    /// No project of this name is registered.
    ProjectNotFound(ProjectName),
    /// The directory of the named project, the second field, is gone.
    ProjectFileNotFound(ProjectName, String),
    /// The named project was registered.
    RegisterProjectSuccess(ProjectName),
    /// The named project could not be registered, for the reason given.
    RegisterProjectFail(ProjectName, Error),
}

/// What a [`Message`] stands for, with every string as its characters.
pub enum MessageView {
    RegisterProject,
    RegisterScript,
    ProjectNotFound(Seq<char>),
    ProjectFileNotFound(Seq<char>, Seq<char>),
    RegisterProjectSuccess(Seq<char>),
    RegisterProjectFail(Seq<char>, ErrorView),
}

impl View for Message {
    type V = MessageView;

    open spec fn view(&self) -> MessageView {
        match self {
            Message::RegisterProject => MessageView::RegisterProject,
            Message::RegisterScript => MessageView::RegisterScript,
            Message::ProjectNotFound(n) => MessageView::ProjectNotFound(n@),
            Message::ProjectFileNotFound(n, p) => MessageView::ProjectFileNotFound(n@, p@),
            Message::RegisterProjectSuccess(n) => MessageView::RegisterProjectSuccess(n@),
            Message::RegisterProjectFail(n, e) => MessageView::RegisterProjectFail(n@, e@),
        }
    }
}

impl MessageView {
    /// The wording of the message, styled for a terminal.
    pub open spec fn text(self) -> Seq<char> {
        match self {
            MessageView::RegisterProject => "You can "@ + bold_text(green_text("register"@))
                + " a new project with "@ + bold_text(
                "'kb project add PROJECT_NAME PROJECT_PATH'"@,
            ),
            MessageView::RegisterScript => "You can "@ + bold_text(green_text("register"@))
                + " a new script with "@ + bold_text("'kb script add SCRIPT_NAME SCRIPT_COMMAND'"@),
            MessageView::ProjectNotFound(n) => project_not_found_text(n),
            MessageView::ProjectFileNotFound(n, p) =>
                "I dont know how to tell you this, but there was a problem with the registry.\nApparently the "@
                + bold_text(n) + " directory "@ + bold_text(red_text("is missing"@)) + " or "@ + p
                + " "@ + bold_text(red_text("is not a directory"@)) + "."@,
            MessageView::RegisterProjectSuccess(n) => bold_text(n)
                + " was registered successfully!"@,
            MessageView::RegisterProjectFail(n, e) => "There was a problem registering "@
                + bold_text(n) + "!\n"@ + e.text(),
        }
    }
}

impl Message {
    /// The wording of the message, styled for a terminal.
    pub fn to_string(&self) -> (r: String)
        ensures
            r@ == self@.text(),
    {
        match self {
            Message::RegisterProject => {
                let mut out = String::from_str("You can ");
                out.append(bold(green("register").as_str()).as_str());
                out.append(" a new project with ");
                out.append(bold("'kb project add PROJECT_NAME PROJECT_PATH'").as_str());
                out
            },
            Message::RegisterScript => {
                let mut out = String::from_str("You can ");
                out.append(bold(green("register").as_str()).as_str());
                out.append(" a new script with ");
                out.append(bold("'kb script add SCRIPT_NAME SCRIPT_COMMAND'").as_str());
                out
            },
            Message::ProjectNotFound(n) => project_not_found(n),
            Message::ProjectFileNotFound(n, p) => {
                let mut out = String::from_str(
                    "I dont know how to tell you this, but there was a problem with the registry.\nApparently the ",
                );
                out.append(bold(n.as_str()).as_str());
                out.append(" directory ");
                out.append(bold(red("is missing").as_str()).as_str());
                out.append(" or ");
                out.append(p.as_str());
                out.append(" ");
                out.append(bold(red("is not a directory").as_str()).as_str());
                out.append(".");
                out
            },
            Message::RegisterProjectSuccess(n) => {
                let mut out = bold(n.as_str());
                out.append(" was registered successfully!");
                out
            },
            Message::RegisterProjectFail(n, e) => {
                let mut out = String::from_str("There was a problem registering ");
                out.append(bold(n.as_str()).as_str());
                out.append("!\n");
                out.append(e.to_string().as_str());
                out
            },
        }
    }
}

} // verus!
