//! How a command ends: what the tool prints, whether the file that the command
//! changed is saved, and the status with which the tool exits.

use crate::database::{navigation_lines, navigation_text, Database};
use crate::document::texts_of;
use crate::error::{Error, ErrorView};
use crate::hook::{hook_view, names_of, HookView, ProjectHook};
use crate::messages::{Message, MessageView};
use crate::name::{name_defect, NameError};
use crate::project::{Project, ProjectName};
use crate::script::{command_text, Command, Script, ScriptName, ScriptView};
use crate::style::{bold, bold_text, green, green_text, red, red_text};
use crate::table::Entries;
use crate::text::opt_view;
use vstd::prelude::*;

verus! {

/// The end of a command.
#[derive(Debug, PartialEq, Eq)]
pub struct Outcome {
    /// What is printed, one string for each call of the printer.
    pub lines: Vec<String>,
    /// Whether the registry or the project is written back to its file.
    pub save: bool,
    /// The exit status: 0 on success, 1 on a failure that was reported.
    pub status: u8,
}

/// What an [`Outcome`] stands for.
pub struct OutcomeView {
    pub lines: Seq<Seq<char>>,
    pub save: bool,
    pub status: u8,
}

impl View for Outcome {
    type V = OutcomeView;

    open spec fn view(&self) -> OutcomeView {
        OutcomeView { lines: texts_of(self.lines@), save: self.save, status: self.status }
    }
}

/// A failure: one line is printed, nothing is saved, the status is 1.
pub open spec fn failure(line: Seq<char>) -> OutcomeView {
    OutcomeView { lines: seq![line], save: false, status: 1 }
}

/// A success that changed a file: one line is printed, the file is saved,
/// the status is 0.
pub open spec fn saved(line: Seq<char>) -> OutcomeView {
    OutcomeView { lines: seq![line], save: true, status: 0 }
}

/// A success that changed nothing: the lines are printed, the status is 0.
pub open spec fn shown(lines: Seq<Seq<char>>) -> OutcomeView {
    OutcomeView { lines, save: false, status: 0 }
}

/// Builds [`failure`].
fn fail(line: String) -> (r: Outcome)
    ensures
        r@ == failure(line@),
{
    let r = Outcome { lines: vec![line], save: false, status: 1 };
    assert(r@.lines =~= seq![line@]);
    r
}

/// Builds [`saved`].
fn save(line: String) -> (r: Outcome)
    ensures
        r@ == saved(line@),
{
    let r = Outcome { lines: vec![line], save: true, status: 0 };
    assert(r@.lines =~= seq![line@]);
    r
}

/// The first rule that one of `args` breaks as a name, if one breaks a rule.
pub open spec fn first_defect(args: Seq<Seq<char>>) -> Option<NameError> {
    if exists|i: int| first_bad(args, i) {
        name_defect(args[choose|i: int| first_bad(args, i)])
    } else {
        None
    }
}

/// Whether `args[i]` is the first of `args` that is no name.
pub open spec fn first_bad(args: Seq<Seq<char>>, i: int) -> bool {
    &&& 0 <= i < args.len()
    &&& name_defect(args[i]) is Some
    &&& forall|j: int| 0 <= j < i ==> name_defect(#[trigger] args[j]) is None
}

/// The hook that the arguments of the hook command ask for: none without
/// arguments; the command line itself, or the greeting if it is blank, for
/// one argument; the scripts of these names for more.
pub open spec fn hook_from_args_spec(args: Seq<Seq<char>>) -> Result<Option<HookView>, NameError> {
    if args.len() == 0 {
        Ok(None)
    } else if args.len() == 1 {
        Ok(Some(HookView::Simple(command_text(args[0]))))
    } else {
        match first_defect(args) {
            Some(e) => Err(e),
            None => Ok(Some(HookView::ScriptArray(args))),
        }
    }
}

/// The hook that the arguments of the hook command ask for: see
/// [`hook_from_args_spec`]. With more than one argument, each has to be a
/// name; the failure is that of the first that is none.
#[verifier::loop_isolation(false)]
pub fn hook_from_args(args: &Vec<String>) -> (r: Result<Option<ProjectHook>, NameError>)
    ensures
        match hook_from_args_spec(texts_of(args@)) {
            Ok(hook) => r matches Ok(h) && hook_view(h) == hook,
            Err(e) => r == Err::<Option<ProjectHook>, NameError>(e),
        },
{
    if args.len() == 0 {
        Ok(None)
    } else if args.len() == 1 {
        Ok(Some(ProjectHook::Simple(Command::parse(args[0].clone()).to_string())))
    } else {
        let ghost texts = texts_of(args@);
        let mut names: Vec<ScriptName> = Vec::new();
        let mut i: usize = 0;
        while i < args.len()
            invariant
                i <= args.len(),
                names.len() == i,
                forall|j: int| 0 <= j < i ==> (#[trigger] names[j])@ == args[j]@,
                forall|j: int| 0 <= j < i ==> name_defect(#[trigger] texts[j]) is None,
            decreases args.len() - i,
        {
            match ScriptName::try_parse(args[i].clone()) {
                Ok(name) => {
                    names.push(name);
                },
                Err(e) => {
                    proof {
                        assert(first_bad(texts, i as int));
                        let k = choose|k: int| first_bad(texts, k);
                        assert(first_bad(texts, k));
                        if k < i {
                            assert(name_defect(texts[k]) is None);
                        }
                        if i < k {
                            assert(name_defect(texts[i as int]) is None);
                        }
                    }
                    return Err(e);
                },
            }
            i += 1;
        }
        proof {
            if exists|k: int| first_bad(texts, k) {
                let k = choose|k: int| first_bad(texts, k);
                assert(name_defect(texts[k]) is None);
            }
            assert(names_of(names@) =~= texts);
        }
        Ok(Some(ProjectHook::ScriptArray(names)))
    }
}

/// How going to a project ends. On success the lines for the shell are
/// printed and, last, the word that all went well.
pub open spec fn went_spec(name: Seq<char>, way: Result<(Seq<char>, Option<Seq<char>>), ErrorView>) -> OutcomeView {
    match way {
        Ok(w) => shown(navigation_text(name, w.0, w.1).push("echo \"You're good to go!\""@)),
        Err(e) => failure(e.text()),
    }
}

/// How going to a project ends: see [`went_spec`].
pub fn went(name: &ProjectName, way: &Result<(String, Option<String>), Error>) -> (r: Outcome)
    ensures
        r@ == went_spec(
            name@,
            match *way {
                Ok(w) => Ok((w.0@, opt_view(w.1))),
                Err(e) => Err(e@),
            },
        ),
{
    match way {
        Ok(w) => {
            let mut lines = navigation_lines(name, w.0.as_str(), &w.1);
            lines.push(String::from_str("echo \"You're good to go!\""));
            let r = Outcome { lines, save: false, status: 0 };
            assert(r@.lines =~= navigation_text(name@, w.0@, opt_view(w.1)).push(
                "echo \"You're good to go!\""@,
            ));
            r
        },
        Err(e) => fail(e.to_string()),
    }
}

/// How registering a project ends.
pub open spec fn registered_spec(name: Seq<char>, result: Result<(), ErrorView>) -> OutcomeView {
    match result {
        Ok(_) => saved(MessageView::RegisterProjectSuccess(name).text()),
        Err(e) => failure(MessageView::RegisterProjectFail(name, e).text()),
    }
}

/// How registering a project ends: see [`registered_spec`].
pub fn registered(name: ProjectName, result: Result<(), Error>) -> (r: Outcome)
    ensures
        r@ == registered_spec(
            name@,
            match result {
                Ok(_) => Ok(()),
                Err(e) => Err(e@),
            },
        ),
{
    match result {
        Ok(_) => save(Message::RegisterProjectSuccess(name).to_string()),
        Err(e) => fail(Message::RegisterProjectFail(name, e).to_string()),
    }
}

/// One line for each project: its name and its path, both in bold.
pub open spec fn project_lines(projects: Entries) -> Seq<Seq<char>> {
    Seq::new(
        projects.len(),
        |i: int| bold_text(projects[i].0) + " at "@ + bold_text(projects[i].1),
    )
}

/// How listing the projects ends: a hint how to register one where there is
/// none, else the projects between a first and a last line.
pub open spec fn listed_projects_spec(projects: Entries) -> OutcomeView {
    if projects.len() == 0 {
        shown(
            seq![
                "So... it looks like you have no project registered yet.\n"@
                    + MessageView::RegisterProject.text(),
            ],
        )
    } else {
        shown(
            seq!["So, let's take a look at your projects!"@] + project_lines(projects)
                + seq!["And that's a wrap!"@],
        )
    }
}

/// How listing the projects ends: see [`listed_projects_spec`].
pub fn listed_projects(database: &Database) -> (r: Outcome)
    ensures
        r@ == listed_projects_spec(database@.projects),
{
    let projects = database.projects();
    let mut lines: Vec<String> = Vec::new();
    if projects.len() == 0 {
        let mut line = String::from_str("So... it looks like you have no project registered yet.\n");
        line.append(Message::RegisterProject.to_string().as_str());
        lines.push(line);
        let r = Outcome { lines, save: false, status: 0 };
        assert(r@.lines =~= listed_projects_spec(database@.projects).lines);
        return r;
    }
    lines.push(String::from_str("So, let's take a look at your projects!"));
    let mut i: usize = 0;
    while i < projects.len()
        invariant
            i <= projects.len(),
            projects.len() == database@.projects.len(),
            forall|j: int|
                0 <= j < projects.len() ==> ((#[trigger] projects[j]).0@, projects[j].1@)
                    == database@.projects[j],
            lines.len() == i + 1,
            lines[0]@ == "So, let's take a look at your projects!"@,
            forall|j: int|
                0 <= j < i ==> (#[trigger] lines[j + 1])@ == project_lines(database@.projects)[j],
        decreases projects.len() - i,
    {
        let mut line = bold(projects[i].0.as_str());
        line.append(" at ");
        line.append(bold(projects[i].1.as_str()).as_str());
        lines.push(line);
        i += 1;
    }
    lines.push(String::from_str("And that's a wrap!"));
    let r = Outcome { lines, save: false, status: 0 };
    proof {
        let want = listed_projects_spec(database@.projects).lines;
        assert(r@.lines.len() == want.len());
        assert forall|j: int| 0 <= j < want.len() implies r@.lines[j] == want[j] by {
            if 0 < j && j < want.len() - 1 {
                assert(r.lines[j - 1 + 1]@ == project_lines(database@.projects)[j - 1]);
            }
        }
        assert(r@.lines =~= want);
    }
    r
}

/// How removing a project ends.
pub open spec fn unregistered_spec(name: Seq<char>, result: Result<(), ErrorView>) -> OutcomeView {
    match result {
        Ok(_) => saved("Project "@ + bold_text(name) + " was removed from the database."@),
        Err(e) => failure("Failed to remove project!\n"@ + e.text()),
    }
}

/// How removing a project ends: see [`unregistered_spec`].
pub fn unregistered(name: &ProjectName, result: &Result<(), Error>) -> (r: Outcome)
    ensures
        r@ == unregistered_spec(
            name@,
            match *result {
                Ok(_) => Ok(()),
                Err(e) => Err(e@),
            },
        ),
{
    match result {
        Ok(_) => {
            let mut line = String::from_str("Project ");
            line.append(bold(name.as_str()).as_str());
            line.append(" was removed from the database.");
            save(line)
        },
        Err(e) => {
            let mut line = String::from_str("Failed to remove project!\n");
            line.append(e.to_string().as_str());
            fail(line)
        },
    }
}

/// How storing a hook ends: the hook's command line is shown where there is
/// one, its removal is told where there is none.
pub open spec fn hook_stored_spec(result: Result<Option<Seq<char>>, ErrorView>) -> OutcomeView {
    match result {
        Ok(Some(command)) => saved(
            "The hook was set "@ + bold_text(green_text("successfully"@)) + "!\n"@ + bold_text(
                green_text("[Hook]:"@),
            ) + " "@ + bold_text(command),
        ),
        Ok(None) => saved("The hook was "@ + bold_text(red_text("removed."@))),
        Err(e) => failure("Failed to set hook.\n"@ + e.text()),
    }
}

/// How storing a hook ends: see [`hook_stored_spec`].
pub fn hook_stored(result: &Result<Option<String>, Error>) -> (r: Outcome)
    ensures
        r@ == hook_stored_spec(
            match *result {
                Ok(command) => Ok(opt_view(command)),
                Err(e) => Err(e@),
            },
        ),
{
    match result {
        Ok(Some(command)) => {
            let mut line = String::from_str("The hook was set ");
            line.append(bold(green("successfully").as_str()).as_str());
            line.append("!\n");
            line.append(bold(green("[Hook]:").as_str()).as_str());
            line.append(" ");
            line.append(bold(command.as_str()).as_str());
            save(line)
        },
        Ok(None) => {
            let mut line = String::from_str("The hook was ");
            line.append(bold(red("removed.").as_str()).as_str());
            save(line)
        },
        Err(e) => {
            let mut line = String::from_str("Failed to set hook.\n");
            line.append(e.to_string().as_str());
            fail(line)
        },
    }
}

/// How removing a script ends.
pub open spec fn script_removed_spec(name: Seq<char>, result: Result<(), ErrorView>) -> OutcomeView {
    match result {
        Ok(_) => saved("Script "@ + bold_text(name) + " was removed."@),
        Err(e) => failure("Failed to remove script "@ + bold_text(name) + ".\n"@ + e.text()),
    }
}

/// How removing a script ends: see [`script_removed_spec`].
pub fn script_removed(name: &ScriptName, result: &Result<(), Error>) -> (r: Outcome)
    ensures
        r@ == script_removed_spec(
            name@,
            match *result {
                Ok(_) => Ok(()),
                Err(e) => Err(e@),
            },
        ),
{
    match result {
        Ok(_) => {
            let mut line = String::from_str("Script ");
            line.append(bold(name.as_str()).as_str());
            line.append(" was removed.");
            save(line)
        },
        Err(e) => {
            let mut line = String::from_str("Failed to remove script ");
            line.append(bold(name.as_str()).as_str());
            line.append(".\n");
            line.append(e.to_string().as_str());
            fail(line)
        },
    }
}

/// How adding a script ends.
pub open spec fn script_added_spec(name: Seq<char>, result: Result<(), ErrorView>) -> OutcomeView {
    match result {
        Ok(_) => saved("The script "@ + bold_text(name) + " was registered successfully!"@),
        Err(e) => failure("Failed to add project.\n"@ + e.text()),
    }
}

/// How adding a script ends: see [`script_added_spec`].
pub fn script_added(name: &ScriptName, result: &Result<(), Error>) -> (r: Outcome)
    ensures
        r@ == script_added_spec(
            name@,
            match *result {
                Ok(_) => Ok(()),
                Err(e) => Err(e@),
            },
        ),
{
    match result {
        Ok(_) => {
            let mut line = String::from_str("The script ");
            line.append(bold(name.as_str()).as_str());
            line.append(" was registered successfully!");
            save(line)
        },
        Err(e) => {
            let mut line = String::from_str("Failed to add project.\n");
            line.append(e.to_string().as_str());
            fail(line)
        },
    }
}

/// One line for each script: a tab, a dash, the name and the command line,
/// both in bold.
pub open spec fn listed_script_lines(scripts: Entries) -> Seq<Seq<char>> {
    Seq::new(
        scripts.len(),
        |i: int| "\t- "@ + bold_text(scripts[i].0) + ": "@ + bold_text(scripts[i].1),
    )
}

/// How listing the scripts ends: a hint how to register one where there is
/// none, else the scripts between a first and a last line.
pub open spec fn listed_scripts_spec(scripts: Entries) -> OutcomeView {
    if scripts.len() == 0 {
        shown(
            seq![
                "Oops! It looks like you have no script registered yet.\n"@
                    + MessageView::RegisterScript.text(),
            ],
        )
    } else {
        shown(
            seq!["So, let's see what do we got here!"@] + listed_script_lines(scripts)
                + seq!["And that's it!"@],
        )
    }
}

/// How listing the scripts ends: see [`listed_scripts_spec`].
pub fn listed_scripts(project: &Project) -> (r: Outcome)
    ensures
        r@ == listed_scripts_spec(project@.scripts),
{
    let scripts = project.scripts();
    let mut lines: Vec<String> = Vec::new();
    if scripts.len() == 0 {
        let mut line = String::from_str("Oops! It looks like you have no script registered yet.\n");
        line.append(Message::RegisterScript.to_string().as_str());
        lines.push(line);
        let r = Outcome { lines, save: false, status: 0 };
        assert(r@.lines =~= listed_scripts_spec(project@.scripts).lines);
        return r;
    }
    lines.push(String::from_str("So, let's see what do we got here!"));
    let mut i: usize = 0;
    while i < scripts.len()
        invariant
            i <= scripts.len(),
            scripts.len() == project@.scripts.len(),
            forall|j: int|
                0 <= j < scripts.len() ==> (#[trigger] scripts[j])@ == (ScriptView {
                    name: project@.scripts[j].0,
                    command: project@.scripts[j].1,
                }),
            lines.len() == i + 1,
            lines[0]@ == "So, let's see what do we got here!"@,
            forall|j: int|
                0 <= j < i ==> (#[trigger] lines[j + 1])@ == listed_script_lines(
                    project@.scripts,
                )[j],
        decreases scripts.len() - i,
    {
        let mut line = String::from_str("\t- ");
        line.append(bold(scripts[i].name.as_str()).as_str());
        line.append(": ");
        line.append(bold(scripts[i].command.as_str()).as_str());
        lines.push(line);
        i += 1;
    }
    lines.push(String::from_str("And that's it!"));
    let r = Outcome { lines, save: false, status: 0 };
    proof {
        let want = listed_scripts_spec(project@.scripts).lines;
        assert(r@.lines.len() == want.len());
        assert forall|j: int| 0 <= j < want.len() implies r@.lines[j] == want[j] by {
            if 0 < j && j < want.len() - 1 {
                assert(r.lines[j - 1 + 1]@ == listed_script_lines(project@.scripts)[j - 1]);
            }
        }
        assert(r@.lines =~= want);
    }
    r
}

} // verus!
