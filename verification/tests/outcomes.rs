use krabby::cli::{
    hook_stored, listed_projects, listed_scripts, registered, script_added, script_removed,
    unregistered, went, Outcome,
};
use krabby::database::Database;
use krabby::error::Error;
use krabby::project::{Project, ProjectName};
use krabby::script::{Command, Script, ScriptName};

const BOLD: &str = "\u{1b}[1m";
const RESET: &str = "\u{1b}[0m";
const GREEN: &str = "\u{1b}[32m";
const RED: &str = "\u{1b}[31m";
const PLAIN: &str = "\u{1b}[39m";

fn demo() -> ProjectName {
    ProjectName::parse("demo".into())
}

fn build() -> ScriptName {
    ScriptName::parse("build".into())
}

fn one(line: String, save: bool, status: u8) -> Outcome {
    Outcome {
        lines: vec![line],
        save,
        status,
    }
}

#[test]
fn going_to_a_project_ends_with_the_lines_for_the_shell() {
    assert_eq!(
        went(&demo(), &Ok(("cd /tmp/demo".into(), Some("ls".into())))),
        Outcome {
            lines: vec![
                format!("echo \"Krabby is taking you to {BOLD}demo{RESET}!\";"),
                "cd /tmp/demo".to_string(),
                format!("echo \"Running hook:\n{BOLD}ls{RESET}\""),
                "ls".to_string(),
                "echo \"You're good to go!\"".to_string(),
            ],
            save: false,
            status: 0,
        }
    );
    assert_eq!(
        went(&demo(), &Ok(("cd /tmp/demo".into(), None))),
        Outcome {
            lines: vec![
                format!("echo \"Krabby is taking you to {BOLD}demo{RESET}!\";"),
                "cd /tmp/demo".to_string(),
                "echo \"You're good to go!\"".to_string(),
            ],
            save: false,
            status: 0,
        }
    );
    assert_eq!(
        went(&demo(), &Err(Error::NotADirectory("/tmp/demo".into()))),
        one(Error::NotADirectory("/tmp/demo".into()).to_string(), false, 1)
    );
}

#[test]
fn registering_ends_with_a_message_and_a_save() {
    assert_eq!(
        registered(demo(), Ok(())),
        one(format!("{BOLD}demo{RESET} was registered successfully!"), true, 0)
    );
    assert_eq!(
        registered(demo(), Err(Error::NameTaken(demo(), "/d".into()))),
        one(
            format!(
                "There was a problem registering {BOLD}demo{RESET}!\ndemo is registered already at {BOLD}/d{RESET}."
            ),
            false,
            1
        )
    );
}

#[test]
fn removing_a_project_ends_with_a_message_and_a_save() {
    assert_eq!(
        unregistered(&demo(), &Ok(())),
        one(
            format!("Project {BOLD}demo{RESET} was removed from the database."),
            true,
            0
        )
    );
    assert_eq!(
        unregistered(&demo(), &Err(Error::ProjectUnknown(demo()))),
        one(
            format!(
                "Failed to remove project!\nThere was no project named {BOLD}demo{RESET} on the database!"
            ),
            false,
            1
        )
    );
}

#[test]
fn listing_projects_shows_each_with_its_path() {
    let mut database = Database::new(None);
    assert_eq!(
        listed_projects(&database),
        one(
            format!(
                "So... it looks like you have no project registered yet.\nYou can {BOLD}{GREEN}register{PLAIN}{RESET} a new project with {BOLD}'kb project add PROJECT_NAME PROJECT_PATH'{RESET}"
            ),
            false,
            0
        )
    );
    database.add_project(demo(), "/tmp/demo".into()).unwrap();
    database
        .add_project(ProjectName::parse("other".into()), "/tmp/other".into())
        .unwrap();
    assert_eq!(
        listed_projects(&database),
        Outcome {
            lines: vec![
                "So, let's take a look at your projects!".to_string(),
                format!("{BOLD}demo{RESET} at {BOLD}/tmp/demo{RESET}"),
                format!("{BOLD}other{RESET} at {BOLD}/tmp/other{RESET}"),
                "And that's a wrap!".to_string(),
            ],
            save: false,
            status: 0,
        }
    );
}

#[test]
fn storing_a_hook_ends_with_the_hook_or_its_removal() {
    assert_eq!(
        hook_stored(&Ok(Some("ls".into()))),
        one(
            format!(
                "The hook was set {BOLD}{GREEN}successfully{PLAIN}{RESET}!\n{BOLD}{GREEN}[Hook]:{PLAIN}{RESET} {BOLD}ls{RESET}"
            ),
            true,
            0
        )
    );
    assert_eq!(
        hook_stored(&Ok(None)),
        one(format!("The hook was {BOLD}{RED}removed.{PLAIN}{RESET}"), true, 0)
    );
    assert_eq!(
        hook_stored(&Err(Error::InvalidHook(build()))),
        one(
            format!("Failed to set hook.\n{BOLD}build{RESET} is not a valid hook"),
            false,
            1
        )
    );
}

#[test]
fn changing_scripts_ends_with_a_message_and_a_save() {
    assert_eq!(
        script_removed(&build(), &Ok(())),
        one(format!("Script {BOLD}build{RESET} was removed."), true, 0)
    );
    assert_eq!(
        script_removed(&build(), &Err(Error::ScriptNotFound(build()))),
        one(
            format!(
                "Failed to remove script {BOLD}build{RESET}.\n{BOLD}build{RESET} was not found."
            ),
            false,
            1
        )
    );
    assert_eq!(
        script_added(&build(), &Ok(())),
        one(
            format!("The script {BOLD}build{RESET} was registered successfully!"),
            true,
            0
        )
    );
    assert_eq!(
        script_added(&build(), &Err(Error::ScriptExists(build()))),
        one(
            format!("Failed to add project.\nScript already exists: {BOLD}build{RESET}"),
            false,
            1
        )
    );
}

#[test]
fn listing_scripts_shows_each_with_its_command() {
    let mut project = Project::new(demo(), None);
    assert_eq!(
        listed_scripts(&project),
        one(
            format!(
                "Oops! It looks like you have no script registered yet.\nYou can {BOLD}{GREEN}register{PLAIN}{RESET} a new script with {BOLD}'kb script add SCRIPT_NAME SCRIPT_COMMAND'{RESET}"
            ),
            false,
            0
        )
    );
    project
        .add_script(build(), Script::new(build(), Command::parse("make".into())))
        .unwrap();
    let test = ScriptName::parse("test".into());
    project
        .add_script(test.clone(), Script::new(test, Command::parse("make test".into())))
        .unwrap();
    assert_eq!(
        listed_scripts(&project),
        Outcome {
            lines: vec![
                "So, let's see what do we got here!".to_string(),
                format!("\t- {BOLD}build{RESET}: {BOLD}make{RESET}"),
                format!("\t- {BOLD}test{RESET}: {BOLD}make test{RESET}"),
                "And that's it!".to_string(),
            ],
            save: false,
            status: 0,
        }
    );
}
