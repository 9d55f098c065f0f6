use krabby::error::Error;
use krabby::hook::ProjectHook;
use krabby::name::NameError;
use krabby::project::{Project, ProjectName};
use krabby::script::{Command, Script, ScriptName};

#[test]
fn project_initializes_with_no_script() {
    let project = Project::new(ProjectName::parse("validname".into()), None);
    assert!(project.scripts().is_empty());
    assert_eq!(project.script_count(), 0);
    assert!(project.hook().is_none());
}

#[test]
fn empty_project_file_parsed_successfully() {
    let project = Project::new(ProjectName::parse("project".into()), None);
    let project_from_str: Project = Project::from_str(
        r#"
            name = "project"
            "#,
    )
    .unwrap();
    assert_eq!(project, project_from_str)
}

#[test]
fn project_simple_hook_file_parsed_successfully() {
    let mut project = Project::new(ProjectName::parse("project".into()), None);
    project
        .store_hook(Some(ProjectHook::Simple(
            "echo \"Welcome to Krabby!\"".to_string(),
        )))
        .unwrap();
    let project_from_str: Project = Project::from_str(
        r#"
            name = "project"
            hook = "echo \"Welcome to Krabby!\""
            "#,
    )
    .unwrap();
    assert_eq!(project, project_from_str)
}

#[test]
fn project_list_hook_file_parsed_successfully() {
    let mut project = Project::new(ProjectName::parse("project".into()), None);
    let script_name = ScriptName::parse("hello".into());
    let script = Script::new(script_name.clone(), Command::parse("echo hello".into()));
    project.add_script(script_name, script).unwrap();
    project
        .store_hook(Some(ProjectHook::ScriptArray(vec![ScriptName::parse(
            "hello".into(),
        )])))
        .unwrap();
    let project_from_str: Project = Project::from_str(
        r#"
            name = "project"
            hook = [ "hello" ]

            [scripts]
            hello = "echo hello"
            "#,
    )
    .unwrap();
    assert_eq!(project, project_from_str)
}

#[test]
#[should_panic]
fn project_fails_to_add_invalid_hook_successfully() {
    let mut project = Project::new(ProjectName::parse("project".into()), None);
    let script_name = ScriptName::parse("hello".into());
    project
        .store_hook(Some(ProjectHook::ScriptArray(vec![script_name])))
        .unwrap();
}

#[test]
#[should_panic]
fn project_fails_to_parse_invalid_hook() {
    Project::from_str(
        r#"
            name = "project"
            hook = [ "hello" ]
            "#,
    )
    .unwrap();
}

#[test]
fn project_file_with_scripts_is_parsed_successfully() {
    let mut project = Project::new(ProjectName::parse("project".into()), None);

    let name = ScriptName::parse("run".into());
    let script = Script::new(
        name.clone(),
        Command::parse(r#"echo 'Krabby says hi'"#.into()),
    );
    project.add_script(name.clone(), script).unwrap();
    let project_from_str: Project = Project::from_str(
        r#"
            name = "project"

            [scripts]
            run = "echo 'Krabby says hi'"
            "#,
    )
    .unwrap();
    assert_eq!(project, project_from_str)
}

#[test]
fn remove_existing_script_from_project() {
    let database_str = r#"
name = "krabby"

[scripts]
hello = "echo \"hello\""
world = "echo \"world\""
        "#;
    let mut project = Project::from_file("/tmp/krabby.toml".into(), database_str, ProjectName::parse("fallback".into()))
        .unwrap()
        .project;
    project
        .remove_script(ScriptName::parse("hello".into()))
        .unwrap();

    let single_script_project_str = r#"name = "krabby"

[scripts]
world = "echo \"world\""
"#;
    assert_eq!(project.to_string().unwrap(), single_script_project_str);

    project
        .remove_script(ScriptName::parse("world".into()))
        .unwrap();

    let empty_project_str = r#"name = "krabby"
"#;

    assert_eq!(project.to_string().unwrap(), empty_project_str);
}

#[test]
#[should_panic]
fn project_name_cannot_be_empty() {
    ProjectName::try_parse("".into()).unwrap();
}

#[test]
#[should_panic]
fn project_name_cannot_be_blank() {
    ProjectName::try_parse("  ".into()).unwrap();
}

#[test]
#[should_panic]
fn project_name_cannot_be_over_20_characters() {
    ProjectName::try_parse("iamlongerthan20characters".into()).unwrap();
}

#[test]
fn project_name_cannot_contain_forbidden_characters() {
    let cases = [
        ("i/am/not/allowed".to_string(), "cannot contain slashes"),
        ("i(cantbeallowed".to_string(), "cannot contain parenthesis"),
        ("neither)shouldi".to_string(), "cannot contain parenthesis"),
        ("i\\shouldpanic".to_string(), "cannot contain backslashes"),
        (
            "why\"notallowed".to_string(),
            "cannot contain double quotes",
        ),
        ("shouldnot'be".to_string(), "cannot contain single quotes"),
        ("<antthisbegood".to_string(), "cannot contain lt sign"),
        ("cantthisbegoo>".to_string(), "cannot contain gt sign"),
        ("cantcauseof{".to_string(), "cannot contain bracket"),
        ("cantcauseof}".to_string(), "cannot contain bracket"),
    ];
    for (case, msg) in cases {
        let result = ProjectName::try_parse(case.clone());
        assert!(
            result.is_err(),
            "{} should be a project script name: {}",
            case,
            msg,
        );
        assert_eq!(result.unwrap_err(), NameError::ForbiddenCharacter);
    }
}

#[test]
fn project_with_one_script_is_written_with_a_scripts_table() {
    let mut project = Project::new(ProjectName::parse("krabby".into()), None);
    let name = ScriptName::parse("hello".into());
    project
        .add_script(name.clone(), Script::new(name, Command::parse("echo hi".into())))
        .unwrap();
    assert_eq!(
        project.to_string().unwrap(),
        "name = \"krabby\"\n\n[scripts]\nhello = \"echo hi\"\n"
    );
}

#[test]
fn adding_a_script_twice_is_refused() {
    let mut project = Project::new(ProjectName::parse("krabby".into()), None);
    let name = ScriptName::parse("build".into());
    project
        .add_script(name.clone(), Script::new(name.clone(), Command::parse("make".into())))
        .unwrap();
    let err = project
        .add_script(name.clone(), Script::new(name.clone(), Command::parse("ninja".into())))
        .unwrap_err();
    assert_eq!(err, Error::ScriptExists(name.clone()));
    assert_eq!(err.to_string(), "Script already exists: \u{1b}[1mbuild\u{1b}[0m");
    assert_eq!(project.script_count(), 1);
    assert_eq!(project.get_script(&name).unwrap().command.to_string(), "make");
}

#[test]
fn removing_a_missing_script_is_refused() {
    let mut project = Project::new(ProjectName::parse("krabby".into()), None);
    let err = project
        .remove_script(ScriptName::parse("build".into()))
        .unwrap_err();
    assert_eq!(err, Error::ScriptNotFound(ScriptName::parse("build".into())));
    assert_eq!(err.to_string(), "\u{1b}[1mbuild\u{1b}[0m was not found.");
}
