use krabby::project_info::{ErrorKind, ProjectInfo};
use krabby::script::{Command, Script, ScriptName};

#[test]
fn cd_to_invalid_path_must_fail() {
    let project = ProjectInfo::new("nopath", "/but/through").unwrap();
    if let Err(e) = project.change_to_project_path(false) {
        return assert_eq!(e.kind(), ErrorKind::NotFound);
    }
    panic!("i should not /* be */ /* here */")
}

fn script(name: &str, command: &str) -> Script {
    Script::new(
        ScriptName::parse(name.into()),
        Command::parse(command.into()),
    )
}

#[test]
fn cd_to_a_directory_gives_the_statement() {
    let project = ProjectInfo::new("demo", "/tmp/demo").unwrap();
    assert_eq!(project.change_to_project_path(true).unwrap(), "cd /tmp/demo");
    assert_eq!(project.get_path().unwrap(), "/tmp/demo");
    assert_eq!(
        project.change_to_project_path(false).unwrap_err().to_string(),
        "this path leads to nowhere"
    );
    assert!(project.pwd_is_project_path("/tmp/demo"));
    assert!(!project.pwd_is_project_path("/tmp"));
}

#[test]
fn scripts_of_a_record_are_found_by_name() {
    let mut project = ProjectInfo::new("demo", "/tmp/demo").unwrap();
    let err = project.get_script("build").unwrap_err();
    assert_eq!(err.kind(), ErrorKind::NotFound);
    assert_eq!(err.to_string(), "no scripts configured for this project");

    project.add_script(script("build", "make")).unwrap();
    project.add_script(script("test", "make test")).unwrap();
    project.add_script(script("build", "ninja")).unwrap();
    assert_eq!(project.scripts.as_ref().unwrap().len(), 3);
    assert_eq!(project.get_script("build").unwrap(), &script("build", "make"));
    assert_eq!(project.get_script("test").unwrap(), &script("test", "make test"));
    let err = project.get_script("lint").unwrap_err();
    assert_eq!(err.kind(), ErrorKind::NotFound);
    assert_eq!(err.to_string(), "no script found");
}

#[test]
fn a_record_is_shown_with_its_scripts() {
    let mut project = ProjectInfo::new("demo", "/tmp/demo").unwrap();
    assert_eq!(
        project.to_string(),
        "[Project] => demo\n[Path] => /tmp/demo\nno script configured"
    );
    project.add_script(script("build", "make")).unwrap();
    project.add_script(script("test", "make test")).unwrap();
    assert_eq!(
        project.to_string(),
        "[Project] => demo\n[Path] => /tmp/demo\n[Scripts] =>\n\tmake\n\tmake test\n"
    );
}
