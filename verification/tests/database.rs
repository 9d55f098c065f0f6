use krabby::database::{navigation_lines, Database};
use krabby::error::Error;
use krabby::project::ProjectName;

#[test]
fn database_is_initialized_empty() {
    let database = Database::new(None);
    assert!(database.list_projects().is_empty());
    assert_eq!(database.project_count(), 0);
}

#[test]
fn parse_database_successfully() {
    let mut database = Database::new(None);
    database
        .add_project(ProjectName::parse("project".into()), "/".into())
        .unwrap();

    let database_str = r#"
            [projects]
            project = "/"
        "#;
    let database_from_str: Database = Database::from_str(database_str).unwrap();

    assert_eq!(database, database_from_str)
}

#[test]
fn add_project_to_database_successfully() {
    let mut database = Database::new(None);
    let res = database.add_project(ProjectName::parse("project".into()), "/".into());
    assert!(res.is_ok());
    let project_list: Vec<ProjectName> = vec![ProjectName::parse("project".into())];
    assert_eq!(database.list_projects(), project_list);
}

#[test]
fn remove_existing_project_from_database() {
    let database_str = r#"
            [projects]
            project1 = "/tmp/project1"
            project2 = "/tmp/project2"
        "#;
    let mut database = Database::from_str(database_str).unwrap();
    database.set_path("./krabby.db".into());
    database
        .remove_project(ProjectName::parse("project2".into()))
        .unwrap();

    let single_project_database_str = r#"[projects]
project1 = "/tmp/project1"
"#;
    assert_eq!(database.to_string().unwrap(), single_project_database_str);

    database
        .remove_project(ProjectName::parse("project1".into()))
        .unwrap();

    let empty_database_str = r#"[projects]
"#;

    assert_eq!(database.to_string().unwrap(), empty_database_str);
}

#[test]
#[should_panic]
fn remove_project_from_empty_database() {
    let mut database = Database::new(None);
    database
        .remove_project(ProjectName::parse("project".into()))
        .expect("failed to delete project")
}

#[test]
fn remove_project_from_empty_database_says_which() {
    let mut database = Database::new(None);
    let err = database
        .remove_project(ProjectName::parse("project".into()))
        .unwrap_err();
    assert_eq!(err, Error::ProjectUnknown(ProjectName::parse("project".into())));
    assert_eq!(
        err.to_string(),
        "There was no project named \u{1b}[1mproject\u{1b}[0m on the database!"
    );
}

#[test]
fn empty_database_is_written_as_a_bare_header() {
    assert_eq!(Database::new(None).to_string().unwrap(), "[projects]\n");
}

#[test]
fn database_with_one_project_is_written_as_one_entry() {
    let mut database = Database::new(None);
    database
        .add_project(ProjectName::parse("demo".into()), "/tmp/demo".into())
        .unwrap();
    assert_eq!(
        database.to_string().unwrap(),
        "[projects]\ndemo = \"/tmp/demo\"\n"
    );
}

#[test]
fn registering_a_name_twice_is_refused() {
    let mut database = Database::new(None);
    let name = ProjectName::parse("demo".into());
    database.add_project(name.clone(), "/tmp/demo".into()).unwrap();
    let err = database
        .add_project(name.clone(), "/tmp/demo".into())
        .unwrap_err();
    assert_eq!(err, Error::NameTaken(name, "/tmp/demo".into()));
    assert_eq!(
        err.to_string(),
        "demo is registered already at \u{1b}[1m/tmp/demo\u{1b}[0m."
    );
    assert_eq!(database.project_count(), 1);
}

#[test]
fn registering_a_path_twice_is_refused() {
    let mut database = Database::new(None);
    let name = ProjectName::parse("demo".into());
    database.add_project(name.clone(), "/tmp/demo".into()).unwrap();
    let err = database
        .add_project(ProjectName::parse("other".into()), "/tmp/demo".into())
        .unwrap_err();
    assert_eq!(err, Error::PathTaken("/tmp/demo".into(), name));
    assert_eq!(
        err.to_string(),
        "The project at \u{1b}[1m/tmp/demo\u{1b}[0m is already registered under the name \u{1b}[1mdemo\u{1b}[0m."
    );
    assert_eq!(database.project_count(), 1);
}

#[test]
fn removing_the_second_of_two_leaves_the_first() {
    let mut database = Database::new(None);
    let a = ProjectName::parse("a".into());
    let b = ProjectName::parse("b".into());
    database.add_project(a.clone(), "/tmp/a".into()).unwrap();
    database.add_project(b.clone(), "/tmp/b".into()).unwrap();
    database.remove_project(b.clone()).unwrap();
    assert_eq!(database.list_projects(), vec![a.clone()]);
    assert_eq!(database.get_project_path(&a), Some(&"/tmp/a".to_string()));
    assert_eq!(database.get_project_path(&b), None);
    assert_eq!(database.to_string().unwrap(), "[projects]\na = \"/tmp/a\"\n");
}

#[test]
fn projects_are_listed_in_the_order_of_registration() {
    let mut database = Database::new(None);
    for (name, path) in [("zeta", "/z"), ("alpha", "/a"), ("mid", "/m")] {
        database
            .add_project(ProjectName::parse(name.into()), path.into())
            .unwrap();
    }
    let names: Vec<String> = database
        .list_projects()
        .iter()
        .map(|n| n.to_string())
        .collect();
    assert_eq!(names, vec!["zeta", "alpha", "mid"]);
    database
        .remove_project(ProjectName::parse("alpha".into()))
        .unwrap();
    assert_eq!(
        database.to_string().unwrap(),
        "[projects]\nzeta = \"/z\"\nmid = \"/m\"\n"
    );
}

#[test]
fn going_to_an_unregistered_project_is_refused() {
    let database = Database::new(None);
    let name = ProjectName::parse("demo".into());
    let err = database.go_to_project(&name, true, None).unwrap_err();
    assert_eq!(err, Error::ProjectNotFound(name));
    assert_eq!(
        err.to_string(),
        "Project \u{1b}[1mdemo\u{1b}[0m was \u{1b}[1m\u{1b}[31mnot found\u{1b}[39m\u{1b}[0m on database! Are you sure you registered it?"
    );
}

#[test]
fn going_to_a_project_whose_directory_is_gone_is_refused() {
    let mut database = Database::new(None);
    let name = ProjectName::parse("demo".into());
    database.add_project(name.clone(), "/tmp/demo".into()).unwrap();
    let err = database.go_to_project(&name, false, None).unwrap_err();
    assert_eq!(err, Error::NotADirectory("/tmp/demo".into()));
    assert_eq!(
        err.to_string(),
        "I dont know how to tell you this, but there was a problem with the registry.\nApparently \u{1b}[1m/tmp/demo\u{1b}[0m directory \u{1b}[1m\u{1b}[31mis missing\u{1b}[39m\u{1b}[0m or \u{1b}[1m\u{1b}[31mis not a directory\u{1b}[39m\u{1b}[0m."
    );
}

#[test]
fn going_to_a_project_gives_the_cd_command_and_the_hook() {
    let mut database = Database::new(None);
    let name = ProjectName::parse("demo".into());
    database.add_project(name.clone(), "/tmp/demo".into()).unwrap();

    assert_eq!(
        database.go_to_project(&name, true, None).unwrap(),
        ("cd /tmp/demo".to_string(), None)
    );
    let file = "name = \"demo\"\nhook = [\"build\", \"test\"]\n\n[scripts]\ntest = \"cargo test\"\nbuild = \"cargo build\"\n";
    assert_eq!(
        database.go_to_project(&name, true, Some(file)).unwrap(),
        (
            "cd /tmp/demo".to_string(),
            Some("cargo build; cargo test".to_string())
        )
    );
    let simple = "name = \"demo\"\nhook = \"ls\"\n";
    assert_eq!(
        database.get_project_hook_cmd(&name, Some(simple)),
        Some("ls".to_string())
    );
    assert_eq!(
        database.go_to_project(&name, true, Some("not a project")).unwrap(),
        ("cd /tmp/demo".to_string(), None)
    );
    assert_eq!(
        database.go_to_project(&name, true, Some("")).unwrap(),
        ("cd /tmp/demo".to_string(), None)
    );
}

#[test]
fn navigation_prints_greeting_cd_and_hook() {
    let name = ProjectName::parse("demo".into());
    assert_eq!(
        navigation_lines(&name, "cd /tmp/demo", &None),
        vec![
            "echo \"Krabby is taking you to \u{1b}[1mdemo\u{1b}[0m!\";".to_string(),
            "cd /tmp/demo".to_string(),
        ]
    );
    assert_eq!(
        navigation_lines(&name, "cd /tmp/demo", &Some("ls".to_string())),
        vec![
            "echo \"Krabby is taking you to \u{1b}[1mdemo\u{1b}[0m!\";".to_string(),
            "cd /tmp/demo".to_string(),
            "echo \"Running hook:\n\u{1b}[1mls\u{1b}[0m\"".to_string(),
            "ls".to_string(),
        ]
    );
}

#[test]
fn opening_an_empty_registry_file_creates_it() {
    let opened = Database::from_file("/tmp/krabby.db".into(), "").unwrap();
    assert_eq!(opened.created, Some("[projects]\n".to_string()));
    assert_eq!(opened.database, Database::new(Some("/tmp/krabby.db".into())));

    let opened = Database::from_file("/tmp/krabby.db".into(), "[projects]\ndemo = \"/tmp/demo\"\n").unwrap();
    assert_eq!(opened.created, None);
    assert_eq!(opened.database.path(), Some(&"/tmp/krabby.db".to_string()));
    assert_eq!(
        opened.database.list_projects(),
        vec![ProjectName::parse("demo".into())]
    );
}

#[test]
fn text_that_is_no_registry_is_refused() {
    for text in ["", "projects = 3\n", "[projects]\ndemo = 1\n", "[projects", "[projects]\n\"a/b\" = \"/x\"\n"] {
        let err = Database::from_str(text).unwrap_err();
        assert_eq!(err, Error::DatabaseUnreadable(text.to_string()));
    }
    assert_eq!(
        Database::from_str("[projects").unwrap_err().to_string(),
        "Failed to parse Database from string:\n[projects"
    );
}

#[test]
fn registry_text_round_trips() {
    let mut database = Database::new(None);
    for (name, path) in [("zeta", "/z z"), ("alpha", "/a\"quoted\""), ("mid", "/m\\n")] {
        database
            .add_project(ProjectName::parse(name.into()), path.into())
            .unwrap();
    }
    let text = database.to_string().unwrap();
    assert_eq!(Database::from_str(&text).unwrap(), database);
}
