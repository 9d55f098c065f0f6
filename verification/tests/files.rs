use krabby::document::{Document, Item};
use krabby::error::Error;
use krabby::hook::ProjectHook;
use krabby::project::{Project, ProjectName};
use krabby::script::{Command, Script, ScriptName};
use krabby::toml_text::{parse_document, render_document};

#[test]
fn opening_an_empty_project_file_creates_it() {
    let opened = Project::from_file(
        "/tmp/demo/krabby.toml".into(),
        "",
        ProjectName::parse("demo".into()),
    )
    .unwrap();
    assert_eq!(opened.created, Some("name = \"demo\"\n".to_string()));
    assert_eq!(
        opened.project,
        Project::new(
            ProjectName::parse("demo".into()),
            Some("/tmp/demo/krabby.toml".into())
        )
    );

    let opened = Project::from_file(
        "/tmp/demo/krabby.toml".into(),
        "name = \"other\"\nhook = \"ls\"\n",
        ProjectName::parse("demo".into()),
    )
    .unwrap();
    assert_eq!(opened.created, None);
    assert_eq!(opened.project.name().to_string(), "other");
    assert_eq!(opened.project.path(), Some(&"/tmp/demo/krabby.toml".to_string()));
    assert_eq!(opened.project.hook(), &Some(ProjectHook::Simple("ls".into())));
}

#[test]
fn text_that_is_no_project_is_refused() {
    for text in [
        "",
        "hook = \"ls\"\n",
        "name = 3\n",
        "name = \"a/b\"\n",
        "name = \"demo\"\nhook = 3\n",
        "name = \"demo\"\nhook = [1, 2]\n",
        "name = \"demo\"\nhook = [\"a/b\"]\n",
        "name = \"demo\"\nscripts = \"ls\"\n",
        "name = \"demo\"\n[scripts]\nbuild = 1\n",
        "name = \"demo\"\n[scripts]\n\"a/b\" = \"ls\"\n",
        "name = ",
    ] {
        let err = Project::from_str(text).unwrap_err();
        assert_eq!(err, Error::ProjectUnreadable(text.to_string()), "{:?}", text);
    }
    assert_eq!(
        Project::from_str("name = ").unwrap_err().to_string(),
        "Krabby couldn't parse project from string:\nname = "
    );
}

#[test]
fn a_hook_that_names_a_missing_script_is_refused_on_reading() {
    let err = Project::from_str("name = \"demo\"\nhook = [\"build\", \"test\"]\n\n[scripts]\nbuild = \"make\"\n")
        .unwrap_err();
    assert_eq!(err, Error::HookRejected(ScriptName::parse("test".into())));
    assert_eq!(
        err.to_string(),
        "Krabby failed to validate project hook.\n\u{1b}[1mtest\u{1b}[0m is not a valid hook"
    );
}

#[test]
fn entries_that_the_tool_does_not_know_are_passed_over() {
    let project = Project::from_str(
        "version = 3\nname = \"demo\"\ntags = [\"a\", \"b\"]\n\n[scripts]\nbuild = \"make\"\n\n[extra]\nkey = 1\n",
    )
    .unwrap();
    assert_eq!(project.name().to_string(), "demo");
    assert_eq!(project.script_count(), 1);
    assert!(project.hook().is_none());
}

#[test]
fn project_text_round_trips() {
    let mut project = Project::new(ProjectName::parse("demo".into()), None);
    for (name, command) in [
        ("zeta", "echo \"z\""),
        ("alpha", "printf 'a\\n'"),
        ("mid", "ls | wc -l # count\n"),
    ] {
        let name = ScriptName::parse(name.to_string());
        project
            .add_script(name.clone(), Script::new(name, Command::parse(command.to_string())))
            .unwrap();
    }
    let text = project.to_string().unwrap();
    assert_eq!(Project::from_str(&text).unwrap(), project);

    project
        .store_hook(Some(ProjectHook::ScriptArray(vec![
            ScriptName::parse("mid".into()),
            ScriptName::parse("zeta".into()),
        ])))
        .unwrap();
    let text = project.to_string().unwrap();
    assert_eq!(
        text,
        "name = \"demo\"\nhook = [\"mid\", \"zeta\"]\n\n[scripts]\nzeta = \"echo \\\"z\\\"\"\nalpha = \"printf 'a\\\\n'\"\nmid = \"ls | wc -l # count\\n\"\n"
    );
    assert_eq!(Project::from_str(&text).unwrap(), project);

    project
        .store_hook(Some(ProjectHook::Simple("echo \"hi\"".into())))
        .unwrap();
    let text = project.to_string().unwrap();
    assert_eq!(Project::from_str(&text).unwrap(), project);
}

#[test]
fn the_path_is_not_written() {
    let with_path = Project::new(ProjectName::parse("demo".into()), Some("/tmp/x".into()));
    let without = Project::new(ProjectName::parse("demo".into()), None);
    assert_ne!(with_path, without);
    assert_eq!(with_path.to_string().unwrap(), without.to_string().unwrap());
    assert_eq!(with_path.to_document(), without.to_document());
    assert_eq!(
        Project::from_document(&with_path.to_document()).unwrap(),
        without
    );
}

#[test]
fn documents_are_read_in_the_order_of_the_text() {
    let doc = parse_document("b = \"2\"\na = [\"x\", \"y\"]\nn = 1\nmixed = [\"x\", 1]\n\n[t]\nz = \"1\"\ny = \"2\"\n\n[u]\nk = true\n").unwrap();
    assert_eq!(
        doc,
        Document {
            entries: vec![
                ("b".to_string(), Item::Text("2".to_string())),
                (
                    "a".to_string(),
                    Item::List(vec!["x".to_string(), "y".to_string()])
                ),
                ("n".to_string(), Item::Other),
                ("mixed".to_string(), Item::Other),
                (
                    "t".to_string(),
                    Item::Table(vec![
                        ("z".to_string(), "1".to_string()),
                        ("y".to_string(), "2".to_string()),
                    ])
                ),
                ("u".to_string(), Item::Other),
            ]
        }
    );
    assert_eq!(doc.get("a"), Some(&Item::List(vec!["x".to_string(), "y".to_string()])));
    assert_eq!(doc.get("missing"), None);
    assert_eq!(parse_document("a = "), None);
    assert_eq!(parse_document(""), Some(Document::new()));
}

#[test]
fn documents_are_written_in_their_order() {
    let mut doc = Document::new();
    doc.push("zeta".into(), Item::Text("z".into()));
    doc.push("list".into(), Item::List(vec!["b".into(), "a".into()]));
    doc.push(
        "table".into(),
        Item::Table(vec![("y".into(), "2".into()), ("x".into(), "1".into())]),
    );
    let text = render_document(&doc).unwrap();
    assert_eq!(
        text,
        "zeta = \"z\"\nlist = [\"b\", \"a\"]\n\n[table]\ny = \"2\"\nx = \"1\"\n"
    );
    assert_eq!(parse_document(&text), Some(doc));
}

#[test]
fn documents_that_cannot_be_written_are_refused() {
    let mut other = Document::new();
    other.push("a".into(), Item::Other);
    assert_eq!(render_document(&other), Err(Error::Unwritable));

    let mut twice = Document::new();
    twice.push("a".into(), Item::Text("1".into()));
    twice.push("a".into(), Item::Text("2".into()));
    assert_eq!(render_document(&twice), Err(Error::Unwritable));

    let mut inner = Document::new();
    inner.push(
        "t".into(),
        Item::Table(vec![("k".into(), "1".into()), ("k".into(), "2".into())]),
    );
    assert_eq!(render_document(&inner), Err(Error::Unwritable));
    assert_eq!(
        Error::Unwritable.to_string(),
        "Failed to write the value as text."
    );
}
