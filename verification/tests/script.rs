use krabby::name::NameError;
use krabby::script::{Command, Script, ScriptName};

#[test]
#[should_panic]
fn script_name_cannot_be_empty() {
    ScriptName::try_parse("".into()).unwrap();
}

#[test]
#[should_panic]
fn script_name_cannot_be_blank() {
    ScriptName::try_parse("  ".into()).unwrap();
}

#[test]
#[should_panic]
fn script_name_cannot_be_over_20_characters() {
    ScriptName::try_parse("iamlongerthan20characters".into()).unwrap();
}

#[test]
fn script_name_cannot_contain_forbidden_characters() {
    let cases = [
        ("i/am/not/allowed".to_string(), "cannot contain slashes"),
        ("i(cantbeallowed".to_string(), "cannot contain parenthesis"),
        ("neither)shouldi".to_string(), "cannot contain parenthesis"),
        ("i\\shouldpanic".to_string(), "cannot contain backslashes"),
        (
            "why\"notallowed".to_string(),
            "cannot contain double quotes",
        ),
        ("shouldnot'be".to_string(), "cannot contain single quotes"),
        ("<antthisbegood".to_string(), "cannot contain lt sign"),
        ("cantthisbegoo>".to_string(), "cannot contain gt sign"),
        ("cantcauseof{".to_string(), "cannot contain bracket"),
        ("cantcauseof}".to_string(), "cannot contain bracket"),
    ];
    for (case, msg) in cases {
        let result = ScriptName::try_parse(case.clone());
        assert!(
            result.is_err(),
            "{} should be a valid script name: {}",
            case,
            msg,
        );
        assert_eq!(result.unwrap_err(), NameError::ForbiddenCharacter);
    }
}

#[test]
fn script_command_defaults_to_hi() {
    let script_cmd = Command::parse("".into());
    assert_eq!(script_cmd, Command::parse(r#"echo 'Krabby says hi!'"#.into()));
    assert_eq!(script_cmd.to_string(), "echo 'Krabby says hi!'");
}

#[test]
fn valid_inputs_creates_valid_script() {
    let script = Script::new(
        ScriptName::parse("hello".into()),
        Command::parse("valid".into()),
    );

    assert_eq!(
        script,
        Script {
            name: ScriptName::parse("hello".into()),
            command: Command::parse("valid".into())
        }
    );
    assert_eq!(script.name.to_string(), "hello");
    assert_eq!(script.command.to_string(), "valid");
}
