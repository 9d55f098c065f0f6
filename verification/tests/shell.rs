use krabby::shell::{Flavor, Shell};

#[test]
fn script_is_not_empty() {
    let cases = vec![Flavor::Bash, Flavor::Zsh];

    for case in cases {
        let shell = Shell(case);
        assert!(!shell.script().is_empty());
    }
}

#[test]
fn the_function_evaluates_what_the_tool_prints() {
    assert_eq!(
        Shell(Flavor::Bash).script(),
        "kb() {\n    eval \"$(krabby \"$@\")\"\n}\n"
    );
    assert_eq!(Shell(Flavor::Zsh).script(), Shell(Flavor::Bash).script());
}
