use krabby::name::{find_name_defect, NameError, MAX_NAME_LEN};
use krabby::project::ProjectName;
use krabby::script::{Command, Script, ScriptName};
use krabby::text::{char_is_space, str_is_blank};

#[test]
fn a_name_is_kept_as_it_was_given() {
    for raw in ["hello", "a", " padded ", "with space", "dash-and_underscore", "12345678901234567890"] {
        let name = ScriptName::try_parse(raw.to_string()).unwrap();
        assert_eq!(name.to_string(), raw);
        assert_eq!(name.as_str(), raw);
        let name = ProjectName::try_parse(raw.to_string()).unwrap();
        assert_eq!(name.to_string(), raw);
        assert_eq!(name.as_str(), raw);
    }
}

#[test]
fn each_rule_has_its_own_failure() {
    assert_eq!(find_name_defect(""), Some(NameError::EmptyName));
    assert_eq!(find_name_defect(" \t\n"), Some(NameError::EmptyName));
    assert_eq!(find_name_defect("\u{a0}\u{3000}"), Some(NameError::EmptyName));
    assert_eq!(
        find_name_defect("123456789012345678901"),
        Some(NameError::TooLong)
    );
    assert_eq!(find_name_defect("a/b"), Some(NameError::ForbiddenCharacter));
    assert_eq!(find_name_defect("a{b"), Some(NameError::ForbiddenCharacter));
    assert_eq!(find_name_defect("ok"), None);
}

#[test]
fn the_first_broken_rule_is_reported() {
    // blank and too long
    assert_eq!(
        ScriptName::try_parse(" ".repeat(30)).unwrap_err(),
        NameError::EmptyName
    );
    // too long and forbidden
    assert_eq!(
        ProjectName::try_parse("/".repeat(30)).unwrap_err(),
        NameError::TooLong
    );
}

#[test]
fn length_is_counted_in_characters() {
    assert_eq!(MAX_NAME_LEN, 20);
    let twenty = "é".repeat(20);
    assert_eq!(twenty.len(), 40);
    assert_eq!(ScriptName::try_parse(twenty.clone()).unwrap().to_string(), twenty);
    assert_eq!(
        ScriptName::try_parse("é".repeat(21)).unwrap_err(),
        NameError::TooLong
    );
}

#[test]
fn white_space_is_what_trimming_removes() {
    for c in ['\t', '\n', '\u{b}', '\u{c}', '\r', ' ', '\u{85}', '\u{a0}', '\u{1680}', '\u{2000}', '\u{200a}', '\u{2028}', '\u{2029}', '\u{202f}', '\u{205f}', '\u{3000}'] {
        assert!(char_is_space(c), "{:?}", c);
        assert!(c.is_whitespace());
    }
    for c in ['a', '0', '\u{8}', '\u{e}', '\u{200b}', '\u{2060}', '\u{feff}', '\u{180e}'] {
        assert!(!char_is_space(c), "{:?}", c);
        assert!(!c.is_whitespace());
    }
    for n in 0..=0x10ffff_u32 {
        if let Some(c) = char::from_u32(n) {
            assert_eq!(char_is_space(c), c.is_whitespace(), "{:?}", c);
        }
    }
    for s in ["", " ", " \t ", "a", " a ", "\u{2003}x"] {
        assert_eq!(str_is_blank(s), s.trim().is_empty());
    }
}

#[test]
fn the_default_script_name_is_hello() {
    assert_eq!(ScriptName::default().to_string(), "hello");
}

#[test]
fn a_blank_command_becomes_the_greeting() {
    assert_eq!(Command::parse("".into()).to_string(), "echo 'Krabby says hi!'");
    assert_eq!(Command::parse("   ".into()).to_string(), "echo 'Krabby says hi!'");
    assert_eq!(Command::parse("x".into()).to_string(), "x");
    assert_eq!(Command::parse(" ls -la ".into()).as_str(), " ls -la ");
}

#[test]
fn a_script_is_shown_as_its_command() {
    let mut script = Script::new(
        ScriptName::parse("build".into()),
        Command::parse("cargo build".into()),
    );
    assert_eq!(script.echo(), "cargo build");
    assert_eq!(script.to_string(), "cargo build");
    script.set_name(ScriptName::parse("compile".into()));
    assert_eq!(script.name.to_string(), "compile");
    assert_eq!(script.command.to_string(), "cargo build");
    assert_eq!(script.clone(), script);
}
