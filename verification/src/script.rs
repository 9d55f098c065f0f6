//! Scripts: a command line kept under a name within a project.

use crate::name::{find_name_defect, is_name, name_defect, NameError};
use crate::text::{is_blank, str_is_blank};
use vstd::prelude::*;
use vstd::std_specs::cmp::PartialEqSpecImpl;

verus! {

/// The name of a script: a string that satisfies [`is_name`].
#[derive(Debug, Eq, Hash)]
pub struct ScriptName(String);

impl View for ScriptName {
    type V = Seq<char>;

    closed spec fn view(&self) -> Seq<char> {
        self.0@
    }
}

impl ScriptName {
    #[verifier::type_invariant]
    spec fn valid(self) -> bool {
        is_name(self.0@)
    }

    /// Takes `s` as a name. The caller has to know that it is one.
    pub fn parse(s: String) -> (r: Self)
        requires
            is_name(s@),
        ensures
            r@ == s@,
    {
        ScriptName(s)
    }

    /// Takes `s` as a name if it is one, and says which rule it breaks if not.
    pub fn try_parse(s: String) -> (r: Result<Self, NameError>)
        ensures
            match r {
                Ok(name) => name_defect(s@) is None && name@ == s@,
                Err(e) => name_defect(s@) == Some(e),
            },
    {
        match find_name_defect(s.as_str()) {
            None => Ok(ScriptName(s)),
            Some(e) => Err(e),
        }
    }

    /// The name as text.
    pub fn as_str(&self) -> (r: &str)
        ensures
            r@ == self@,
            is_name(self@),
    {
        proof {
            use_type_invariant(self);
        }
        self.0.as_str()
    }

    /// The name as an owned string, unchanged.
    pub fn to_string(&self) -> (r: String)
        ensures
            r@ == self@,
            is_name(self@),
    {
        proof {
            use_type_invariant(self);
        }
        self.0.clone()
    }
}

impl Clone for ScriptName {
    fn clone(&self) -> (r: Self)
        ensures
            r@ == self@,
    {
        proof {
            use_type_invariant(self);
        }
        ScriptName(self.0.clone())
    }
}

impl Default for ScriptName {
    /// The name `hello`.
    fn default() -> (r: Self)
        ensures
            r@ == "hello"@,
    {
        proof {
            reveal_strlit("hello");
            assert(!is_blank("hello"@)) by {
                assert(!crate::text::is_space("hello"@[0]));
            }
        }
        ScriptName(String::from_str("hello"))
    }
}

impl PartialEq for ScriptName {
    fn eq(&self, other: &Self) -> (r: bool) {
        self.0 == other.0
    }
}

impl PartialEqSpecImpl for ScriptName {
    open spec fn obeys_eq_spec() -> bool {
        true
    }

    open spec fn eq_spec(&self, other: &Self) -> bool {
        self@ == other@
    }
}

/// The command that stands in for a blank one.
pub open spec fn default_command() -> Seq<char> {
    "echo 'Krabby says hi!'"@
}

/// What [`Command::parse`] keeps of `s`: the greeting if `s` is blank, else `s`.
pub open spec fn command_text(s: Seq<char>) -> Seq<char> {
    if is_blank(s) {
        default_command()
    } else {
        s
    }
}

/// A shell command line. Its syntax is not looked at.
#[derive(Debug, Eq)]
pub struct Command(String);

impl View for Command {
    type V = Seq<char>;

    closed spec fn view(&self) -> Seq<char> {
        self.0@
    }
}

impl Command {
    /// Keeps `s` as it is, unless it is blank: then the command is the
    /// greeting [`default_command`].
    pub fn parse(s: String) -> (r: Self)
        ensures
            r@ == command_text(s@),
    {
        if str_is_blank(s.as_str()) {
            Command(String::from_str("echo 'Krabby says hi!'"))
        } else {
            Command(s)
        }
    }

    /// The command line `s` exactly as a project keeps it.
    pub(crate) fn stored(s: String) -> (r: Self)
        ensures
            r@ == s@,
    {
        Command(s)
    }

    /// The command line as text.
    pub fn as_str(&self) -> (r: &str)
        ensures
            r@ == self@,
    {
        self.0.as_str()
    }

    /// The command line as an owned string, unchanged.
    pub fn to_string(&self) -> (r: String)
        ensures
            r@ == self@,
    {
        self.0.clone()
    }
}

impl Clone for Command {
    fn clone(&self) -> (r: Self)
        ensures
            r@ == self@,
    {
        Command(self.0.clone())
    }
}

impl PartialEq for Command {
    fn eq(&self, other: &Self) -> (r: bool) {
        self.0 == other.0
    }
}

impl PartialEqSpecImpl for Command {
    open spec fn obeys_eq_spec() -> bool {
        true
    }

    open spec fn eq_spec(&self, other: &Self) -> bool {
        self@ == other@
    }
}

/// What a [`Script`] stands for: its name and its command line.
pub struct ScriptView {
    pub name: Seq<char>,
    pub command: Seq<char>,
}

/// A command line together with the name under which a project keeps it.
/// Only the command is written to a project file; the name is the key of the
/// entry, and a script read back gets its name from there.
#[derive(Debug, Eq)]
pub struct Script {
    pub command: Command,
    pub name: ScriptName,
}

impl View for Script {
    type V = ScriptView;

    open spec fn view(&self) -> ScriptView {
        ScriptView { name: self.name@, command: self.command@ }
    }
}

impl Script {
    /// A script called `name` that runs `command`.
    pub fn new(name: ScriptName, command: Command) -> (r: Self)
        ensures
            r@ == (ScriptView { name: name@, command: command@ }),
    {
        Self { name, command }
    }

    /// The text to hand to the shell: the command line, without the name.
    pub fn echo(&self) -> (r: String)
        ensures
            r@ == self@.command,
    {
        self.command.to_string()
    }

    /// Gives the script another name and leaves its command alone.
    pub fn set_name(&mut self, name: ScriptName)
        ensures
            final(self)@ == (ScriptView { name: name@, command: old(self)@.command }),
    {
        self.name = name;
    }

    /// The script as text: its command line.
    pub fn to_string(&self) -> (r: String)
        ensures
            r@ == self@.command,
    {
        self.command.to_string()
    }
}

impl Clone for Script {
    fn clone(&self) -> (r: Self)
        ensures
            r@ == self@,
    {
        Script { command: self.command.clone(), name: self.name.clone() }
    }
}

impl PartialEq for Script {
    fn eq(&self, other: &Self) -> (r: bool) {
        self.name == other.name && self.command == other.command
    }
}

impl PartialEqSpecImpl for Script {
    open spec fn obeys_eq_spec() -> bool {
        true
    }

    open spec fn eq_spec(&self, other: &Self) -> bool {
        self@.name == other@.name && self@.command == other@.command
    }
}

} // verus!
