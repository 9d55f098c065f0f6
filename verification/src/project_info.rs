//! A project as a plain record: its name, its path, and a list of scripts.

use crate::script::{Script, ScriptView};
use vstd::prelude::*;

verus! {

/// The kinds of failure that a [`ProjectInfo`] reports.
#[derive(Clone, Copy, Debug, PartialEq, Eq, Structural)]
pub enum ErrorKind {
    /// What was asked for is not there.
    NotFound,
}

/// A failure that a [`ProjectInfo`] reports: its kind, and a few words.
#[derive(Debug)]
pub struct InfoError {
    kind: ErrorKind,
    message: String,
}

impl InfoError {
    /// A failure of the kind `NotFound` with the given words.
    fn not_found(message: &str) -> (r: Self)
        ensures
            r.kind == ErrorKind::NotFound,
            r.message@ == message@,
    {
        InfoError { kind: ErrorKind::NotFound, message: message.to_owned() }
    }

    /// The kind of the failure.
    pub fn kind(&self) -> (r: ErrorKind)
        ensures
            r == self.spec_kind(),
    {
        self.kind
    }

    /// The kind of the failure.
    pub closed spec fn spec_kind(&self) -> ErrorKind {
        self.kind
    }

    /// The words that go with the failure.
    pub closed spec fn spec_message(&self) -> Seq<char> {
        self.message@
    }

    /// The words that go with the failure.
    pub fn to_string(&self) -> (r: String)
        ensures
            r@ == self.spec_message(),
    {
        self.message.clone()
    }
}

/// A project as a record: its name, its path, and its scripts, if any were
/// configured.
#[derive(Debug, PartialEq)]
pub struct ProjectInfo {
    pub name: String,
    pub path: String,
    pub scripts: Option<Vec<Script>>,
}

/// The views of the scripts in `v`.
pub open spec fn script_views(v: Seq<Script>) -> Seq<ScriptView> {
    Seq::new(v.len(), |i: int| v[i]@)
}

/// Whether `scripts[i]` is the first script called `alias`.
pub open spec fn first_named(scripts: Seq<ScriptView>, alias: Seq<char>, i: int) -> bool {
    &&& 0 <= i < scripts.len()
    &&& scripts[i].name == alias
    &&& forall|j: int| 0 <= j < i ==> (#[trigger] scripts[j]).name != alias
}

/// Whether a script of `scripts` is called `alias`.
pub open spec fn has_named(scripts: Seq<ScriptView>, alias: Seq<char>) -> bool {
    exists|i: int| 0 <= i < scripts.len() && (#[trigger] scripts[i]).name == alias
}

/// One line for each script: a tab, the script's command, and a line break.
pub open spec fn script_lines(scripts: Seq<ScriptView>) -> Seq<char>
    decreases scripts.len(),
{
    if scripts.len() == 0 {
        Seq::empty()
    } else {
        script_lines(scripts.drop_last()) + "\t"@ + scripts.last().command + "\n"@
    }
}

/// The record as text: the name, the path, and the scripts' lines or the
/// remark that there are none.
pub open spec fn info_text(name: Seq<char>, path: Seq<char>, scripts: Option<Seq<ScriptView>>) -> Seq<
    char,
> {
    "[Project] => "@ + name + "\n"@ + "[Path] => "@ + path + "\n"@ + (match scripts {
        Some(s) => "[Scripts] =>\n"@ + script_lines(s),
        None => "no script configured"@,
    })
}

impl ProjectInfo {
    /// The views of the scripts, if any were configured.
    pub open spec fn scripts_view(&self) -> Option<Seq<ScriptView>> {
        match self.scripts {
            Some(v) => Some(script_views(v@)),
            None => None,
        }
    }

    /// A record of the given name and path, without scripts.
    pub fn new(project: &str, path: &str) -> (r: Result<Self, InfoError>)
        ensures
            r matches Ok(info) && info.name@ == project@ && info.path@ == path@
                && info.scripts is None,
    {
        Ok(ProjectInfo { name: project.to_owned(), path: path.to_owned(), scripts: None })
    }

    /// Whether `pwd`, the directory in which the tool runs, is the project's
    /// path.
    pub fn pwd_is_project_path(&self, pwd: &str) -> (r: bool)
        ensures
            r == (pwd@ == self.path@),
    {
        pwd.to_owned() == self.path
    }

    /// The shell statement that changes into the project's path. `is_dir`
    /// says whether the path is a directory; where it is not, the statement
    /// is withheld.
    pub fn change_to_project_path(&self, is_dir: bool) -> (r: Result<String, InfoError>)
        ensures
            is_dir ==> (r matches Ok(cd) && cd@ == "cd "@ + self.path@),
            !is_dir ==> (r matches Err(e) && e.spec_kind() == ErrorKind::NotFound
                && e.spec_message() == "this path leads to nowhere"@),
    {
        if !is_dir {
            return Err(InfoError::not_found("this path leads to nowhere"));
        }
        let mut cd = String::from_str("cd ");
        cd.append(self.path.as_str());
        Ok(cd)
    }

    /// The project's path.
    pub fn get_path(&self) -> (r: Result<&str, InfoError>)
        ensures
            r matches Ok(p) && p@ == self.path@,
    {
        Ok(self.path.as_str())
    }

    /// The first script called `script_alias`.
    #[verifier::loop_isolation(false)]
    pub fn get_script(&self, script_alias: &str) -> (r: Result<&Script, InfoError>)
        ensures
            match self.scripts_view() {
                Some(scripts) => if has_named(scripts, script_alias@) {
                    r matches Ok(script) && exists|i: int| #[trigger]
                        first_named(scripts, script_alias@, i) && script@ == scripts[i]
                } else {
                    r matches Err(e) && e.spec_kind() == ErrorKind::NotFound && e.spec_message()
                        == "no script found"@
                },
                None => r matches Err(e) && e.spec_kind() == ErrorKind::NotFound
                    && e.spec_message() == "no scripts configured for this project"@,
            },
    {
        match &self.scripts {
            Some(scripts) => {
                let wanted = script_alias.to_owned();
                let mut i: usize = 0;
                while i < scripts.len()
                    invariant
                        i <= scripts.len(),
                        wanted@ == script_alias@,
                        forall|j: int|
                            0 <= j < i ==> (#[trigger] script_views(scripts@)[j]).name
                                != script_alias@,
                    decreases scripts.len() - i,
                {
                    if scripts[i].name.to_string() == wanted {
                        assert(first_named(script_views(scripts@), script_alias@, i as int));
                        return Ok(&scripts[i]);
                    }
                    assert(script_views(scripts@)[i as int].name != script_alias@);
                    i += 1;
                }
                Err(InfoError::not_found("no script found"))
            },
            None => Err(InfoError::not_found("no scripts configured for this project")),
        }
    }

    /// Puts `script` behind the scripts that are there. A script of the same
    /// name may be there already.
    pub fn add_script(&mut self, script: Script) -> (r: Result<(), InfoError>)
        ensures
            r is Ok,
            final(self).name == old(self).name,
            final(self).path == old(self).path,
            final(self).scripts_view() == Some(
                match old(self).scripts_view() {
                    Some(scripts) => scripts.push(script@),
                    None => seq![script@],
                },
            ),
    {
        match &mut self.scripts {
            Some(script_list) => {
                script_list.push(script);
            },
            None => {
                self.scripts = Some(vec![script]);
            },
        }
        proof {
            let want = match old(self).scripts_view() {
                Some(scripts) => scripts.push(script@),
                None => seq![script@],
            };
            assert(self.scripts_view()->0 =~= want);
        }
        Ok(())
    }

    /// The record as text: see [`info_text`].
    pub fn to_string(&self) -> (r: String)
        ensures
            r@ == info_text(self.name@, self.path@, self.scripts_view()),
    {
        let mut out = String::from_str("[Project] => ");
        out.append(self.name.as_str());
        out.append("\n");
        out.append("[Path] => ");
        out.append(self.path.as_str());
        out.append("\n");
        match &self.scripts {
            Some(scripts) => {
                let ghost head = out@;
                let ghost views = script_views(scripts@);
                out.append("[Scripts] =>\n");
                let mut i: usize = 0;
                while i < scripts.len()
                    invariant
                        i <= scripts.len(),
                        views == script_views(scripts@),
                        out@ == head + "[Scripts] =>\n"@ + script_lines(views.take(i as int)),
                    decreases scripts.len() - i,
                {
                    proof {
                        assert(views.take(i + 1).drop_last() =~= views.take(i as int));
                    }
                    out.append("\t");
                    out.append(scripts[i].to_string().as_str());
                    out.append("\n");
                    assert(out@ =~= head + "[Scripts] =>\n"@ + script_lines(views.take(i + 1)));
                    i += 1;
                }
                assert(views.take(scripts.len() as int) =~= views);
                assert(out@ =~= info_text(self.name@, self.path@, self.scripts_view()));
            },
            None => {
                out.append("no script configured");
            },
        }
        out
    }
}

} // verus!
