//! Projects: a name, a table of scripts, and an optional hook that runs when
//! the user switches into the project.

use crate::error::{Error, ErrorView};
use crate::hook::{
    commands_of, first_missing, hook_command, hook_valid, hook_view, join, lemma_first_missing_exists,
    lemma_join_push, lemma_missing_name, names_of, validate_hook_spec, HookView, ProjectHook,
};
use crate::name::{find_name_defect, is_name, name_defect, NameError};
use crate::script::{Command, Script, ScriptName, ScriptView};
use crate::table::{
    distinct_keys, entries, has_key, key_index, lemma_remove_key, lookup, named_table,
    table_contains_key, table_get, table_get_index, table_insert, table_len, table_new,
    table_shift_remove, tables_equal, Entries,
};
use crate::text::{opt_strings_equal, opt_view};
use indexmap::IndexMap;
use vstd::prelude::*;
use vstd::std_specs::cmp::PartialEqSpecImpl;

verus! {

/// The name of a project: a string that satisfies [`is_name`].
#[derive(Debug, Eq, Hash)]
pub struct ProjectName(String);

impl View for ProjectName {
    type V = Seq<char>;

    closed spec fn view(&self) -> Seq<char> {
        self.0@
    }
}

impl ProjectName {
    #[verifier::type_invariant]
    spec fn valid(self) -> bool {
        is_name(self.0@)
    }

    /// Takes `s` as a name. The caller has to know that it is one.
    pub fn parse(s: String) -> (r: Self)
        requires
            is_name(s@),
        ensures
            r@ == s@,
    {
        ProjectName(s)
    }

    /// Takes `s` as a name if it is one, and says which rule it breaks if not.
    pub fn try_parse(s: String) -> (r: Result<Self, NameError>)
        ensures
            match r {
                Ok(name) => name_defect(s@) is None && name@ == s@,
                Err(e) => name_defect(s@) == Some(e),
            },
    {
        match find_name_defect(s.as_str()) {
            None => Ok(ProjectName(s)),
            Some(e) => Err(e),
        }
    }

    /// The name as text.
    pub fn as_str(&self) -> (r: &str)
        ensures
            r@ == self@,
            is_name(self@),
    {
        proof {
            use_type_invariant(self);
        }
        self.0.as_str()
    }

    /// The name as an owned string, unchanged.
    pub fn to_string(&self) -> (r: String)
        ensures
            r@ == self@,
            is_name(self@),
    {
        proof {
            use_type_invariant(self);
        }
        self.0.clone()
    }
}

impl Clone for ProjectName {
    fn clone(&self) -> (r: Self)
        ensures
            r@ == self@,
    {
        proof {
            use_type_invariant(self);
        }
        ProjectName(self.0.clone())
    }
}

impl PartialEq for ProjectName {
    fn eq(&self, other: &Self) -> (r: bool) {
        self.0 == other.0
    }
}

impl PartialEqSpecImpl for ProjectName {
    open spec fn obeys_eq_spec() -> bool {
        true
    }

    open spec fn eq_spec(&self, other: &Self) -> bool {
        self@ == other@
    }
}

/// What a [`Project`] stands for.
pub struct ProjectView {
    /// The project's name.
    pub name: Seq<char>,
    /// Where the project's file lies, once that is known.
    pub path: Option<Seq<char>>,
    /// What runs on entering the project.
    pub hook: Option<HookView>,
    /// The scripts, each a name and its command line, in the order of their
    /// addition.
    pub scripts: Entries,
}

/// One project: its name, its scripts in the order of their addition, and an
/// optional hook. The place of its file is known for this run only and is not
/// part of what is written to the file.
#[derive(Debug, Eq)]
pub struct Project {
    name: ProjectName,
    path: Option<String>,
    hook: Option<ProjectHook>,
    scripts: IndexMap<String, String>,
}

impl View for Project {
    type V = ProjectView;

    closed spec fn view(&self) -> ProjectView {
        ProjectView {
            name: self.name@,
            path: opt_view(self.path),
            hook: hook_view(self.hook),
            scripts: entries(self.scripts),
        }
    }
}

/// What adding the command line `command` under `name` makes of `p`: the
/// script goes behind the others, unless the name is taken.
pub open spec fn add_script_spec(p: ProjectView, name: Seq<char>, command: Seq<char>) -> Result<
    ProjectView,
    ErrorView,
> {
    if has_key(p.scripts, name) {
        Err(ErrorView::ScriptExists(name))
    } else {
        Ok(ProjectView { scripts: p.scripts.push((name, command)), ..p })
    }
}

/// What removing the script called `name` makes of `p`: the script leaves and
/// the others keep their order, unless there is no such script.
pub open spec fn remove_script_spec(p: ProjectView, name: Seq<char>) -> Result<
    ProjectView,
    ErrorView,
> {
    if has_key(p.scripts, name) {
        Ok(ProjectView { scripts: p.scripts.remove(key_index(p.scripts, name)), ..p })
    } else {
        Err(ErrorView::ScriptNotFound(name))
    }
}

/// What storing `hook` makes of `p`: the hook replaces the one that was there,
/// unless it names a script that `p` does not have.
pub open spec fn store_hook_spec(p: ProjectView, hook: Option<HookView>) -> Result<
    ProjectView,
    ErrorView,
> {
    match validate_hook_spec(hook, p.scripts) {
        Ok(_) => Ok(ProjectView { hook, ..p }),
        Err(e) => Err(e),
    }
}

/// The command line of the hook of `p`, or the failure of the hook's
/// validation.
pub open spec fn hook_cmd_spec(p: ProjectView) -> Result<Option<Seq<char>>, ErrorView> {
    match validate_hook_spec(p.hook, p.scripts) {
        Ok(_) => Ok(hook_command(p.hook, p.scripts)),
        Err(e) => Err(e),
    }
}

impl Project {
    #[verifier::type_invariant]
    spec fn valid(self) -> bool {
        named_table(entries(self.scripts))
    }

    /// A project without scripts and without a hook.
    pub fn new(name: ProjectName, path: Option<String>) -> (r: Self)
        ensures
            r@ == (ProjectView {
                name: name@,
                path: opt_view(path),
                hook: None,
                scripts: Seq::empty(),
            }),
    {
        Project { name, path, scripts: table_new(), hook: None }
    }

    /// A project of the given parts, bound to no path.
    pub(crate) fn from_parts(name: ProjectName, hook: Option<ProjectHook>, scripts: IndexMap<String, String>) -> (r: Self)
        requires
            named_table(entries(scripts)),
        ensures
            r@ == (ProjectView {
                name: name@,
                path: None,
                hook: hook_view(hook),
                scripts: entries(scripts),
            }),
    {
        Project { name, path: None, hook, scripts }
    }

    /// The table of the scripts.
    pub(crate) fn table(&self) -> (r: &IndexMap<String, String>)
        ensures
            entries(*r) == self@.scripts,
            named_table(self@.scripts),
    {
        proof {
            use_type_invariant(self);
        }
        &self.scripts
    }

    /// The project's name.
    pub fn name(&self) -> (r: &ProjectName)
        ensures
            r@ == self@.name,
    {
        &self.name
    }

    /// Where the project's file lies, if that is known.
    pub fn path(&self) -> (r: Option<&String>)
        ensures
            match r {
                Some(p) => self@.path == Some(p@),
                None => self@.path is None,
            },
    {
        self.path.as_ref()
    }

    /// Binds the project to the place of its file.
    pub fn set_path(&mut self, path: String)
        ensures
            final(self)@ == (ProjectView { path: Some(path@), ..old(self)@ }),
    {
        proof {
            use_type_invariant(&*self);
        }
        self.path = Some(path);
    }

    /// The number of scripts.
    pub fn script_count(&self) -> (n: usize)
        ensures
            n == self@.scripts.len(),
            named_table(self@.scripts),
    {
        proof {
            use_type_invariant(self);
        }
        table_len(&self.scripts)
    }

    /// The scripts in the order of their addition, each under the name that it
    /// is kept by.
    pub fn scripts(&self) -> (r: Vec<Script>)
        ensures
            r.len() == self@.scripts.len(),
            forall|i: int|
                0 <= i < r.len() ==> (#[trigger] r[i])@ == (ScriptView {
                    name: self@.scripts[i].0,
                    command: self@.scripts[i].1,
                }),
    {
        proof {
            use_type_invariant(self);
        }
        let mut out: Vec<Script> = Vec::new();
        let n = table_len(&self.scripts);
        let mut i: usize = 0;
        while i < n
            invariant
                i <= n,
                n == entries(self.scripts).len(),
                named_table(entries(self.scripts)),
                out.len() == i,
                forall|j: int|
                    0 <= j < i ==> (#[trigger] out[j])@ == (ScriptView {
                        name: entries(self.scripts)[j].0,
                        command: entries(self.scripts)[j].1,
                    }),
            decreases n - i,
        {
            if let Some(pair) = table_get_index(&self.scripts, i) {
                let name = ScriptName::parse(pair.0.clone());
                out.push(Script::new(name, Command::stored(pair.1.clone())));
            }
            i += 1;
        }
        out
    }

    /// The script kept under `script_name`, if there is one.
    pub fn get_script(&self, script_name: &ScriptName) -> (r: Option<Script>)
        ensures
            match r {
                Some(script) => has_key(self@.scripts, script_name@) && script@ == (ScriptView {
                    name: script_name@,
                    command: lookup(self@.scripts, script_name@),
                }),
                None => !has_key(self@.scripts, script_name@),
            },
    {
        match table_get(&self.scripts, script_name.as_str()) {
            Some(command) => Some(Script::new(script_name.clone(), Command::stored(command.clone()))),
            None => None,
        }
    }

    /// Takes the script of the given name out of the project. The scripts that
    /// stay keep their order. A hook that names the script is left as it is.
    pub fn remove_script(&mut self, script_name: ScriptName) -> (r: Result<(), Error>)
        ensures
            match remove_script_spec(old(self)@, script_name@) {
                Ok(v) => r is Ok && final(self)@ == v,
                Err(e) => (r matches Err(x) && x@ == e) && final(self)@ == old(self)@,
            },
    {
        proof {
            use_type_invariant(&*self);
        }
        let mut scripts = table_new();
        std::mem::swap(&mut self.scripts, &mut scripts);
        let removed = table_shift_remove(&mut scripts, script_name.as_str());
        self.scripts = scripts;
        match removed {
            Some(_) => Ok(()),
            None => Err(Error::ScriptNotFound(script_name)),
        }
    }

    /// Puts the command of `script` into the project under `name`, behind the
    /// scripts that are there, unless a script of that name is there already.
    pub fn add_script(&mut self, name: ScriptName, script: Script) -> (r: Result<(), Error>)
        ensures
            match add_script_spec(old(self)@, name@, script@.command) {
                Ok(v) => r is Ok && final(self)@ == v,
                Err(e) => (r matches Err(x) && x@ == e) && final(self)@ == old(self)@,
            },
    {
        proof {
            use_type_invariant(&*self);
        }
        if table_contains_key(&self.scripts, name.as_str()) {
            return Err(Error::ScriptExists(name));
        }
        let mut scripts = table_new();
        std::mem::swap(&mut self.scripts, &mut scripts);
        let _ = table_insert(&mut scripts, name.to_string(), script.command.to_string());
        self.scripts = scripts;
        Ok(())
    }

    /// The project's hook.
    pub fn hook(&self) -> (r: &Option<ProjectHook>)
        ensures
            hook_view(*r) == self@.hook,
    {
        &self.hook
    }

    /// Stores `hook` if every script that it names is there, and hands back
    /// the command line that it comes to. A hook that names a missing script
    /// is refused and the project keeps the hook that it had.
    pub fn store_hook(&mut self, hook: Option<ProjectHook>) -> (r: Result<Option<String>, Error>)
        ensures
            match store_hook_spec(old(self)@, hook_view(hook)) {
                Ok(v) => final(self)@ == v && (r matches Ok(command) && opt_view(command)
                    == hook_command(v.hook, v.scripts)),
                Err(e) => (r matches Err(x) && x@ == e) && final(self)@ == old(self)@,
            },
    {
        proof {
            use_type_invariant(&*self);
        }
        match self.validate_hook(&hook) {
            Ok(_) => {
                self.hook = hook;
                Ok(self.get_hook_cmd())
            },
            Err(e) => Err(e),
        }
    }

    /// The command line that the stored hook comes to: the hook's own command,
    /// or the commands of the scripts that it names, joined by `"; "` in the
    /// hook's order. The hook has to name only scripts that are there.
    pub fn get_hook_cmd(&self) -> (r: Option<String>)
        requires
            hook_valid(self@.hook, self@.scripts),
        ensures
            opt_view(r) == hook_command(self@.hook, self@.scripts),
    {
        match &self.hook {
            Some(ProjectHook::Simple(command)) => Some(command.clone()),
            Some(ProjectHook::ScriptArray(hooks)) => {
                let ghost parts = commands_of(names_of(hooks@), entries(self.scripts));
                let mut out = String::new();
                let mut i: usize = 0;
                while i < hooks.len()
                    invariant
                        i <= hooks.len(),
                        parts == commands_of(names_of(hooks@), entries(self.scripts)),
                        forall|j: int|
                            0 <= j < hooks.len() ==> has_key(
                                entries(self.scripts),
                                #[trigger] names_of(hooks@)[j],
                            ),
                        out@ == join(parts.take(i as int), "; "@),
                    decreases hooks.len() - i,
                {
                    proof {
                        lemma_join_push(parts.take(i as int), "; "@, parts[i as int]);
                        assert(parts.take(i as int).push(parts[i as int]) =~= parts.take(i + 1));
                        assert(has_key(entries(self.scripts), names_of(hooks@)[i as int]));
                    }
                    if i > 0 {
                        out.append("; ");
                    }
                    if let Some(command) = table_get(&self.scripts, hooks[i].as_str()) {
                        out.append(command.as_str());
                    }
                    assert(out@ =~= join(parts.take(i + 1), "; "@));
                    i += 1;
                }
                assert(parts.take(hooks.len() as int) =~= parts);
                Some(out)
            },
            None => None,
        }
    }

    /// The command line that the stored hook comes to, after a look whether
    /// the hook still names only scripts that are there. A script that left
    /// since the hook was stored shows here, as the failure that names it.
    pub fn try_get_hook_cmd(&self) -> (r: Result<Option<String>, Error>)
        ensures
            match hook_cmd_spec(self@) {
                Ok(command) => r matches Ok(c) && opt_view(c) == command,
                Err(e) => r matches Err(x) && x@ == e,
            },
    {
        match self.validate_hook(&self.hook) {
            Ok(_) => Ok(self.get_hook_cmd()),
            Err(e) => Err(e),
        }
    }

    /// Whether every script that `hook` names is in the project. The failure
    /// names the first that is not.
    #[verifier::loop_isolation(false)]
    pub fn validate_hook(&self, hook: &Option<ProjectHook>) -> (r: Result<(), Error>)
        ensures
            match validate_hook_spec(hook_view(*hook), self@.scripts) {
                Ok(_) => r is Ok,
                Err(e) => r matches Err(x) && x@ == e,
            },
    {
        match hook {
            Some(ProjectHook::ScriptArray(hooks)) => {
                let mut i: usize = 0;
                while i < hooks.len()
                    invariant
                        i <= hooks.len(),
                        forall|j: int|
                            0 <= j < i ==> has_key(
                                entries(self.scripts),
                                #[trigger] names_of(hooks@)[j],
                            ),
                    decreases hooks.len() - i,
                {
                    if !table_contains_key(&self.scripts, hooks[i].as_str()) {
                        proof {
                            assert(first_missing(
                                names_of(hooks@),
                                entries(self.scripts),
                                i as int,
                            ));
                            lemma_missing_name(
                                hook_view(*hook),
                                entries(self.scripts),
                                hooks[i as int]@,
                            );
                        }
                        return Err(Error::InvalidHook(hooks[i].clone()));
                    }
                    i += 1;
                }
                Ok(())
            },
            Some(ProjectHook::Simple(_)) => Ok(()),
            None => Ok(()),
        }
    }
}

impl PartialEq for Project {
    fn eq(&self, other: &Self) -> (r: bool) {
        let same_hook = match (&self.hook, &other.hook) {
            (Some(a), Some(b)) => *a == *b,
            (None, None) => true,
            _ => false,
        };
        self.name == other.name && opt_strings_equal(&self.path, &other.path) && same_hook
            && tables_equal(&self.scripts, &other.scripts)
    }
}

impl PartialEqSpecImpl for Project {
    open spec fn obeys_eq_spec() -> bool {
        true
    }

    open spec fn eq_spec(&self, other: &Self) -> bool {
        self@ == other@
    }
}

/// A second script cannot be added under a name that was just used.
pub proof fn lemma_add_script_twice(
    p: ProjectView,
    name: Seq<char>,
    command: Seq<char>,
    again: Seq<char>,
)
    requires
        add_script_spec(p, name, command) is Ok,
    ensures
        add_script_spec(add_script_spec(p, name, command)->Ok_0, name, again) == Err::<
            ProjectView,
            ErrorView,
        >(ErrorView::ScriptExists(name)),
{
    let t = add_script_spec(p, name, command)->Ok_0.scripts;
    assert(t[t.len() - 1].0 == name);
}

/// Once a script leaves that a valid hook names, the hook is valid no more:
/// asking for its command line fails and names that script.
pub proof fn lemma_removed_script_breaks_hook(p: ProjectView, script: Seq<char>)
    requires
        distinct_keys(p.scripts),
        hook_valid(p.hook, p.scripts),
        p.hook matches Some(HookView::ScriptArray(names)) && names.contains(script),
    ensures
        remove_script_spec(p, script) is Ok,
        hook_cmd_spec(remove_script_spec(p, script)->Ok_0) == Err::<Option<Seq<char>>, ErrorView>(
            ErrorView::InvalidHook(script),
        ),
{
    let names = p.hook->0->ScriptArray_0;
    let k = choose|k: int| 0 <= k < names.len() && names[k] == script;
    assert(has_key(p.scripts, names[k]));
    let after = remove_script_spec(p, script)->Ok_0;
    lemma_remove_key(p.scripts, script, script);
    assert(!hook_valid(after.hook, after.scripts)) by {
        assert(!has_key(after.scripts, names[k]));
    }
    lemma_first_missing_exists(names, after.scripts);
    let i = choose|i: int| first_missing(names, after.scripts, i);
    assert(first_missing(names, after.scripts, i));
    if names[i] != script {
        assert(has_key(p.scripts, names[i]));
        lemma_remove_key(p.scripts, script, names[i]);
    }
}

} // verus!
