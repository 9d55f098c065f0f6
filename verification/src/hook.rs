//! Hooks: what runs when the user switches into a project.

use crate::error::ErrorView;
use crate::script::ScriptName;
use crate::table::{has_key, lookup, Entries};
use vstd::prelude::*;
use vstd::std_specs::cmp::PartialEqSpecImpl;

verus! {

/// What runs on entering a project: the scripts of the given names, one after
/// the other, or one command line given as it is.
#[derive(Debug, Eq)]
pub enum ProjectHook {
    ScriptArray(Vec<ScriptName>),
    Simple(String),
}

/// What a [`ProjectHook`] stands for, with every string as its characters.
pub enum HookView {
    ScriptArray(Seq<Seq<char>>),
    Simple(Seq<char>),
}

/// The names in `v`, each as its characters.
pub open spec fn names_of(v: Seq<ScriptName>) -> Seq<Seq<char>> {
    Seq::new(v.len(), |i: int| v[i]@)
}

impl View for ProjectHook {
    type V = HookView;

    open spec fn view(&self) -> HookView {
        match self {
            ProjectHook::ScriptArray(names) => HookView::ScriptArray(names_of(names@)),
            ProjectHook::Simple(command) => HookView::Simple(command@),
        }
    }
}

/// The view of a hook that may be absent.
pub open spec fn hook_view(hook: Option<ProjectHook>) -> Option<HookView> {
    match hook {
        Some(h) => Some(h@),
        None => None,
    }
}

/// Whether every string in `names` is a key of `scripts`.
pub open spec fn all_present(names: Seq<Seq<char>>, scripts: Entries) -> bool {
    forall|i: int| 0 <= i < names.len() ==> has_key(scripts, #[trigger] names[i])
}

/// Whether every script that `hook` names is a key of `scripts`. A hook that is
/// a command line, and no hook at all, name none.
pub open spec fn hook_valid(hook: Option<HookView>, scripts: Entries) -> bool {
    match hook {
        Some(HookView::ScriptArray(names)) => all_present(names, scripts),
        Some(HookView::Simple(_)) => true,
        None => true,
    }
}

/// Whether `names[i]` is the first of `names` that is no key of `scripts`.
pub open spec fn first_missing(names: Seq<Seq<char>>, scripts: Entries, i: int) -> bool {
    &&& 0 <= i < names.len()
    &&& !has_key(scripts, names[i])
    &&& forall|j: int| 0 <= j < i ==> has_key(scripts, #[trigger] names[j])
}

/// `parts` written one after the other with `sep` between each two.
pub open spec fn join(parts: Seq<Seq<char>>, sep: Seq<char>) -> Seq<char>
    decreases parts.len(),
{
    if parts.len() == 0 {
        Seq::empty()
    } else if parts.len() == 1 {
        parts[0]
    } else {
        join(parts.drop_last(), sep) + sep + parts.last()
    }
}

/// The command lines that `scripts` keeps under `names`, in the order of `names`.
pub open spec fn commands_of(names: Seq<Seq<char>>, scripts: Entries) -> Seq<Seq<char>> {
    Seq::new(names.len(), |i: int| lookup(scripts, names[i]))
}

/// The command line that `hook` comes to: the command itself, or the commands
/// of the named scripts joined by `"; "` in the order given; none without a hook.
pub open spec fn hook_command(hook: Option<HookView>, scripts: Entries) -> Option<Seq<char>> {
    match hook {
        Some(HookView::Simple(command)) => Some(command),
        Some(HookView::ScriptArray(names)) => Some(join(commands_of(names, scripts), "; "@)),
        None => None,
    }
}

/// The first script that `hook` names and `scripts` does not have.
pub open spec fn missing_name(hook: Option<HookView>, scripts: Entries) -> Seq<char> {
    match hook {
        Some(HookView::ScriptArray(names)) => names[choose|i: int|
            first_missing(names, scripts, i)],
        _ => Seq::empty(),
    }
}

/// Whether `hook` may stand in a project with the scripts `scripts`, and the
/// first script that is missing if it may not.
pub open spec fn validate_hook_spec(hook: Option<HookView>, scripts: Entries) -> Result<
    (),
    ErrorView,
> {
    if hook_valid(hook, scripts) {
        Ok(())
    } else {
        Err(ErrorView::InvalidHook(missing_name(hook, scripts)))
    }
}

impl Clone for ProjectHook {
    fn clone(&self) -> (r: Self)
        ensures
            r@ == self@,
    {
        match self {
            ProjectHook::Simple(command) => ProjectHook::Simple(command.clone()),
            ProjectHook::ScriptArray(names) => {
                let mut copy: Vec<ScriptName> = Vec::new();
                let mut i: usize = 0;
                while i < names.len()
                    invariant
                        i <= names.len(),
                        copy.len() == i,
                        forall|j: int| 0 <= j < i ==> copy[j]@ == names[j]@,
                    decreases names.len() - i,
                {
                    copy.push(names[i].clone());
                    i += 1;
                }
                assert(names_of(copy@) =~= names_of(names@));
                ProjectHook::ScriptArray(copy)
            },
        }
    }
}

impl PartialEq for ProjectHook {
    #[verifier::loop_isolation(false)]
    fn eq(&self, other: &Self) -> (r: bool) {
        match (self, other) {
            (ProjectHook::Simple(a), ProjectHook::Simple(b)) => *a == *b,
            (ProjectHook::ScriptArray(a), ProjectHook::ScriptArray(b)) => {
                if a.len() != b.len() {
                    assert(names_of(a@).len() != names_of(b@).len());
                    return false;
                }
                let mut i: usize = 0;
                while i < a.len()
                    invariant
                        i <= a.len(),
                        a.len() == b.len(),
                        forall|j: int| 0 <= j < i ==> a[j]@ == b[j]@,
                    decreases a.len() - i,
                {
                    if !(a[i] == b[i]) {
                        assert(names_of(a@)[i as int] != names_of(b@)[i as int]);
                        return false;
                    }
                    i += 1;
                }
                assert(names_of(a@) =~= names_of(b@));
                true
            },
            _ => false,
        }
    }
}

impl PartialEqSpecImpl for ProjectHook {
    open spec fn obeys_eq_spec() -> bool {
        true
    }

    open spec fn eq_spec(&self, other: &Self) -> bool {
        self@ == other@
    }
}

/// The failure of a hook's validation names [`missing_name`].
pub proof fn lemma_missing_name(hook: Option<HookView>, scripts: Entries, name: Seq<char>)
    requires
        hook matches Some(HookView::ScriptArray(names)) && exists|i: int| #[trigger]
            first_missing(names, scripts, i) && name == names[i],
    ensures
        missing_name(hook, scripts) == name,
        !hook_valid(hook, scripts),
{
    let names = hook->0->ScriptArray_0;
    let i = choose|i: int| #[trigger] first_missing(names, scripts, i) && name == names[i];
    let j = choose|j: int| first_missing(names, scripts, j);
    assert(first_missing(names, scripts, j));
    if j < i {
        assert(has_key(scripts, names[j]));
    }
    if i < j {
        assert(has_key(scripts, names[i]));
    }
}

/// A hook that names one script is valid exactly where that script is there.
pub proof fn lemma_hook_needs_script(scripts: Entries, script: Seq<char>)
    ensures
        hook_valid(Some(HookView::ScriptArray(seq![script])), scripts) <==> has_key(
            scripts,
            script,
        ),
{
    let names = seq![script];
    assert(names.len() == 1 && names[0] == script);
    if has_key(scripts, script) {
        assert forall|i: int| 0 <= i < names.len() implies has_key(scripts, #[trigger] names[i]) by {
            assert(names[i] == script);
        }
    }
    if all_present(names, scripts) {
        assert(has_key(scripts, names[0]));
    }
}

/// Among the names of a hook that is not valid, one is the first to be missing.
pub proof fn lemma_first_missing_exists(names: Seq<Seq<char>>, scripts: Entries)
    requires
        !hook_valid(Some(HookView::ScriptArray(names)), scripts),
    ensures
        exists|i: int| first_missing(names, scripts, i),
    decreases names.len(),
{
    let k = choose|k: int| 0 <= k < names.len() && !has_key(scripts, #[trigger] names[k]);
    if forall|j: int| 0 <= j < k ==> has_key(scripts, #[trigger] names[j]) {
        assert(first_missing(names, scripts, k));
    } else {
        let shorter = names.take(k);
        let j = choose|j: int| 0 <= j < k && !has_key(scripts, #[trigger] names[j]);
        assert(0 <= j < k && !has_key(scripts, names[j]));
        assert(shorter[j] == names[j]);
        if all_present(shorter, scripts) {
            assert(has_key(scripts, shorter[j]));
        }
        lemma_first_missing_exists(shorter, scripts);
        let i = choose|i: int| first_missing(shorter, scripts, i);
        assert(first_missing(names, scripts, i)) by {
            assert(shorter[i] == names[i]);
            assert forall|j: int| 0 <= j < i implies has_key(scripts, #[trigger] names[j]) by {
                assert(shorter[j] == names[j]);
            }
        }
    }
}

/// Joining one more part puts the separator before it, unless it is the first.
pub proof fn lemma_join_push(parts: Seq<Seq<char>>, sep: Seq<char>, part: Seq<char>)
    ensures
        join(parts.push(part), sep) == if parts.len() == 0 {
            part
        } else {
            join(parts, sep) + sep + part
        },
{
    assert(parts.push(part).drop_last() =~= parts);
}

} // verus!
