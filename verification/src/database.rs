//! The registry: which project lies where.

use crate::error::{Error, ErrorView};
use crate::hook::hook_command;
use crate::project::{Project, ProjectName};
use crate::project_file::project_from_text;
use crate::style::{bold, bold_text};
use crate::table::{
    distinct_keys, entries, has_key, key_index, lemma_lookup_at, lemma_push_distinct,
    lemma_remove_key, lookup, named_table, table_get, table_get_index, table_insert, table_len,
    table_new, table_shift_remove, tables_equal, Entries,
};
use crate::text::{opt_strings_equal, opt_view};
use indexmap::IndexMap;
use vstd::prelude::*;
use vstd::std_specs::cmp::PartialEqSpecImpl;

verus! {

/// What a [`Database`] stands for.
pub struct DatabaseView {
    /// The registered projects, each a name and the path of its directory, in
    /// the order of their registration.
    pub projects: Entries,
    /// Where the registry's file lies, once that is known.
    pub path: Option<Seq<char>>,
}

/// The registry of projects: each name with the path of the project's
/// directory, in the order of registration. No name is registered twice. The
/// place of the registry's own file is known for this run only.
#[derive(Debug, Eq)]
pub struct Database {
    projects: IndexMap<String, String>,
    path: Option<String>,
}

impl View for Database {
    type V = DatabaseView;

    closed spec fn view(&self) -> DatabaseView {
        DatabaseView { projects: entries(self.projects), path: opt_view(self.path) }
    }
}

/// Whether some entry of `t` has the value `v`.
pub open spec fn has_value(t: Entries, v: Seq<char>) -> bool {
    exists|i: int| 0 <= i < t.len() && (#[trigger] t[i]).1 == v
}

/// Whether no two entries of `t` have the same value.
pub open spec fn distinct_values(t: Entries) -> bool {
    forall|i: int, j: int| 0 <= i < j < t.len() ==> (#[trigger] t[i]).1 != (#[trigger] t[j]).1
}

/// Whether the entry at `i` is the first of `t` with the value `v`.
pub open spec fn first_with_value(t: Entries, v: Seq<char>, i: int) -> bool {
    &&& 0 <= i < t.len()
    &&& t[i].1 == v
    &&& forall|j: int| 0 <= j < i ==> (#[trigger] t[j]).1 != v
}

/// The name under which the first entry of `t` with the value `path` stands.
pub open spec fn holder_of(t: Entries, path: Seq<char>) -> Seq<char> {
    t[choose|i: int| first_with_value(t, path, i)].0
}

/// The first entry with a value is the one that [`holder_of`] names.
pub proof fn lemma_holder_of(t: Entries, path: Seq<char>, i: int)
    requires
        first_with_value(t, path, i),
    ensures
        has_value(t, path),
        holder_of(t, path) == t[i].0,
{
    let j = choose|j: int| first_with_value(t, path, j);
    assert(first_with_value(t, path, j));
    if j < i {
        assert(t[j].1 != path);
    }
    if i < j {
        assert(t[i].1 != path);
    }
}

/// What registering `name` at `path` makes of `db`: the project goes behind
/// the others, unless the name is registered, or else the path is.
pub open spec fn add_project_spec(db: DatabaseView, name: Seq<char>, path: Seq<char>) -> Result<
    DatabaseView,
    ErrorView,
> {
    if has_key(db.projects, name) {
        Err(ErrorView::NameTaken(name, lookup(db.projects, name)))
    } else if has_value(db.projects, path) {
        Err(ErrorView::PathTaken(path, holder_of(db.projects, path)))
    } else {
        Ok(DatabaseView { projects: db.projects.push((name, path)), ..db })
    }
}

/// What removing the project called `name` makes of `db`: the project leaves
/// and the others keep their order, unless no such project is registered.
pub open spec fn remove_project_spec(db: DatabaseView, name: Seq<char>) -> Result<
    DatabaseView,
    ErrorView,
> {
    if has_key(db.projects, name) {
        Ok(DatabaseView { projects: db.projects.remove(key_index(db.projects, name)), ..db })
    } else {
        Err(ErrorView::ProjectUnknown(name))
    }
}

/// The shell statement that changes into `path`.
pub open spec fn cd_command(path: Seq<char>) -> Seq<char> {
    "cd "@ + path
}

/// The characters of a string slice that may be absent.
pub open spec fn opt_str_view(o: Option<&str>) -> Option<Seq<char>> {
    match o {
        Some(s) => Some(s@),
        None => None,
    }
}

/// The hook command of the project file with the text `contents`: none where
/// there is no file, where its text is no project, or where the project has
/// no hook.
pub open spec fn hook_of_file(contents: Option<Seq<char>>) -> Option<Seq<char>> {
    match contents {
        None => None,
        Some(text) => match project_from_text(text) {
            Ok(p) => hook_command(p.hook, p.scripts),
            Err(_) => None,
        },
    }
}

/// The way into the project called `name`: the statement that changes into
/// its directory, and the command line of its hook. `is_dir` says whether the
/// registered path is a directory, and `file` is the text of the project's
/// file, if it can be read.
pub open spec fn go_to_project_spec(
    db: DatabaseView,
    name: Seq<char>,
    is_dir: bool,
    file: Option<Seq<char>>,
) -> Result<(Seq<char>, Option<Seq<char>>), ErrorView> {
    if !has_key(db.projects, name) {
        Err(ErrorView::ProjectNotFound(name))
    } else if !is_dir {
        Err(ErrorView::NotADirectory(lookup(db.projects, name)))
    } else {
        Ok((cd_command(lookup(db.projects, name)), hook_of_file(file)))
    }
}

/// What is printed for the shell to evaluate on the way into a project: a
/// greeting, the change of directory, and, where a hook runs, its
/// announcement and its command line.
pub open spec fn navigation_text(name: Seq<char>, cd: Seq<char>, hook: Option<Seq<char>>) -> Seq<
    Seq<char>,
> {
    seq!["echo \"Krabby is taking you to "@ + bold_text(name) + "!\";"@, cd] + (match hook {
        Some(h) => seq!["echo \"Running hook:\n"@ + bold_text(h) + "\""@, h],
        None => Seq::empty(),
    })
}

/// Builds [`navigation_text`], one string for each line to print.
pub fn navigation_lines(name: &ProjectName, cd: &str, hook: &Option<String>) -> (r: Vec<String>)
    ensures
        r@.len() == navigation_text(name@, cd@, opt_view(*hook)).len(),
        forall|i: int|
            0 <= i < r@.len() ==> (#[trigger] r@[i])@ == navigation_text(
                name@,
                cd@,
                opt_view(*hook),
            )[i],
{
    let mut lines: Vec<String> = Vec::new();
    let mut greeting = String::from_str("echo \"Krabby is taking you to ");
    greeting.append(bold(name.as_str()).as_str());
    greeting.append("!\";");
    lines.push(greeting);
    lines.push(cd.to_owned());
    if let Some(h) = hook {
        let mut running = String::from_str("echo \"Running hook:\n");
        running.append(bold(h.as_str()).as_str());
        running.append("\"");
        lines.push(running);
        lines.push(h.clone());
    }
    lines
}

impl Database {
    #[verifier::type_invariant]
    spec fn valid(self) -> bool {
        named_table(entries(self.projects))
    }

    /// A registry without projects.
    pub fn new(path: Option<String>) -> (r: Self)
        ensures
            r@ == (DatabaseView { projects: Seq::empty(), path: opt_view(path) }),
    {
        Self { projects: table_new(), path }
    }

    /// A registry of the given projects, bound to no path.
    pub(crate) fn from_parts(projects: IndexMap<String, String>) -> (r: Self)
        requires
            named_table(entries(projects)),
        ensures
            r@ == (DatabaseView { projects: entries(projects), path: None }),
    {
        Database { projects, path: None }
    }

    /// The table of the projects.
    pub(crate) fn table(&self) -> (r: &IndexMap<String, String>)
        ensures
            entries(*r) == self@.projects,
            named_table(self@.projects),
    {
        proof {
            use_type_invariant(self);
        }
        &self.projects
    }

    /// Where the registry's file lies, if that is known.
    pub fn path(&self) -> (r: Option<&String>)
        ensures
            match r {
                Some(p) => self@.path == Some(p@),
                None => self@.path is None,
            },
    {
        self.path.as_ref()
    }

    /// Binds the registry to the place of its file.
    pub fn set_path(&mut self, path: String)
        ensures
            final(self)@ == (DatabaseView { path: Some(path@), ..old(self)@ }),
    {
        proof {
            use_type_invariant(&*self);
        }
        self.path = Some(path);
    }

    /// The number of registered projects.
    pub fn project_count(&self) -> (n: usize)
        ensures
            n == self@.projects.len(),
            named_table(self@.projects),
    {
        proof {
            use_type_invariant(self);
        }
        table_len(&self.projects)
    }

    /// The names of the registered projects in the order of registration.
    pub fn list_projects(&self) -> (r: Vec<ProjectName>)
        ensures
            r.len() == self@.projects.len(),
            forall|i: int| 0 <= i < r.len() ==> (#[trigger] r[i])@ == self@.projects[i].0,
    {
        proof {
            use_type_invariant(self);
        }
        let mut out: Vec<ProjectName> = Vec::new();
        let n = table_len(&self.projects);
        let mut i: usize = 0;
        while i < n
            invariant
                i <= n,
                n == entries(self.projects).len(),
                named_table(entries(self.projects)),
                out.len() == i,
                forall|j: int| 0 <= j < i ==> (#[trigger] out[j])@ == entries(self.projects)[j].0,
            decreases n - i,
        {
            if let Some(pair) = table_get_index(&self.projects, i) {
                out.push(ProjectName::parse(pair.0.clone()));
            }
            i += 1;
        }
        out
    }

    /// The registered projects in the order of registration, each with the
    /// path of its directory.
    pub fn projects(&self) -> (r: Vec<(ProjectName, String)>)
        ensures
            r.len() == self@.projects.len(),
            forall|i: int|
                0 <= i < r.len() ==> ((#[trigger] r[i]).0@, r[i].1@) == self@.projects[i],
    {
        proof {
            use_type_invariant(self);
        }
        let mut out: Vec<(ProjectName, String)> = Vec::new();
        let n = table_len(&self.projects);
        let mut i: usize = 0;
        while i < n
            invariant
                i <= n,
                n == entries(self.projects).len(),
                named_table(entries(self.projects)),
                out.len() == i,
                forall|j: int|
                    0 <= j < i ==> ((#[trigger] out[j]).0@, out[j].1@) == entries(
                        self.projects,
                    )[j],
            decreases n - i,
        {
            if let Some(pair) = table_get_index(&self.projects, i) {
                out.push((ProjectName::parse(pair.0.clone()), pair.1.clone()));
            }
            i += 1;
        }
        out
    }

    /// Takes the project of the given name out of the registry. The projects
    /// that stay keep their order.
    pub fn remove_project(&mut self, project_name: ProjectName) -> (r: Result<(), Error>)
        ensures
            match remove_project_spec(old(self)@, project_name@) {
                Ok(v) => r is Ok && final(self)@ == v,
                Err(e) => (r matches Err(x) && x@ == e) && final(self)@ == old(self)@,
            },
    {
        proof {
            use_type_invariant(&*self);
        }
        let mut projects = table_new();
        std::mem::swap(&mut self.projects, &mut projects);
        let removed = table_shift_remove(&mut projects, project_name.as_str());
        self.projects = projects;
        match removed {
            Some(_) => Ok(()),
            None => Err(Error::ProjectUnknown(project_name)),
        }
    }

    /// Registers `project_name` at `path`, behind the projects that are there.
    /// `path` has to be the directory's canonical path already. A name that is
    /// registered is refused, and so is a path that is registered under
    /// another name; the failure names the first entry that stands in the way.
    #[verifier::loop_isolation(false)]
    pub fn add_project(&mut self, project_name: ProjectName, path: String) -> (r: Result<(), Error>)
        ensures
            match add_project_spec(old(self)@, project_name@, path@) {
                Ok(v) => r is Ok && final(self)@ == v,
                Err(e) => (r matches Err(x) && x@ == e) && final(self)@ == old(self)@,
            },
    {
        proof {
            use_type_invariant(&*self);
        }
        if let Some(p) = table_get(&self.projects, project_name.as_str()) {
            let taken = p.clone();
            return Err(Error::NameTaken(project_name, taken));
        }
        let n = table_len(&self.projects);
        let mut i: usize = 0;
        while i < n
            invariant
                i <= n,
                n == entries(self.projects).len(),
                named_table(entries(self.projects)),
                forall|j: int| 0 <= j < i ==> (#[trigger] entries(self.projects)[j]).1 != path@,
            decreases n - i,
        {
            if let Some(pair) = table_get_index(&self.projects, i) {
                if *pair.1 == path {
                    proof {
                        assert(first_with_value(entries(self.projects), path@, i as int));
                        lemma_holder_of(entries(self.projects), path@, i as int);
                    }
                    let name = ProjectName::parse(pair.0.clone());
                    return Err(Error::PathTaken(path, name));
                }
            }
            i += 1;
        }
        let mut projects = table_new();
        std::mem::swap(&mut self.projects, &mut projects);
        let _ = table_insert(&mut projects, project_name.to_string(), path);
        self.projects = projects;
        Ok(())
    }

    /// The path under which `project_name` is registered, if it is.
    pub fn get_project_path(&self, project_name: &ProjectName) -> (r: Option<&String>)
        ensures
            match r {
                Some(p) => has_key(self@.projects, project_name@) && p@ == lookup(
                    self@.projects,
                    project_name@,
                ),
                None => !has_key(self@.projects, project_name@),
            },
    {
        table_get(&self.projects, project_name.as_str())
    }

    /// The path under which `project_name` is registered, if it is.
    pub fn get_project(&self, project_name: &ProjectName) -> (r: Option<&String>)
        ensures
            match r {
                Some(p) => has_key(self@.projects, project_name@) && p@ == lookup(
                    self@.projects,
                    project_name@,
                ),
                None => !has_key(self@.projects, project_name@),
            },
    {
        self.get_project_path(project_name)
    }

    /// The hook command of `project_name`, whose project file holds
    /// `project_file` (nothing where the file cannot be read): see
    /// [`hook_of_file`]. A project that is not registered has none.
    pub fn get_project_hook_cmd(&self, project_name: &ProjectName, project_file: Option<&str>) -> (r: Option<String>)
        ensures
            opt_view(r) == if has_key(self@.projects, project_name@) {
                hook_of_file(opt_str_view(project_file))
            } else {
                None
            },
    {
        if self.get_project(project_name).is_none() {
            return None;
        }
        match project_file {
            None => None,
            Some(text) => match Project::from_str(text) {
                Ok(project) => project.get_hook_cmd(),
                Err(_) => None,
            },
        }
    }

    /// The way into `project_name`: the shell statement that changes into its
    /// directory, and the command line of its hook, if it has one. `is_dir`
    /// says whether the registered path is a directory now, and
    /// `project_file` is the text of the project's file, or nothing where it
    /// cannot be read. A project that is not registered is refused, and so is
    /// one whose directory is gone; a project file that cannot be used only
    /// means that no hook runs.
    pub fn go_to_project(&self, project_name: &ProjectName, is_dir: bool, project_file: Option<&str>) -> (r: Result<(String, Option<String>), Error>)
        ensures
            match go_to_project_spec(self@, project_name@, is_dir, opt_str_view(project_file)) {
                Ok(way) => r matches Ok(w) && w.0@ == way.0 && opt_view(w.1) == way.1,
                Err(e) => r matches Err(x) && x@ == e,
            },
    {
        match self.get_project(project_name) {
            Some(project_path) => {
                if !is_dir {
                    return Err(Error::NotADirectory(project_path.clone()));
                }
                let mut cd_cmd = String::from_str("cd ");
                cd_cmd.append(project_path.as_str());
                let hook_cmd = self.get_project_hook_cmd(project_name, project_file);
                Ok((cd_cmd, hook_cmd))
            },
            None => Err(Error::ProjectNotFound(project_name.clone())),
        }
    }
}

impl PartialEq for Database {
    fn eq(&self, other: &Self) -> (r: bool) {
        tables_equal(&self.projects, &other.projects) && opt_strings_equal(&self.path, &other.path)
    }
}

impl PartialEqSpecImpl for Database {
    open spec fn obeys_eq_spec() -> bool {
        true
    }

    open spec fn eq_spec(&self, other: &Self) -> bool {
        self@ == other@
    }
}

impl Default for Database {
    /// A registry without projects and without a file.
    fn default() -> (r: Self)
        ensures
            r@ == (DatabaseView { projects: Seq::empty(), path: None }),
    {
        Self::new(None)
    }
}

/// Once `p` is registered at `d`, registering `p` at `d` again fails because
/// the name is taken, and registering at `d` a name `q` that the registry
/// does not hold fails because the path is taken, by `p`.
pub proof fn lemma_register_twice(db: DatabaseView, p: Seq<char>, d: Seq<char>, q: Seq<char>)
    requires
        distinct_keys(db.projects),
        add_project_spec(db, p, d) is Ok,
    ensures
        ({
            let after = add_project_spec(db, p, d)->Ok_0;
            &&& add_project_spec(after, p, d) == Err::<DatabaseView, ErrorView>(
                ErrorView::NameTaken(p, d),
            )
            &&& q != p && !has_key(db.projects, q) ==> add_project_spec(after, q, d) == Err::<
                DatabaseView,
                ErrorView,
            >(ErrorView::PathTaken(d, p))
        }),
{
    let after = add_project_spec(db, p, d)->Ok_0;
    let t = after.projects;
    let last = t.len() - 1;
    assert(t[last] == (p, d));
    lemma_push_distinct(db.projects, p, d);
    lemma_lookup_at(t, last);
    assert(first_with_value(t, d, last)) by {
        assert forall|j: int| 0 <= j < last implies (#[trigger] t[j]).1 != d by {
            assert(db.projects[j].1 != d);
        }
    }
    lemma_holder_of(t, d, last);
    if q != p && !has_key(db.projects, q) {
        assert(!has_key(t, q)) by {
            if has_key(t, q) {
                let i = key_index(t, q);
                assert(0 <= i < t.len() && t[i].0 == q);
                assert(i < last);
                assert(db.projects[i].0 == q);
            }
        }
    }
}

/// A registry in which no path is registered twice stays so through every
/// registration and every removal.
pub proof fn lemma_paths_stay_distinct(db: DatabaseView, name: Seq<char>, path: Seq<char>)
    requires
        distinct_values(db.projects),
    ensures
        add_project_spec(db, name, path) matches Ok(after) ==> distinct_values(after.projects),
        remove_project_spec(db, name) matches Ok(after) ==> distinct_values(after.projects),
{
    if add_project_spec(db, name, path) is Ok {
        let t = db.projects;
        let u = t.push((name, path));
        assert forall|i: int, j: int| 0 <= i < j < u.len() implies (#[trigger] u[i]).1 != (
        #[trigger] u[j]).1 by {
            if j == t.len() {
                assert(t[i].1 != path);
            } else {
                assert(t[i].1 != t[j].1);
            }
        }
    }
    if remove_project_spec(db, name) is Ok {
        let t = db.projects;
        let k = key_index(t, name);
        assert(0 <= k < t.len() && t[k].0 == name);
        let u = t.remove(k);
        assert forall|i: int, j: int| 0 <= i < j < u.len() implies (#[trigger] u[i]).1 != (
        #[trigger] u[j]).1 by {
            let a = if i < k { i } else { i + 1 };
            let b = if j < k { j } else { j + 1 };
            assert(t[a].1 != t[b].1);
        }
    }
}

/// Nothing can be removed from a registry without projects.
pub proof fn lemma_remove_from_empty(db: DatabaseView, name: Seq<char>)
    requires
        db.projects.len() == 0,
    ensures
        remove_project_spec(db, name) == Err::<DatabaseView, ErrorView>(
            ErrorView::ProjectUnknown(name),
        ),
{
}

/// Removing a project right after its registration gives the registry back
/// as it was.
pub proof fn lemma_add_then_remove(db: DatabaseView, name: Seq<char>, path: Seq<char>)
    requires
        distinct_keys(db.projects),
        add_project_spec(db, name, path) is Ok,
    ensures
        remove_project_spec(add_project_spec(db, name, path)->Ok_0, name) == Ok::<
            DatabaseView,
            ErrorView,
        >(db),
{
    let after = add_project_spec(db, name, path)->Ok_0;
    let t = after.projects;
    let last = t.len() - 1;
    assert(t[last] == (name, path));
    lemma_push_distinct(db.projects, name, path);
    lemma_lookup_at(t, last);
    assert(t.remove(last) =~= db.projects);
}

/// Removing a registered project leaves every other project registered where
/// it was, and the removed name free.
pub proof fn lemma_remove_project(db: DatabaseView, name: Seq<char>, other: Seq<char>)
    requires
        distinct_keys(db.projects),
        has_key(db.projects, name),
    ensures
        ({
            let after = remove_project_spec(db, name)->Ok_0;
            &&& remove_project_spec(db, name) is Ok
            &&& after.projects.len() == db.projects.len() - 1
            &&& !has_key(after.projects, name)
            &&& other != name ==> has_key(after.projects, other) == has_key(db.projects, other)
            &&& other != name && has_key(db.projects, other) ==> lookup(after.projects, other)
                == lookup(db.projects, other)
        }),
{
    lemma_remove_key(db.projects, name, other);
}

} // verus!
