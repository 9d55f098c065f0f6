//! The file of a project: which document it holds, and how a project is read
//! from its text and written as text.

use crate::document::{field, first_field, lemma_first_field, texts_of, Document, Fields, Item, ItemView};
use crate::error::{Error, ErrorView};
use crate::hook::{hook_valid, missing_name, names_of, HookView, ProjectHook};
use crate::name::is_name;
use crate::project::{Project, ProjectName, ProjectView};
use crate::script::ScriptName;
use crate::table::{
    distinct_keys, named_table, pairs_from_table, table_from_pairs, table_len, table_new, Entries,
};
use crate::text::opt_view;
use crate::toml_text::{
    document_of, lemma_document_round_trip, nodes_of, parse_document, render_document,
    toml_parsed, toml_rendered, writable,
};
use vstd::prelude::*;

verus! {

/// The name of a project's file within the project's directory.
pub fn project_file_name() -> (r: &'static str)
    ensures
        r@ == "krabby.toml"@,
{
    "krabby.toml"
}

/// A project as [`Project::from_file`] opened it, and the text that its file
/// is to get where the file held none.
#[derive(Debug)]
pub struct OpenedProject {
    pub project: Project,
    pub created: Option<String>,
}

/// Whether every string in `names` is a name.
pub open spec fn all_names(names: Seq<Seq<char>>) -> bool {
    forall|i: int| 0 <= i < names.len() ==> is_name(#[trigger] names[i])
}

/// The item that a project file holds for `hook`: the command line as a
/// string, or the names of the scripts as a list.
pub open spec fn hook_item(hook: HookView) -> ItemView {
    match hook {
        HookView::Simple(command) => ItemView::Text(command),
        HookView::ScriptArray(names) => ItemView::List(names),
    }
}

/// The document that a project file holds for `p`: the name; then the hook,
/// if there is one; then the scripts, if there are any. The path is left out.
pub open spec fn project_fields(p: ProjectView) -> Fields {
    seq![("name"@, ItemView::Text(p.name))] + (match p.hook {
        Some(h) => seq![("hook"@, hook_item(h))],
        None => Seq::empty(),
    }) + (if p.scripts.len() > 0 {
        seq![("scripts"@, ItemView::Table(p.scripts))]
    } else {
        Seq::empty()
    })
}

/// Whether `item` can be the `name` of a project file: a string that is a name.
pub open spec fn name_item_ok(item: Option<ItemView>) -> bool {
    item matches Some(ItemView::Text(n)) && is_name(n)
}

/// Whether `item` can be the `hook` of a project file: nothing, a string, or
/// a list of names.
pub open spec fn hook_item_ok(item: Option<ItemView>) -> bool {
    match item {
        None => true,
        Some(ItemView::Text(_)) => true,
        Some(ItemView::List(names)) => all_names(names),
        _ => false,
    }
}

/// Whether `item` can be the `scripts` of a project file: nothing, or a table
/// of strings in which every key is a name and none comes twice.
pub open spec fn scripts_item_ok(item: Option<ItemView>) -> bool {
    match item {
        None => true,
        Some(ItemView::Table(e)) => named_table(e),
        _ => false,
    }
}

/// The string that a string item holds.
pub open spec fn item_text(item: Option<ItemView>) -> Seq<char> {
    match item {
        Some(ItemView::Text(s)) => s,
        _ => Seq::empty(),
    }
}

/// The hook that the `hook` item of a project file stands for.
pub open spec fn hook_from_item(item: Option<ItemView>) -> Option<HookView> {
    match item {
        Some(ItemView::Text(command)) => Some(HookView::Simple(command)),
        Some(ItemView::List(names)) => Some(HookView::ScriptArray(names)),
        _ => None,
    }
}

/// The scripts that the `scripts` item of a project file stands for.
pub open spec fn scripts_from_item(item: Option<ItemView>) -> Entries {
    match item {
        Some(ItemView::Table(e)) => e,
        _ => Seq::empty(),
    }
}

/// The project that the document `d` describes. The document has to give a
/// `name`; `hook` and `scripts` may be missing; other entries are passed over.
/// A hook that names a script which the document does not hold is refused.
pub open spec fn project_from_fields(d: Fields) -> Result<ProjectView, ErrorView> {
    let name = field(d, "name"@);
    let hook = field(d, "hook"@);
    let scripts = field(d, "scripts"@);
    if !name_item_ok(name) || !hook_item_ok(hook) || !scripts_item_ok(scripts) {
        Err(ErrorView::ProjectMalformed)
    } else if !hook_valid(hook_from_item(hook), scripts_from_item(scripts)) {
        Err(ErrorView::HookRejected(missing_name(hook_from_item(hook), scripts_from_item(scripts))))
    } else {
        Ok(
            ProjectView {
                name: item_text(name),
                path: None,
                hook: hook_from_item(hook),
                scripts: scripts_from_item(scripts),
            },
        )
    }
}

/// The project that the text of a project file describes.
pub open spec fn project_from_text(text: Seq<char>) -> Result<ProjectView, ErrorView> {
    match toml_parsed(text) {
        None => Err(ErrorView::ProjectUnreadable(text)),
        Some(t) => match project_from_fields(document_of(t)) {
            Err(ErrorView::ProjectMalformed) => Err(ErrorView::ProjectUnreadable(text)),
            other => other,
        },
    }
}

/// The text of the project file for `p`, where it can be written.
pub open spec fn project_text(p: ProjectView) -> Option<Seq<char>> {
    toml_rendered(nodes_of(project_fields(p)))
}

/// A project without scripts and without a hook, bound to `path`.
pub open spec fn fresh_project(name: Seq<char>, path: Seq<char>) -> ProjectView {
    ProjectView { name, path: Some(path), hook: None, scripts: Seq::empty() }
}

impl Project {
    /// The document that the project's file holds: see [`project_fields`].
    pub fn to_document(&self) -> (r: Document)
        ensures
            r@ == project_fields(self@),
            named_table(self@.scripts),
    {
        let mut doc = Document::new();
        doc.push(String::from_str("name"), Item::Text(self.name().to_string()));
        match self.hook() {
            Some(ProjectHook::Simple(command)) => {
                doc.push(String::from_str("hook"), Item::Text(command.clone()));
            },
            Some(ProjectHook::ScriptArray(names)) => {
                let mut texts: Vec<String> = Vec::new();
                let mut i: usize = 0;
                while i < names.len()
                    invariant
                        i <= names.len(),
                        texts.len() == i,
                        forall|j: int| 0 <= j < i ==> (#[trigger] texts[j])@ == names[j]@,
                    decreases names.len() - i,
                {
                    texts.push(names[i].to_string());
                    i += 1;
                }
                assert(texts_of(texts@) =~= names_of(names@));
                doc.push(String::from_str("hook"), Item::List(texts));
            },
            None => {},
        }
        if table_len(self.table()) > 0 {
            doc.push(String::from_str("scripts"), Item::Table(pairs_from_table(self.table())));
        }
        assert(doc@ =~= project_fields(self@));
        doc
    }

    /// The project that `doc` describes: see [`project_from_fields`]. The
    /// project is bound to no path.
    #[verifier::loop_isolation(false)]
    pub fn from_document(doc: &Document) -> (r: Result<Self, Error>)
        ensures
            match project_from_fields(doc@) {
                Ok(v) => r matches Ok(p) && p@ == v,
                Err(e) => r matches Err(x) && x@ == e,
            },
    {
        let name = match doc.get("name") {
            Some(Item::Text(s)) => match ProjectName::try_parse(s.clone()) {
                Ok(name) => name,
                Err(_) => {
                    return Err(Error::ProjectMalformed);
                },
            },
            _ => {
                return Err(Error::ProjectMalformed);
            },
        };
        let hook = match doc.get("hook") {
            None => None,
            Some(Item::Text(command)) => Some(ProjectHook::Simple(command.clone())),
            Some(Item::List(texts)) => {
                let mut names: Vec<ScriptName> = Vec::new();
                let mut i: usize = 0;
                while i < texts.len()
                    invariant
                        i <= texts.len(),
                        names.len() == i,
                        forall|j: int| 0 <= j < i ==> (#[trigger] names[j])@ == texts[j]@,
                        forall|j: int| 0 <= j < i ==> is_name(#[trigger] texts_of(texts@)[j]),
                    decreases texts.len() - i,
                {
                    match ScriptName::try_parse(texts[i].clone()) {
                        Ok(n) => {
                            names.push(n);
                        },
                        Err(_) => {
                            assert(!is_name(texts_of(texts@)[i as int]));
                            return Err(Error::ProjectMalformed);
                        },
                    }
                    i += 1;
                }
                assert(names_of(names@) =~= texts_of(texts@));
                Some(ProjectHook::ScriptArray(names))
            },
            _ => {
                return Err(Error::ProjectMalformed);
            },
        };
        let scripts = match doc.get("scripts") {
            None => table_new(),
            Some(Item::Table(pairs)) => match table_from_pairs(pairs) {
                Some(table) => table,
                None => {
                    return Err(Error::ProjectMalformed);
                },
            },
            _ => {
                return Err(Error::ProjectMalformed);
            },
        };
        let project = Project::from_parts(name, hook, scripts);
        match project.validate_hook(project.hook()) {
            Ok(_) => Ok(project),
            Err(Error::InvalidHook(n)) => Err(Error::HookRejected(n)),
            Err(e) => Err(e),
        }
    }

    /// Reads a project from the text of its file: see [`project_from_text`].
    /// The project is bound to no path.
    pub fn from_str(text: &str) -> (r: Result<Self, Error>)
        ensures
            match project_from_text(text@) {
                Ok(v) => r matches Ok(p) && p@ == v,
                Err(e) => r matches Err(x) && x@ == e,
            },
    {
        match parse_document(text) {
            None => Err(Error::ProjectUnreadable(text.to_owned())),
            Some(doc) => match Self::from_document(&doc) {
                Ok(project) => Ok(project),
                Err(Error::ProjectMalformed) => Err(Error::ProjectUnreadable(text.to_owned())),
                Err(e) => Err(e),
            },
        }
    }

    /// Opens the project whose file lies at `path` and holds `contents`. An
    /// empty text, which also stands for a file that was not there, gives a
    /// new project called `fallback_name`, together with the text that its
    /// file is to get. Any other text is read as by [`Project::from_str`],
    /// and nothing is to be written. Either way the project is bound to `path`.
    pub fn from_file(path: String, contents: &str, fallback_name: ProjectName) -> (r: Result<
        OpenedProject,
        Error,
    >)
        ensures
            contents@.len() == 0 ==> match project_text(fresh_project(fallback_name@, path@)) {
                Some(text) => r matches Ok(o) && o.project@ == fresh_project(
                    fallback_name@,
                    path@,
                ) && opt_view(o.created) == Some(text),
                None => r matches Err(e) && e@ == ErrorView::Unwritable,
            },
            contents@.len() > 0 ==> match project_from_text(contents@) {
                Ok(v) => r matches Ok(o) && o.project@ == (ProjectView { path: Some(path@), ..v })
                    && o.created is None,
                Err(e) => r matches Err(x) && x@ == e,
            },
    {
        if contents.is_empty() {
            let project = Project::new(fallback_name, Some(path));
            match project.to_string() {
                Ok(text) => Ok(OpenedProject { project, created: Some(text) }),
                Err(e) => Err(e),
            }
        } else {
            match Self::from_str(contents) {
                Ok(mut project) => {
                    project.set_path(path);
                    Ok(OpenedProject { project, created: None })
                },
                Err(e) => Err(e),
            }
        }
    }

    /// The text of the project's file: see [`project_text`]. It fails only
    /// where the `toml` crate refuses to write the document.
    pub fn to_string(&self) -> (r: Result<String, Error>)
        ensures
            match r {
                Ok(text) => project_text(self@) == Some(text@),
                Err(e) => e@ == ErrorView::Unwritable && project_text(self@) is None,
            },
    {
        let doc = self.to_document();
        proof {
            lemma_project_fields_writable(self@);
        }
        render_document(&doc)
    }
}

/// The three keys of a project file differ from each other.
pub proof fn lemma_project_keys()
    ensures
        "name"@ != "hook"@,
        "name"@ != "scripts"@,
        "hook"@ != "scripts"@,
{
    reveal_strlit("name");
    reveal_strlit("hook");
    reveal_strlit("scripts");
    assert("name"@[0] != "hook"@[0]);
    assert("name"@[0] != "scripts"@[0]);
    assert("hook"@[0] != "scripts"@[0]);
}

/// The document of a project whose scripts have distinct keys can be written.
pub proof fn lemma_project_fields_writable(p: ProjectView)
    requires
        distinct_keys(p.scripts),
    ensures
        writable(project_fields(p)),
{
    lemma_project_keys();
}

/// Reading back the document of a project gives the project, but for its
/// path: the name is a name, the keys of the scripts are names and differ, and
/// the hook names only names, all of them scripts of the project.
pub proof fn lemma_project_round_trip(p: ProjectView)
    requires
        is_name(p.name),
        named_table(p.scripts),
        p.hook matches Some(HookView::ScriptArray(names)) ==> all_names(names),
        hook_valid(p.hook, p.scripts),
    ensures
        project_from_fields(project_fields(p)) == Ok::<ProjectView, ErrorView>(
            ProjectView { path: None, ..p },
        ),
{
    lemma_project_keys();
    let d = project_fields(p);
    assert(first_field(d, "name"@, 0));
    lemma_first_field(d, "name"@, 0);
    match p.hook {
        Some(h) => {
            assert(first_field(d, "hook"@, 1));
            lemma_first_field(d, "hook"@, 1);
            if p.scripts.len() > 0 {
                assert(first_field(d, "scripts"@, 2));
                lemma_first_field(d, "scripts"@, 2);
            } else {
                assert(p.scripts =~= Seq::empty());
            }
        },
        None => {
            if p.scripts.len() > 0 {
                assert(first_field(d, "scripts"@, 1));
                lemma_first_field(d, "scripts"@, 1);
            } else {
                assert(p.scripts =~= Seq::empty());
            }
        },
    }
}

/// Where the `toml` crate reads back the table that it wrote for a project,
/// reading the project's text gives the project back, but for its path.
pub proof fn lemma_project_text_round_trip(p: ProjectView, text: Seq<char>)
    requires
        is_name(p.name),
        named_table(p.scripts),
        p.hook matches Some(HookView::ScriptArray(names)) ==> all_names(names),
        hook_valid(p.hook, p.scripts),
        project_text(p) == Some(text),
        toml_parsed(text) == Some(nodes_of(project_fields(p))),
    ensures
        project_from_text(text) == Ok::<ProjectView, ErrorView>(ProjectView { path: None, ..p }),
{
    lemma_document_round_trip(project_fields(p));
    lemma_project_round_trip(p);
}

} // verus!
