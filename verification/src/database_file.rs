//! The file of the registry: which document it holds, and how the registry is
//! read from its text and written as text.

use crate::database::{Database, DatabaseView};
use crate::document::{field, first_field, lemma_first_field, Document, Fields, Item, ItemView};
use crate::error::{Error, ErrorView};
use crate::table::{named_table, pairs_from_table, table_from_pairs};
use crate::text::opt_view;
use crate::toml_text::{
    document_of, lemma_document_round_trip, nodes_of, parse_document, render_document,
    toml_parsed, toml_rendered, writable,
};
use vstd::prelude::*;

verus! {

/// The name of the registry's file within the user's home directory.
pub fn database_file_name() -> (r: &'static str)
    ensures
        r@ == ".krabby.db"@,
{
    ".krabby.db"
}

/// A registry as [`Database::from_file`] opened it, and the text that its
/// file is to get where the file held none.
#[derive(Debug)]
pub struct OpenedDatabase {
    pub database: Database,
    pub created: Option<String>,
}

/// The document that the registry file holds for `db`: the table `projects`.
/// The path is left out.
pub open spec fn database_fields(db: DatabaseView) -> Fields {
    seq![("projects"@, ItemView::Table(db.projects))]
}

/// The registry that the document `d` describes. The document has to give
/// `projects` as a table of strings in which every key is a name and none
/// comes twice; other entries are passed over.
pub open spec fn database_from_fields(d: Fields) -> Result<DatabaseView, ErrorView> {
    match field(d, "projects"@) {
        Some(ItemView::Table(e)) => if named_table(e) {
            Ok(DatabaseView { projects: e, path: None })
        } else {
            Err(ErrorView::DatabaseMalformed)
        },
        _ => Err(ErrorView::DatabaseMalformed),
    }
}

/// The registry that the text of a registry file describes.
pub open spec fn database_from_text(text: Seq<char>) -> Result<DatabaseView, ErrorView> {
    match toml_parsed(text) {
        None => Err(ErrorView::DatabaseUnreadable(text)),
        Some(t) => match database_from_fields(document_of(t)) {
            Err(ErrorView::DatabaseMalformed) => Err(ErrorView::DatabaseUnreadable(text)),
            other => other,
        },
    }
}

/// The text of the registry file for `db`, where it can be written.
pub open spec fn database_text(db: DatabaseView) -> Option<Seq<char>> {
    toml_rendered(nodes_of(database_fields(db)))
}

/// A registry without projects, bound to `path`.
pub open spec fn fresh_database(path: Seq<char>) -> DatabaseView {
    DatabaseView { projects: Seq::empty(), path: Some(path) }
}

impl Database {
    /// The document that the registry's file holds: see [`database_fields`].
    pub fn to_document(&self) -> (r: Document)
        ensures
            r@ == database_fields(self@),
            named_table(self@.projects),
    {
        let mut doc = Document::new();
        doc.push(String::from_str("projects"), Item::Table(pairs_from_table(self.table())));
        assert(doc@ =~= database_fields(self@));
        doc
    }

    /// The registry that `doc` describes: see [`database_from_fields`]. The
    /// registry is bound to no path.
    pub fn from_document(doc: &Document) -> (r: Result<Self, Error>)
        ensures
            match database_from_fields(doc@) {
                Ok(v) => r matches Ok(db) && db@ == v,
                Err(e) => r matches Err(x) && x@ == e,
            },
    {
        match doc.get("projects") {
            Some(Item::Table(pairs)) => match table_from_pairs(pairs) {
                Some(projects) => Ok(Database::from_parts(projects)),
                None => Err(Error::DatabaseMalformed),
            },
            _ => Err(Error::DatabaseMalformed),
        }
    }

    /// Reads a registry from the text of its file: see [`database_from_text`].
    /// The registry is bound to no path.
    pub fn from_str(text: &str) -> (r: Result<Self, Error>)
        ensures
            match database_from_text(text@) {
                Ok(v) => r matches Ok(db) && db@ == v,
                Err(e) => r matches Err(x) && x@ == e,
            },
    {
        match parse_document(text) {
            None => Err(Error::DatabaseUnreadable(text.to_owned())),
            Some(doc) => match Self::from_document(&doc) {
                Ok(db) => Ok(db),
                Err(Error::DatabaseMalformed) => Err(Error::DatabaseUnreadable(text.to_owned())),
                Err(e) => Err(e),
            },
        }
    }

    /// The text of the registry's file: see [`database_text`]. It fails only
    /// where the `toml` crate refuses to write the document.
    pub fn to_string(&self) -> (r: Result<String, Error>)
        ensures
            match r {
                Ok(text) => database_text(self@) == Some(text@),
                Err(e) => e@ == ErrorView::Unwritable && database_text(self@) is None,
            },
    {
        let doc = self.to_document();
        assert(writable(doc@));
        render_document(&doc)
    }

    /// Opens the registry whose file lies at `path` and holds `contents`. An
    /// empty text, which also stands for a file that was not there, gives a
    /// registry without projects, together with the text that its file is to
    /// get. Any other text is read as by [`Database::from_str`], and nothing
    /// is to be written. Either way the registry is bound to `path`.
    pub fn from_file(path: String, contents: &str) -> (r: Result<OpenedDatabase, Error>)
        ensures
            contents@.len() == 0 ==> match database_text(fresh_database(path@)) {
                Some(text) => r matches Ok(o) && o.database@ == fresh_database(path@) && opt_view(
                    o.created,
                ) == Some(text),
                None => r matches Err(e) && e@ == ErrorView::Unwritable,
            },
            contents@.len() > 0 ==> match database_from_text(contents@) {
                Ok(v) => r matches Ok(o) && o.database@ == (DatabaseView { path: Some(path@), ..v })
                    && o.created is None,
                Err(e) => r matches Err(x) && x@ == e,
            },
    {
        if contents.is_empty() {
            let database = Database::new(Some(path));
            match database.to_string() {
                Ok(text) => Ok(OpenedDatabase { database, created: Some(text) }),
                Err(e) => Err(e),
            }
        } else {
            match Self::from_str(contents) {
                Ok(mut database) => {
                    database.set_path(path);
                    Ok(OpenedDatabase { database, created: None })
                },
                Err(e) => Err(e),
            }
        }
    }
}

/// Reading back the document of a registry gives the registry, but for its
/// path, where every key is a name and no key comes twice.
pub proof fn lemma_database_round_trip(db: DatabaseView)
    requires
        named_table(db.projects),
    ensures
        database_from_fields(database_fields(db)) == Ok::<DatabaseView, ErrorView>(
            DatabaseView { path: None, ..db },
        ),
{
    let d = database_fields(db);
    assert(first_field(d, "projects"@, 0));
    lemma_first_field(d, "projects"@, 0);
}

/// Where the `toml` crate reads back the table that it wrote for a registry,
/// reading the registry's text gives the registry back, but for its path.
pub proof fn lemma_database_text_round_trip(db: DatabaseView, text: Seq<char>)
    requires
        named_table(db.projects),
        database_text(db) == Some(text),
        toml_parsed(text) == Some(nodes_of(database_fields(db))),
    ensures
        database_from_text(text) == Ok::<DatabaseView, ErrorView>(
            DatabaseView { path: None, ..db },
        ),
{
    lemma_document_round_trip(database_fields(db));
    lemma_database_round_trip(db);
}

} // verus!
