//! Registry of projects and per-project script tables behind a shell-driven
//! project switcher.
//!
//! The crate holds the data model (names, commands, scripts, hooks, projects,
//! the registry), its validation rules, the documents that the two kinds of
//! file hold, and the text of what is printed for the calling shell to
//! evaluate. Reading and writing files, asking the file system about a path,
//! and printing are left to the caller, who hands in what was read and gets
//! back what is to be written or printed.
//!
//! Every function is verified against its contract, but for the calls into
//! three other crates: `indexmap` keeps the ordered tables ([`table`]), `toml`
//! reads and writes the files' text ([`toml_text`]), and `owo-colors` styles
//! message fragments ([`style`]). Each such call is made through a small
//! function whose contract is taken on trust and says so.
//!
//! Contracts speak of a value by its view: a name or a command is the sequence
//! of its characters, a table is the sequence of its entries, and a project or
//! the registry is a record of such values.

pub mod cli;
pub mod database;
pub mod database_file;
pub mod document;
pub mod error;
pub mod hook;
pub mod messages;
pub mod name;
pub mod project;
pub mod project_file;
pub mod project_info;
pub mod script;
pub mod shell;
pub mod style;
pub mod table;
pub mod text;
pub mod toml_text;
