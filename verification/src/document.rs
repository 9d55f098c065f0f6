//! Documents: what a registry file or a project file holds, as plain values.
//!
//! A file is a table of named items. An item that a file of this tool can
//! hold is a string, a list of strings, or a table of strings. Anything else
//! is kept only as the fact that something else stands there.

use crate::table::Entries;
use vstd::prelude::*;

verus! {

/// The value of one entry of a document.
#[derive(Debug, Clone, PartialEq, Eq)]
pub enum Item {
    /// A string.
    Text(String),
    /// A list whose elements are all strings.
    List(Vec<String>),
    /// A table whose values are all strings, in the table's order.
    Table(Vec<(String, String)>),
    /// Any other value.
    Other,
}

/// What an [`Item`] stands for, with every string as its characters.
pub enum ItemView {
    Text(Seq<char>),
    List(Seq<Seq<char>>),
    Table(Entries),
    Other,
}

/// The strings in `v`, each as its characters.
pub open spec fn texts_of(v: Seq<String>) -> Seq<Seq<char>> {
    Seq::new(v.len(), |i: int| v[i]@)
}

/// The pairs in `v`, each string as its characters.
pub open spec fn pairs_of(v: Seq<(String, String)>) -> Entries {
    Seq::new(v.len(), |i: int| (v[i].0@, v[i].1@))
}

impl View for Item {
    type V = ItemView;

    open spec fn view(&self) -> ItemView {
        match self {
            Item::Text(s) => ItemView::Text(s@),
            Item::List(v) => ItemView::List(texts_of(v@)),
            Item::Table(v) => ItemView::Table(pairs_of(v@)),
            Item::Other => ItemView::Other,
        }
    }
}

/// The entries of a document, each a key and its item, in the document's order.
pub type Fields = Seq<(Seq<char>, ItemView)>;

/// A document: named items in the order in which the file gives them.
#[derive(Debug, Clone, PartialEq, Eq)]
pub struct Document {
    pub entries: Vec<(String, Item)>,
}

impl View for Document {
    type V = Fields;

    open spec fn view(&self) -> Fields {
        Seq::new(self.entries@.len(), |i: int| (self.entries@[i].0@, self.entries@[i].1@))
    }
}

/// Whether some entry of `d` has the key `k`.
pub open spec fn has_field(d: Fields, k: Seq<char>) -> bool {
    exists|i: int| 0 <= i < d.len() && (#[trigger] d[i]).0 == k
}

/// Whether the entry at `i` is the first of `d` with the key `k`.
pub open spec fn first_field(d: Fields, k: Seq<char>, i: int) -> bool {
    &&& 0 <= i < d.len()
    &&& d[i].0 == k
    &&& forall|j: int| 0 <= j < i ==> (#[trigger] d[j]).0 != k
}

/// The item of the first entry of `d` with the key `k`, if there is one.
pub open spec fn field(d: Fields, k: Seq<char>) -> Option<ItemView> {
    if has_field(d, k) {
        Some(d[choose|i: int| first_field(d, k, i)].1)
    } else {
        None
    }
}

/// The first index at which `d` has the key `k` is the only one that
/// [`first_field`] accepts.
pub proof fn lemma_first_field(d: Fields, k: Seq<char>, i: int)
    requires
        first_field(d, k, i),
    ensures
        has_field(d, k),
        field(d, k) == Some(d[i].1),
{
    let j = choose|j: int| first_field(d, k, j);
    assert(first_field(d, k, j));
    if j < i {
        assert(d[j].0 != k);
    }
    if i < j {
        assert(d[i].0 != k);
    }
}

impl Document {
    /// A document without entries.
    pub fn new() -> (r: Self)
        ensures
            r@ == Seq::<(Seq<char>, ItemView)>::empty(),
    {
        let r = Document { entries: Vec::new() };
        assert(r@ =~= Seq::<(Seq<char>, ItemView)>::empty());
        r
    }

    /// Puts `item` at the end of the document under `key`.
    pub fn push(&mut self, key: String, item: Item)
        ensures
            final(self)@ == old(self)@.push((key@, item@)),
    {
        self.entries.push((key, item));
        assert(self@ =~= old(self)@.push((key@, item@)));
    }

    /// The item of the first entry with the key `key`, if there is one.
    pub fn get(&self, key: &str) -> (r: Option<&Item>)
        ensures
            match r {
                Some(item) => field(self@, key@) == Some(item@),
                None => field(self@, key@) is None,
            },
    {
        let wanted = key.to_owned();
        let mut i: usize = 0;
        while i < self.entries.len()
            invariant
                i <= self.entries.len(),
                wanted@ == key@,
                forall|j: int| 0 <= j < i ==> (#[trigger] self@[j]).0 != key@,
            decreases self.entries.len() - i,
        {
            if self.entries[i].0 == wanted {
                proof {
                    assert(self@[i as int].0 == key@);
                    lemma_first_field(self@, key@, i as int);
                }
                return Some(&self.entries[i].1);
            }
            assert(self@[i as int].0 != key@);
            i += 1;
        }
        None
    }
}

} // verus!
