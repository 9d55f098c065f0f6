//! Reading and writing documents as TOML, done by the `toml` crate.
//!
//! The crate's parser and writer are not verified, and neither are its values.
//! What a value holds is known here as a [`Node`], what the parser reads and
//! the writer writes as [`toml_parsed`] and [`toml_rendered`], and each call
//! into the crate is made through a small function whose contract says so.
//! The conversion between the crate's tables and [`Document`] is verified.

use crate::document::{pairs_of, texts_of, Document, Fields, Item, ItemView};
use crate::error::{Error, ErrorView};
use crate::table::distinct_keys;
use crate::text::opt_view;
use vstd::prelude::*;

verus! {

/// The crate's value: a string, a number, a truth value, a date, a list or a
/// table.
#[verifier::external_type_specification]
#[verifier::external_body]
pub struct ExValue(toml::Value);

/// The crate's table, which keeps its keys in the order of their insertion
/// (the crate is built with `preserve_order`).
#[verifier::external_type_specification]
#[verifier::external_body]
#[verifier::reject_recursive_types(K)]
#[verifier::reject_recursive_types(V)]
pub struct ExMap<K, V>(toml::map::Map<K, V>);

/// What a TOML value holds, as far as this crate looks into it.
pub enum Node {
    Text(Seq<char>),
    List(Seq<Node>),
    Table(Seq<(Seq<char>, Node)>),
    Other,
}

/// The entries of a TOML table, in the table's order.
pub type Nodes = Seq<(Seq<char>, Node)>;

/// What `v` holds.
pub uninterp spec fn value_node(v: toml::Value) -> Node;

/// The entries that `t` holds, in the order in which `t` hands them out.
pub uninterp spec fn table_nodes(t: toml::map::Map<String, toml::Value>) -> Seq<(Seq<char>, Node)>;

/// The table that `toml::from_str` reads from `text`, if it reads one.
pub uninterp spec fn toml_parsed(text: Seq<char>) -> Option<Seq<(Seq<char>, Node)>>;

/// The text that `toml::to_string` writes for a table with the entries `t`, if
/// it writes one.
pub uninterp spec fn toml_rendered(t: Seq<(Seq<char>, Node)>) -> Option<Seq<char>>;

/// The nodes of the values in `v`.
pub open spec fn value_nodes(v: Seq<toml::Value>) -> Seq<Node> {
    Seq::new(v.len(), |i: int| value_node(v[i]))
}

/// Whether some entry of `t` has the key `k`.
pub open spec fn has_node(t: Nodes, k: Seq<char>) -> bool {
    exists|i: int| 0 <= i < t.len() && (#[trigger] t[i]).0 == k
}

/// Whether `n` is made of strings, lists and tables only.
pub open spec fn plain_node(n: Node) -> bool
    decreases n,
{
    match n {
        Node::Text(_) => true,
        Node::List(items) => forall|i: int|
            0 <= i < items.len() ==> plain_node(#[trigger] items[i]),
        Node::Table(t) => forall|i: int| 0 <= i < t.len() ==> plain_node((#[trigger] t[i]).1),
        Node::Other => false,
    }
}

/// Whether every value in `t` is made of strings, lists and tables only.
pub open spec fn plain_nodes(t: Nodes) -> bool {
    forall|i: int| 0 <= i < t.len() ==> plain_node((#[trigger] t[i]).1)
}

/// A borrowed entry of a TOML table.
type NodeRef<'a> = (&'a String, &'a toml::Value);

/// What a TOML value is, with what it holds borrowed from it.
enum Shape<'a> {
    Text(&'a str),
    List(&'a Vec<toml::Value>),
    Table(&'a toml::map::Map<String, toml::Value>),
    Other,
}

/// `toml::from_str` for a table. Trusted: what it reads depends on the text
/// alone; a text that it refuses gives nothing.
#[verifier::external_body]
fn parse_table(text: &str) -> (r: Option<toml::map::Map<String, toml::Value>>)
    ensures
        match r {
            Some(t) => toml_parsed(text@) == Some(table_nodes(t)),
            None => toml_parsed(text@) is None,
        },
{
    toml::from_str::<toml::map::Map<String, toml::Value>>(text).ok()
}

/// `Map::iter`. Trusted: it hands out the entries in the table's order.
#[verifier::external_body]
fn table_pairs<'a>(t: &'a toml::map::Map<String, toml::Value>) -> (r: Vec<NodeRef<'a>>)
    ensures
        r@.len() == table_nodes(*t).len(),
        forall|i: int|
            0 <= i < r@.len() ==> ((#[trigger] r@[i]).0@, value_node(*r@[i].1)) == table_nodes(
                *t,
            )[i],
{
    t.iter().collect()
}

/// Tells the variants of `toml::Value` apart. Trusted: a string, a list or a
/// table is handed out as what the value holds; every other variant is `Other`.
#[verifier::external_body]
fn shape_of<'a>(v: &'a toml::Value) -> (r: Shape<'a>)
    ensures
        match r {
            Shape::Text(s) => value_node(*v) == Node::Text(s@),
            Shape::List(items) => value_node(*v) == Node::List(value_nodes(items@)),
            Shape::Table(t) => value_node(*v) == Node::Table(table_nodes(*t)),
            Shape::Other => value_node(*v) is Other,
        },
{
    match v {
        toml::Value::String(s) => Shape::Text(s.as_str()),
        toml::Value::Array(items) => Shape::List(items),
        toml::Value::Table(t) => Shape::Table(t),
        toml::Value::Integer(_) => Shape::Other,
        toml::Value::Float(_) => Shape::Other,
        toml::Value::Boolean(_) => Shape::Other,
        toml::Value::Datetime(_) => Shape::Other,
    }
}

/// `Value::String`. Trusted: the value holds the string.
#[verifier::external_body]
fn value_text(s: String) -> (r: toml::Value)
    ensures
        value_node(r) == Node::Text(s@),
{
    toml::Value::String(s)
}

/// `Value::Array`. Trusted: the value holds the items in their order.
#[verifier::external_body]
fn value_list(items: Vec<toml::Value>) -> (r: toml::Value)
    ensures
        value_node(r) == Node::List(value_nodes(items@)),
{
    toml::Value::Array(items)
}

/// `Value::Table`. Trusted: the value holds the table.
#[verifier::external_body]
fn value_table(t: toml::map::Map<String, toml::Value>) -> (r: toml::Value)
    ensures
        value_node(r) == Node::Table(table_nodes(t)),
{
    toml::Value::Table(t)
}

/// `Map::new`. Trusted: the new table holds nothing.
#[verifier::external_body]
fn empty_table() -> (r: toml::map::Map<String, toml::Value>)
    ensures
        table_nodes(r) == Seq::<(Seq<char>, Node)>::empty(),
{
    toml::map::Map::new()
}

/// `Map::insert`. Trusted: where no entry has the key, the pair becomes the
/// last entry and nothing is returned; where one has it, something is
/// returned.
#[verifier::external_body]
fn table_put(t: &mut toml::map::Map<String, toml::Value>, key: String, value: toml::Value) -> (r: Option<toml::Value>)
    ensures
        r is None <==> !has_node(table_nodes(*old(t)), key@),
        r is None ==> table_nodes(*final(t)) == table_nodes(*old(t)).push(
            (key@, value_node(value)),
        ),
{
    t.insert(key, value)
}

/// `toml::to_string` for a table. Trusted: what it writes depends on what the
/// table holds alone, where that is strings, lists and tables all the way
/// down; a table that it refuses gives nothing.
#[verifier::external_body]
fn render_table(t: &toml::map::Map<String, toml::Value>) -> (r: Option<String>)
    ensures
        plain_nodes(table_nodes(*t)) ==> opt_view(r) == toml_rendered(table_nodes(*t)),
{
    toml::to_string(t).ok()
}

/// The string that `n` holds, if it holds one.
pub open spec fn node_text(n: Node) -> Seq<char> {
    match n {
        Node::Text(s) => s,
        _ => Seq::empty(),
    }
}

/// Whether every node in `items` is a string.
pub open spec fn all_text(items: Seq<Node>) -> bool {
    forall|i: int| 0 <= i < items.len() ==> (#[trigger] items[i]) is Text
}

/// Whether every value in `t` is a string.
pub open spec fn all_text_values(t: Nodes) -> bool {
    forall|i: int| 0 <= i < t.len() ==> (#[trigger] t[i]).1 is Text
}

/// The item that stands for `n`: a string, a list of strings, or a table of
/// strings as it is; anything else as `Other`.
pub open spec fn item_of(n: Node) -> ItemView {
    match n {
        Node::Text(s) => ItemView::Text(s),
        Node::List(items) => if all_text(items) {
            ItemView::List(Seq::new(items.len(), |i: int| node_text(items[i])))
        } else {
            ItemView::Other
        },
        Node::Table(t) => if all_text_values(t) {
            ItemView::Table(Seq::new(t.len(), |i: int| (t[i].0, node_text(t[i].1))))
        } else {
            ItemView::Other
        },
        Node::Other => ItemView::Other,
    }
}

/// The document that stands for a TOML table with the entries `t`.
pub open spec fn document_of(t: Nodes) -> Fields {
    Seq::new(t.len(), |i: int| (t[i].0, item_of(t[i].1)))
}

/// The TOML value that stands for `item`.
pub open spec fn node_of(item: ItemView) -> Node {
    match item {
        ItemView::Text(s) => Node::Text(s),
        ItemView::List(v) => Node::List(Seq::new(v.len(), |i: int| Node::Text(v[i]))),
        ItemView::Table(e) => Node::Table(Seq::new(e.len(), |i: int| (e[i].0, Node::Text(e[i].1)))),
        ItemView::Other => Node::Other,
    }
}

/// The entries of the TOML table that stands for the document `d`.
pub open spec fn nodes_of(d: Fields) -> Nodes {
    Seq::new(d.len(), |i: int| (d[i].0, node_of(d[i].1)))
}

/// Whether `d` can be written: no key comes twice, in the document or in one
/// of its tables, and no item is `Other`.
pub open spec fn writable(d: Fields) -> bool {
    &&& forall|i: int, j: int| 0 <= i < j < d.len() ==> (#[trigger] d[i]).0 != (#[trigger] d[j]).0
    &&& forall|i: int| 0 <= i < d.len() ==> !((#[trigger] d[i]).1 is Other)
    &&& forall|i: int|
        0 <= i < d.len() ==> ((#[trigger] d[i]).1 matches ItemView::Table(e) ==> distinct_keys(e))
}

/// Writing a document as a TOML table and reading the table back gives the
/// document.
pub proof fn lemma_document_round_trip(d: Fields)
    ensures
        document_of(nodes_of(d)) == d,
{
    assert forall|i: int| 0 <= i < d.len() implies item_of(node_of(#[trigger] d[i].1))
        == d[i].1 by {
        match d[i].1 {
            ItemView::Text(s) => {},
            ItemView::List(v) => {
                let items = Seq::new(v.len(), |k: int| Node::Text(v[k]));
                assert(all_text(items));
                assert(Seq::new(items.len(), |k: int| node_text(items[k])) =~= v);
            },
            ItemView::Table(e) => {
                let t = Seq::new(e.len(), |k: int| (e[k].0, Node::Text(e[k].1)));
                assert(all_text_values(t));
                assert(Seq::new(t.len(), |k: int| (t[k].0, node_text(t[k].1))) =~= e);
            },
            ItemView::Other => {},
        }
    }
    assert(document_of(nodes_of(d)) =~= d);
}

/// The item that stands for `v`.
fn item_from(v: &toml::Value) -> (r: Item)
    ensures
        r@ == item_of(value_node(*v)),
{
    match shape_of(v) {
        Shape::Text(s) => Item::Text(s.to_owned()),
        Shape::List(items) => {
            let mut out: Vec<String> = Vec::new();
            let mut i: usize = 0;
            while i < items.len()
                invariant
                    i <= items.len(),
                    value_node(*v) == Node::List(value_nodes(items@)),
                    out.len() == i,
                    forall|j: int| 0 <= j < i ==> (#[trigger] value_nodes(items@)[j]) is Text,
                    forall|j: int|
                        0 <= j < i ==> (#[trigger] out[j])@ == node_text(value_nodes(items@)[j]),
                decreases items.len() - i,
            {
                match shape_of(&items[i]) {
                    Shape::Text(s) => {
                        out.push(s.to_owned());
                    },
                    _ => {
                        assert(!(value_nodes(items@)[i as int] is Text));
                        return Item::Other;
                    },
                }
                i += 1;
            }
            assert(texts_of(out@) =~= Seq::new(
                items@.len(),
                |i: int| node_text(value_nodes(items@)[i]),
            ));
            Item::List(out)
        },
        Shape::Table(t) => {
            let pairs = table_pairs(t);
            let mut out: Vec<(String, String)> = Vec::new();
            let mut i: usize = 0;
            while i < pairs.len()
                invariant
                    i <= pairs.len(),
                    value_node(*v) == Node::Table(table_nodes(*t)),
                    pairs@.len() == table_nodes(*t).len(),
                    forall|j: int|
                        0 <= j < pairs@.len() ==> ((#[trigger] pairs@[j]).0@, value_node(
                            *pairs@[j].1,
                        )) == table_nodes(*t)[j],
                    out.len() == i,
                    forall|j: int| 0 <= j < i ==> (#[trigger] table_nodes(*t)[j]).1 is Text,
                    forall|j: int|
                        0 <= j < i ==> ((#[trigger] out[j]).0@, out[j].1@) == (
                            table_nodes(*t)[j].0,
                            node_text(table_nodes(*t)[j].1),
                        ),
                decreases pairs.len() - i,
            {
                let pair = pairs[i];
                match shape_of(pair.1) {
                    Shape::Text(s) => {
                        out.push((pair.0.clone(), s.to_owned()));
                    },
                    _ => {
                        assert(!(table_nodes(*t)[i as int].1 is Text));
                        return Item::Other;
                    },
                }
                i += 1;
            }
            assert(pairs_of(out@) =~= Seq::new(
                table_nodes(*t).len(),
                |i: int| (table_nodes(*t)[i].0, node_text(table_nodes(*t)[i].1)),
            ));
            Item::Table(out)
        },
        Shape::Other => Item::Other,
    }
}

/// Reads `text` as a TOML document. Nothing comes back where the `toml` crate
/// refuses the text.
pub fn parse_document(text: &str) -> (r: Option<Document>)
    ensures
        match r {
            Some(d) => toml_parsed(text@) matches Some(t) && d@ == document_of(t),
            None => toml_parsed(text@) is None,
        },
{
    match parse_table(text) {
        None => None,
        Some(t) => {
            let pairs = table_pairs(&t);
            let mut entries: Vec<(String, Item)> = Vec::new();
            let mut i: usize = 0;
            while i < pairs.len()
                invariant
                    i <= pairs.len(),
                    pairs@.len() == table_nodes(t).len(),
                    forall|j: int|
                        0 <= j < pairs@.len() ==> ((#[trigger] pairs@[j]).0@, value_node(
                            *pairs@[j].1,
                        )) == table_nodes(t)[j],
                    entries.len() == i,
                    forall|j: int|
                        0 <= j < i ==> ((#[trigger] entries[j]).0@, entries[j].1@) == (
                            table_nodes(t)[j].0,
                            item_of(table_nodes(t)[j].1),
                        ),
                decreases pairs.len() - i,
            {
                let pair = pairs[i];
                entries.push((pair.0.clone(), item_from(pair.1)));
                i += 1;
            }
            let doc = Document { entries };
            assert(doc@ =~= document_of(table_nodes(t)));
            Some(doc)
        },
    }
}

/// The TOML value that stands for `item`, unless the item is `Other` or is a
/// table in which a key comes twice.
#[verifier::loop_isolation(false)]
fn value_from(item: &Item) -> (r: Option<toml::Value>)
    ensures
        match r {
            Some(v) => value_node(v) == node_of(item@) && !(item@ is Other) && (
            item@ matches ItemView::Table(e) ==> distinct_keys(e)),
            None => item@ is Other || (item@ matches ItemView::Table(e) && !distinct_keys(e)),
        },
{
    match item {
        Item::Text(s) => Some(value_text(s.clone())),
        Item::List(texts) => {
            let mut items: Vec<toml::Value> = Vec::new();
            let mut i: usize = 0;
            while i < texts.len()
                invariant
                    i <= texts.len(),
                    items.len() == i,
                    forall|j: int|
                        0 <= j < i ==> value_node(#[trigger] items[j]) == Node::Text(texts[j]@),
                decreases texts.len() - i,
            {
                items.push(value_text(texts[i].clone()));
                i += 1;
            }
            assert(value_nodes(items@) =~= Seq::new(
                texts_of(texts@).len(),
                |i: int| Node::Text(texts_of(texts@)[i]),
            ));
            Some(value_list(items))
        },
        Item::Table(pairs) => {
            let mut t = empty_table();
            let mut i: usize = 0;
            while i < pairs.len()
                invariant
                    i <= pairs.len(),
                    table_nodes(t).len() == i,
                    forall|j: int|
                        0 <= j < i ==> (#[trigger] table_nodes(t)[j]) == (
                            pairs[j].0@,
                            Node::Text(pairs[j].1@),
                        ),
                    forall|j: int, k: int|
                        0 <= j < k < i ==> (#[trigger] pairs[j]).0@ != (#[trigger] pairs[k]).0@,
                decreases pairs.len() - i,
            {
                let ghost before = table_nodes(t);
                let put = table_put(&mut t, pairs[i].0.clone(), value_text(pairs[i].1.clone()));
                if put.is_some() {
                    proof {
                        let j = choose|j: int|
                            0 <= j < before.len() && (#[trigger] before[j]).0 == pairs[i as int].0@;
                        assert(pairs_of(pairs@)[j].0 == pairs_of(pairs@)[i as int].0);
                    }
                    return None;
                }
                assert forall|j: int| 0 <= j < i implies (#[trigger] pairs[j]).0@ != pairs[i as int].0@ by {
                    assert(before[j].0 == pairs[j].0@);
                }
                i += 1;
            }
            assert(table_nodes(t) =~= Seq::new(
                pairs_of(pairs@).len(),
                |i: int| (pairs_of(pairs@)[i].0, Node::Text(pairs_of(pairs@)[i].1)),
            ));
            assert(distinct_keys(pairs_of(pairs@)));
            Some(value_table(t))
        },
        Item::Other => None,
    }
}

/// Writes `doc` as a TOML document. A document that is not [`writable`] is
/// refused, and so is one that the `toml` crate refuses.
pub fn render_document(doc: &Document) -> (r: Result<String, Error>)
    ensures
        match r {
            Ok(text) => writable(doc@) && toml_rendered(nodes_of(doc@)) == Some(text@),
            Err(e) => e@ == ErrorView::Unwritable && (!writable(doc@) || toml_rendered(
                nodes_of(doc@),
            ) is None),
        },
{
    let mut t = empty_table();
    let mut i: usize = 0;
    while i < doc.entries.len()
        invariant
            i <= doc.entries.len(),
            table_nodes(t).len() == i,
            forall|j: int| 0 <= j < i ==> (#[trigger] table_nodes(t)[j]) == nodes_of(doc@)[j],
            forall|j: int, k: int| 0 <= j < k < i ==> (#[trigger] doc@[j]).0 != (#[trigger] doc@[k]).0,
            forall|j: int| 0 <= j < i ==> !((#[trigger] doc@[j]).1 is Other),
            forall|j: int|
                0 <= j < i ==> ((#[trigger] doc@[j]).1 matches ItemView::Table(e) ==> distinct_keys(
                    e,
                )),
        decreases doc.entries.len() - i,
    {
        let value = match value_from(&doc.entries[i].1) {
            Some(v) => v,
            None => {
                assert(doc@[i as int].1 == doc.entries[i as int].1@);
                return Err(Error::Unwritable);
            },
        };
        assert(doc@[i as int].1 == doc.entries[i as int].1@);
        let ghost before = table_nodes(t);
        let put = table_put(&mut t, doc.entries[i].0.clone(), value);
        if put.is_some() {
            proof {
                let j = choose|j: int|
                    0 <= j < before.len() && (#[trigger] before[j]).0 == doc.entries[i as int].0@;
                assert(doc@[j].0 == doc@[i as int].0);
            }
            return Err(Error::Unwritable);
        }
        assert forall|j: int| 0 <= j < i implies (#[trigger] doc@[j]).0 != doc@[i as int].0 by {
            assert(before[j].0 == doc@[j].0);
        }
        i += 1;
    }
    assert(table_nodes(t) =~= nodes_of(doc@));
    assert(writable(doc@));
    proof {
        lemma_plain(doc@);
    }
    match render_table(&t) {
        Some(text) => Ok(text),
        None => Err(Error::Unwritable),
    }
}

/// The table that stands for a document without `Other` items is made of
/// strings, lists and tables only.
proof fn lemma_plain(d: Fields)
    requires
        forall|i: int| 0 <= i < d.len() ==> !((#[trigger] d[i]).1 is Other),
    ensures
        plain_nodes(nodes_of(d)),
{
    assert forall|i: int| 0 <= i < nodes_of(d).len() implies plain_node(
        (#[trigger] nodes_of(d)[i]).1,
    ) by {
        assert(!(d[i].1 is Other));
        match d[i].1 {
            ItemView::Text(s) => {},
            ItemView::List(v) => {
                let items = Seq::new(v.len(), |k: int| Node::Text(v[k]));
                assert forall|k: int| 0 <= k < items.len() implies plain_node(
                    #[trigger] items[k],
                ) by {}
            },
            ItemView::Table(e) => {
                let t = Seq::new(e.len(), |k: int| (e[k].0, Node::Text(e[k].1)));
                assert forall|k: int| 0 <= k < t.len() implies plain_node((#[trigger] t[k]).1) by {}
            },
            ItemView::Other => {},
        }
    }
}

} // verus!
