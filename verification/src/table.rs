//! Ordered string tables: an `IndexMap` from the `indexmap` crate, with keys
//! and values that are strings, as the registry and the projects keep them.
//!
//! The map itself is not verified. Its contents are known here as a sequence
//! of entries, [`entries`], and each of its methods in use is called through a
//! small function whose contract says what the method does to that sequence.
//! What is built on these functions is verified.

use crate::document::pairs_of;
use crate::name::{find_name_defect, is_name};
use indexmap::IndexMap;
use vstd::prelude::*;

verus! {

/// The crate's map that remembers the order in which keys were put in.
#[verifier::external_type_specification]
#[verifier::external_body]
#[verifier::reject_recursive_types(K)]
#[verifier::reject_recursive_types(V)]
#[verifier::reject_recursive_types(S)]
pub struct ExIndexMap<K, V, S>(IndexMap<K, V, S>);

/// The entries of a table, each a key and its value, in the table's order.
pub type Entries = Seq<(Seq<char>, Seq<char>)>;

/// A key and its value, borrowed from a table.
pub type EntryRef<'a> = (&'a String, &'a String);

/// The entries that `m` holds, in the order in which `m` hands them out. A map
/// holds no key twice, so at most one entry has a given key.
pub uninterp spec fn entries(m: IndexMap<String, String>) -> Seq<(Seq<char>, Seq<char>)>;

/// Whether some entry of `t` has the key `k`.
pub open spec fn has_key(t: Entries, k: Seq<char>) -> bool {
    exists|i: int| 0 <= i < t.len() && (#[trigger] t[i]).0 == k
}

/// The place of an entry of `t` with the key `k`, where there is one.
pub open spec fn key_index(t: Entries, k: Seq<char>) -> int {
    choose|i: int| 0 <= i < t.len() && (#[trigger] t[i]).0 == k
}

/// The value that `t` keeps under `key`.
pub open spec fn lookup(t: Entries, key: Seq<char>) -> Seq<char> {
    t[key_index(t, key)].1
}

/// `t` with `value` under `key`: in the place of the entry that has the key,
/// or behind all entries where none has it.
pub open spec fn put(t: Entries, key: Seq<char>, value: Seq<char>) -> Entries {
    if has_key(t, key) {
        t.update(key_index(t, key), (key, value))
    } else {
        t.push((key, value))
    }
}

/// `t` without the entry that has the key `key`; the other entries keep their
/// order.
pub open spec fn without(t: Entries, key: Seq<char>) -> Entries {
    if has_key(t, key) {
        t.remove(key_index(t, key))
    } else {
        t
    }
}

/// Whether no two entries of `t` have the same key.
pub open spec fn distinct_keys(t: Entries) -> bool {
    forall|i: int, j: int| 0 <= i < j < t.len() ==> (#[trigger] t[i]).0 != (#[trigger] t[j]).0
}

/// `IndexMap::new`. Trusted: the new map holds nothing.
#[verifier::external_body]
pub(crate) fn table_new() -> (m: IndexMap<String, String>)
    ensures
        entries(m) == Seq::<(Seq<char>, Seq<char>)>::empty(),
{
    IndexMap::new()
}

/// `IndexMap::len`. Trusted: it is the number of entries.
#[verifier::external_body]
pub(crate) fn table_len(m: &IndexMap<String, String>) -> (n: usize)
    ensures
        n == entries(*m).len(),
{
    m.len()
}

/// `IndexMap::get_index`. Trusted: it hands out the entry at place `i` of the
/// map's order, and nothing from `len` on.
#[verifier::external_body]
pub(crate) fn table_get_index<'a>(m: &'a IndexMap<String, String>, i: usize) -> (r: Option<EntryRef<'a>>)
    ensures
        match r {
            Some(pair) => i < entries(*m).len() && (pair.0@, pair.1@) == entries(*m)[i as int],
            None => i >= entries(*m).len(),
        },
{
    m.get_index(i)
}

/// `IndexMap::get`. Trusted: it finds the value of the entry whose key equals
/// `key`, and nothing where no entry has that key.
#[verifier::external_body]
pub(crate) fn table_get<'a>(m: &'a IndexMap<String, String>, key: &str) -> (r: Option<&'a String>)
    ensures
        r is Some <==> has_key(entries(*m), key@),
        r is Some ==> r->0@ == lookup(entries(*m), key@),
{
    m.get(key)
}

/// `IndexMap::contains_key`. Trusted: it says whether an entry has a key equal
/// to `key`.
#[verifier::external_body]
pub(crate) fn table_contains_key(m: &IndexMap<String, String>, key: &str) -> (r: bool)
    ensures
        r == has_key(entries(*m), key@),
{
    m.contains_key(key)
}

/// `IndexMap::insert`. Trusted: where no entry has the key, the pair becomes
/// the last entry and nothing is returned; where one has it, that entry keeps
/// its place and its key, takes the new value, and the old value is returned.
#[verifier::external_body]
pub(crate) fn table_insert(m: &mut IndexMap<String, String>, key: String, value: String) -> (r: Option<String>)
    ensures
        r is Some <==> has_key(entries(*old(m)), key@),
        r is Some ==> r->0@ == lookup(entries(*old(m)), key@),
        entries(*final(m)) == put(entries(*old(m)), key@, value@),
{
    m.insert(key, value)
}

/// `IndexMap::shift_remove`. Trusted: where an entry has the key, it leaves,
/// the entries behind it move up in their order, and its value is returned;
/// where none has it, the map stays as it is and nothing is returned.
#[verifier::external_body]
pub(crate) fn table_shift_remove(m: &mut IndexMap<String, String>, key: &str) -> (r: Option<String>)
    ensures
        r is Some <==> has_key(entries(*old(m)), key@),
        r is Some ==> r->0@ == lookup(entries(*old(m)), key@),
        entries(*final(m)) == without(entries(*old(m)), key@),
{
    m.shift_remove(key)
}

/// Whether `t` can be a table of scripts or of projects: every key is a name,
/// and no key comes twice.
pub open spec fn named_table(t: Entries) -> bool {
    &&& distinct_keys(t)
    &&& forall|i: int| 0 <= i < t.len() ==> is_name((#[trigger] t[i]).0)
}

/// Builds the table with the entries `pairs`, unless a key is no name or
/// comes twice.
pub(crate) fn table_from_pairs(pairs: &Vec<(String, String)>) -> (r: Option<IndexMap<String, String>>)
    ensures
        match r {
            Some(t) => named_table(pairs_of(pairs@)) && entries(t) == pairs_of(pairs@),
            None => !named_table(pairs_of(pairs@)),
        },
{
    let mut table = table_new();
    let mut i: usize = 0;
    while i < pairs.len()
        invariant
            i <= pairs.len(),
            entries(table) == pairs_of(pairs@).take(i as int),
            named_table(entries(table)),
        decreases pairs.len() - i,
    {
        let ghost before = entries(table);
        match find_name_defect(pairs[i].0.as_str()) {
            None => {},
            Some(_) => {
                assert(!is_name(pairs_of(pairs@)[i as int].0));
                return None;
            },
        }
        if table_contains_key(&table, pairs[i].0.as_str()) {
            proof {
                let j = choose|j: int|
                    0 <= j < before.len() && (#[trigger] before[j]).0 == pairs[i as int].0@;
                assert(pairs_of(pairs@)[j].0 == pairs_of(pairs@)[i as int].0);
            }
            return None;
        }
        let _ = table_insert(&mut table, pairs[i].0.clone(), pairs[i].1.clone());
        assert(entries(table) =~= pairs_of(pairs@).take(i + 1));
        i += 1;
    }
    assert(pairs_of(pairs@).take(pairs.len() as int) =~= pairs_of(pairs@));
    Some(table)
}

/// The entries of `table` as pairs of strings, in the table's order.
pub(crate) fn pairs_from_table(table: &IndexMap<String, String>) -> (r: Vec<(String, String)>)
    ensures
        pairs_of(r@) == entries(*table),
{
    let n = table_len(table);
    let mut pairs: Vec<(String, String)> = Vec::new();
    let mut i: usize = 0;
    while i < n
        invariant
            i <= n,
            n == entries(*table).len(),
            pairs.len() == i,
            forall|j: int|
                0 <= j < i ==> ((#[trigger] pairs[j]).0@, pairs[j].1@) == entries(*table)[j],
        decreases n - i,
    {
        if let Some(pair) = table_get_index(table, i) {
            pairs.push((pair.0.clone(), pair.1.clone()));
        }
        i += 1;
    }
    assert(pairs_of(pairs@) =~= entries(*table));
    pairs
}

/// Whether two tables hold the same entries in the same order.
pub(crate) fn tables_equal(a: &IndexMap<String, String>, b: &IndexMap<String, String>) -> (r: bool)
    ensures
        r == (entries(*a) == entries(*b)),
{
    let n = table_len(a);
    if n != table_len(b) {
        return false;
    }
    let mut i: usize = 0;
    while i < n
        invariant
            i <= n,
            n == entries(*a).len(),
            n == entries(*b).len(),
            forall|j: int| 0 <= j < i ==> entries(*a)[j] == entries(*b)[j],
        decreases n - i,
    {
        match (table_get_index(a, i), table_get_index(b, i)) {
            (Some(x), Some(y)) => {
                if !(*x.0 == *y.0) || !(*x.1 == *y.1) {
                    assert(entries(*a)[i as int] != entries(*b)[i as int]);
                    return false;
                }
            },
            _ => {},
        }
        i += 1;
    }
    assert(entries(*a) =~= entries(*b));
    true
}

/// A table with distinct keys gives, for the key of its entry at `i`, that
/// entry's value.
pub proof fn lemma_lookup_at(t: Entries, i: int)
    requires
        distinct_keys(t),
        0 <= i < t.len(),
    ensures
        has_key(t, t[i].0),
        key_index(t, t[i].0) == i,
        lookup(t, t[i].0) == t[i].1,
{
    let k = t[i].0;
    assert(0 <= i < t.len() && t[i].0 == k);
    let j = key_index(t, k);
    assert(0 <= j < t.len() && t[j].0 == k);
    if j < i {
        assert(t[j].0 != t[i].0);
    }
    if i < j {
        assert(t[i].0 != t[j].0);
    }
}

/// A table with distinct keys still has distinct keys once an entry with a
/// new key is put behind the others.
pub proof fn lemma_push_distinct(t: Entries, key: Seq<char>, value: Seq<char>)
    requires
        distinct_keys(t),
        !has_key(t, key),
    ensures
        distinct_keys(t.push((key, value))),
{
    let u = t.push((key, value));
    assert forall|i: int, j: int| 0 <= i < j < u.len() implies (#[trigger] u[i]).0 != (
    #[trigger] u[j]).0 by {
        if j == t.len() {
            assert(t[i].0 != key);
        } else {
            assert(t[i].0 != t[j].0);
        }
    }
}

/// Taking the entry with the key `name` out of a table with distinct keys
/// leaves a table with distinct keys that is one entry shorter, lacks `name`,
/// and holds every other key with the value that it had.
pub proof fn lemma_remove_key(t: Entries, name: Seq<char>, other: Seq<char>)
    requires
        distinct_keys(t),
        has_key(t, name),
    ensures
        ({
            let u = t.remove(key_index(t, name));
            &&& u.len() == t.len() - 1
            &&& distinct_keys(u)
            &&& !has_key(u, name)
            &&& other != name ==> has_key(u, other) == has_key(t, other)
            &&& other != name && has_key(t, other) ==> lookup(u, other) == lookup(t, other)
        }),
{
    let k = key_index(t, name);
    assert(0 <= k < t.len() && t[k].0 == name);
    let u = t.remove(k);
    assert(distinct_keys(u)) by {
        assert forall|i: int, j: int| 0 <= i < j < u.len() implies (#[trigger] u[i]).0 != (
        #[trigger] u[j]).0 by {
            let a = if i < k { i } else { i + 1 };
            let b = if j < k { j } else { j + 1 };
            assert(t[a].0 != t[b].0);
        }
    }
    assert(!has_key(u, name)) by {
        if has_key(u, name) {
            let i = key_index(u, name);
            assert(0 <= i < u.len() && u[i].0 == name);
            let a = if i < k { i } else { i + 1 };
            if a < k {
                assert(t[a].0 != t[k].0);
            } else {
                assert(t[k].0 != t[a].0);
            }
        }
    }
    if other != name {
        if has_key(t, other) {
            let i = key_index(t, other);
            assert(0 <= i < t.len() && t[i].0 == other);
            let a = if i < k { i } else { i - 1 };
            assert(u[a] == t[i]);
            assert(has_key(u, other));
            lemma_lookup_at(u, a);
            lemma_lookup_at(t, i);
        }
        if has_key(u, other) {
            let i = key_index(u, other);
            assert(0 <= i < u.len() && u[i].0 == other);
            let a = if i < k { i } else { i + 1 };
            assert(t[a].0 == other);
            assert(has_key(t, other));
        }
    }
}

} // verus!
