//! Ordered header-to-value maps of `indexmap`, behind trusted items.

use vstd::prelude::*;

use indexmap::IndexMap;

verus! {

/// Declares `indexmap::IndexMap` to the verifier; its contents are named below.
#[verifier::external_type_specification]
#[verifier::external_body]
#[verifier::reject_recursive_types(K)]
#[verifier::reject_recursive_types(V)]
#[verifier::reject_recursive_types(S)]
pub struct ExIndexMap<K, V, S>(IndexMap<K, V, S>);

/// The entries of a map of borrowed headers to borrowed values, in insertion order.
pub uninterp spec fn ref_entries(m: IndexMap<&str, &str>) -> Seq<(Seq<char>, Seq<char>)>;

/// The entries of a map of owned headers to owned values, in insertion order.
pub uninterp spec fn owned_entries(m: IndexMap<String, String>) -> Seq<(Seq<char>, Seq<char>)>;

/// The index of the first entry with the given key, or -1 where none has it.
pub open spec fn find_key(entries: Seq<(Seq<char>, Seq<char>)>, key: Seq<char>) -> int
    decreases entries.len(),
{
    if entries.len() == 0 {
        -1
    } else {
        let j = find_key(entries.drop_last(), key);
        if j >= 0 {
            j
        } else if entries.last().0 == key {
            entries.len() - 1
        } else {
            -1
        }
    }
}

/// The entries after inserting a key with a value: an existing key keeps its
/// place and takes the new value; a new key is appended.
pub open spec fn insert_entry(entries: Seq<(Seq<char>, Seq<char>)>, key: Seq<char>, value: Seq<char>) -> Seq<
    (Seq<char>, Seq<char>),
> {
    let i = find_key(entries, key);
    if i >= 0 {
        entries.update(i, (entries[i].0, value))
    } else {
        entries.push((key, value))
    }
}

/// The value of the entry with the given key, if any.
pub open spec fn lookup(entries: Seq<(Seq<char>, Seq<char>)>, key: Seq<char>) -> Option<Seq<char>> {
    let i = find_key(entries, key);
    if i >= 0 {
        Some(entries[i].1)
    } else {
        None
    }
}

/// Trusted: calls `IndexMap::with_capacity`, documented to create an empty map.
#[verifier::external_body]
pub fn ref_map_with_capacity<'dt>(n: usize) -> (m: IndexMap<&'dt str, &'dt str>)
    ensures
        ref_entries(m) == Seq::<(Seq<char>, Seq<char>)>::empty(),
{
    IndexMap::with_capacity(n)
}

/// Trusted: calls `IndexMap::insert`, documented to update the value of an
/// equal key in place and otherwise to append the pair last in order.
#[verifier::external_body]
pub fn ref_map_insert<'dt>(m: &mut IndexMap<&'dt str, &'dt str>, key: &'dt str, value: &'dt str)
    ensures
        ref_entries(*final(m)) == insert_entry(ref_entries(*old(m)), key@, value@),
{
    m.insert(key, value);
}

/// Trusted: calls `IndexMap::len`, the number of entries.
#[verifier::external_body]
pub fn ref_map_len(m: &IndexMap<&str, &str>) -> (n: usize)
    ensures
        n == ref_entries(*m).len(),
{
    m.len()
}

/// Trusted: calls `IndexMap::get_index`, the entry at an index in insertion order.
#[verifier::external_body]
pub fn ref_map_get_index<'r, 'dt>(m: &'r IndexMap<&'dt str, &'dt str>, index: usize) -> (r: Option<(&'r &'dt str, &'r &'dt str)>)
    ensures
        index < ref_entries(*m).len() <==> r is Some,
        r matches Some(e) ==> (*e.0)@ == ref_entries(*m)[index as int].0 && (*e.1)@ == ref_entries(*m)[index as int].1,
{
    m.get_index(index)
}

/// Trusted: calls `IndexMap::get`, the value of the entry with an equal key.
#[verifier::external_body]
pub fn ref_map_get<'r, 'dt>(m: &'r IndexMap<&'dt str, &'dt str>, key: &str) -> (r: Option<&'r &'dt str>)
    ensures
        lookup(ref_entries(*m), key@) is Some <==> r is Some,
        r matches Some(v) ==> lookup(ref_entries(*m), key@) == Some((*v)@),
{
    m.get(key)
}

/// Trusted: calls `IndexMap::contains_key`.
#[verifier::external_body]
pub fn ref_map_contains_key(m: &IndexMap<&str, &str>, key: &str) -> (r: bool)
    ensures
        r == (find_key(ref_entries(*m), key@) >= 0),
{
    m.contains_key(key)
}

/// Trusted: calls `IndexMap::get_index_mut` and replaces the value at an
/// index, which leaves the keys and their order as they were.
#[verifier::external_body]
pub fn ref_map_set_value_at<'dt>(m: &mut IndexMap<&'dt str, &'dt str>, index: usize, value: &'dt str)
    requires
        index < ref_entries(*old(m)).len(),
    ensures
        ref_entries(*final(m)) == ref_entries(*old(m)).update(
            index as int,
            (ref_entries(*old(m))[index as int].0, value@),
        ),
{
    if let Some((_header, slot)) = m.get_index_mut(index) {
        *slot = value;
    }
}

/// Trusted: calls `IndexMap::with_capacity`, documented to create an empty map.
#[verifier::external_body]
pub fn owned_map_with_capacity(n: usize) -> (m: IndexMap<String, String>)
    ensures
        owned_entries(m) == Seq::<(Seq<char>, Seq<char>)>::empty(),
{
    IndexMap::with_capacity(n)
}

/// Trusted: calls `IndexMap::insert`, documented to update the value of an
/// equal key in place and otherwise to append the pair last in order.
#[verifier::external_body]
pub fn owned_map_insert(m: &mut IndexMap<String, String>, key: String, value: String)
    ensures
        owned_entries(*final(m)) == insert_entry(owned_entries(*old(m)), key@, value@),
{
    m.insert(key, value);
}

/// Trusted: calls `IndexMap::len`, the number of entries.
#[verifier::external_body]
pub fn owned_map_len(m: &IndexMap<String, String>) -> (n: usize)
    ensures
        n == owned_entries(*m).len(),
{
    m.len()
}

/// Trusted: calls `IndexMap::get_index`, the entry at an index in insertion order.
#[verifier::external_body]
pub fn owned_map_get_index(m: &IndexMap<String, String>, index: usize) -> (r: Option<(&str, &str)>)
    ensures
        index < owned_entries(*m).len() <==> r is Some,
        r matches Some(e) ==> e.0@ == owned_entries(*m)[index as int].0 && e.1@ == owned_entries(*m)[index as int].1,
{
    m.get_index(index).map(|(header, value)| (header.as_str(), value.as_str()))
}

/// Trusted: calls `IndexMap::get`, the value of the entry with an equal key.
#[verifier::external_body]
pub fn owned_map_get<'r>(m: &'r IndexMap<String, String>, key: &str) -> (r: Option<&'r str>)
    ensures
        lookup(owned_entries(*m), key@) is Some <==> r is Some,
        r matches Some(v) ==> lookup(owned_entries(*m), key@) == Some(v@),
{
    m.get(key).map(|value| value.as_str())
}

/// Trusted: calls `IndexMap::contains_key`.
#[verifier::external_body]
pub fn owned_map_contains_key(m: &IndexMap<String, String>, key: &str) -> (r: bool)
    ensures
        r == (find_key(owned_entries(*m), key@) >= 0),
{
    m.contains_key(key)
}

} // verus!
