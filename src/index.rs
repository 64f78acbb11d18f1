//! The ordered map from project names to paths, kept in an `indexmap::IndexMap`.
//!
//! Verus sees the map only through `index_entries`: its key-value pairs, as
//! character sequences, in the map's order. Each wrapper below states what the
//! corresponding `IndexMap` method does to that sequence.
use indexmap::IndexMap;
use vstd::prelude::*;

verus! {

#[verifier::external_type_specification]
#[verifier::external_body]
#[verifier::reject_recursive_types(K)]
#[verifier::reject_recursive_types(V)]
#[verifier::reject_recursive_types(S)]
pub struct ExIndexMap<K, V, S>(IndexMap<K, V, S>);

/// The key-value pairs of a map, in the map's order.
pub uninterp spec fn index_entries(m: IndexMap<String, String>) -> Seq<(Seq<char>, Seq<char>)>;

/// Some pair of `es` has the key `k`.
pub open spec fn has_key(es: Seq<(Seq<char>, Seq<char>)>, k: Seq<char>) -> bool {
    exists|i: int| 0 <= i < es.len() && (#[trigger] es[i]).0 == k
}

/// No two pairs of `es` share a key.
pub open spec fn keys_distinct(es: Seq<(Seq<char>, Seq<char>)>) -> bool {
    forall|i: int, j: int| 0 <= i < es.len() && 0 <= j < es.len() && i != j ==> (#[trigger] es[i]).0 != (#[trigger] es[j]).0
}

/// Relies on `IndexMap::new`: a new map is empty.
#[verifier::external_body]
pub(crate) fn index_new() -> (m: IndexMap<String, String>)
    ensures
        index_entries(m) == Seq::<(Seq<char>, Seq<char>)>::empty(),
{
    IndexMap::new()
}

/// Relies on `IndexMap::insert`: a key already present keeps its place and takes
/// the new value; a new key goes last.
#[verifier::external_body]
pub(crate) fn index_insert(m: &mut IndexMap<String, String>, k: String, v: String)
    ensures
        has_key(index_entries(*old(m)), k@) ==> exists|i: int|
            0 <= i < index_entries(*old(m)).len() && index_entries(*old(m))[i].0 == k@
                && index_entries(*final(m)) == index_entries(*old(m)).update(i, (k@, v@)),
        !has_key(index_entries(*old(m)), k@) ==> index_entries(*final(m)) == index_entries(
            *old(m),
        ).push((k@, v@)),
{
    m.insert(k, v);
}

/// Relies on `IndexMap::get`: the value stored under `k`, if `k` is present.
#[verifier::external_body]
pub(crate) fn index_get(m: &IndexMap<String, String>, k: &str) -> (r: Option<String>)
    ensures
        r is Some <==> has_key(index_entries(*m), k@),
        r is Some ==> exists|i: int|
            0 <= i < index_entries(*m).len() && index_entries(*m)[i] == (k@, r->Some_0@),
{
    m.get(k).cloned()
}

/// Relies on `IndexMap::shift_remove`: the pair with key `k` leaves the map and
/// the pairs after it move up one place, keeping their order.
#[verifier::external_body]
pub(crate) fn index_shift_remove(m: &mut IndexMap<String, String>, k: &str) -> (r: Option<String>)
    ensures
        r is Some <==> has_key(index_entries(*old(m)), k@),
        r is Some ==> exists|i: int|
            0 <= i < index_entries(*old(m)).len() && index_entries(*old(m))[i] == (k@, r->Some_0@)
                && index_entries(*final(m)) == index_entries(*old(m)).remove(i),
        r is None ==> index_entries(*final(m)) == index_entries(*old(m)),
{
    m.shift_remove(k)
}

/// Relies on `IndexMap::len`: the number of pairs.
#[verifier::external_body]
pub(crate) fn index_len(m: &IndexMap<String, String>) -> (r: usize)
    ensures
        r == index_entries(*m).len(),
{
    m.len()
}

/// Relies on `IndexMap::iter`: the pairs, in the map's order.
#[verifier::external_body]
pub(crate) fn index_pairs(m: &IndexMap<String, String>) -> (r: Vec<(String, String)>)
    ensures
        r@.len() == index_entries(*m).len(),
        forall|i: int| 0 <= i < r@.len() ==> (#[trigger] r@[i]).0@ == index_entries(*m)[i].0 && r@[i].1@ == index_entries(*m)[i].1,
{
    m.iter().map(|(k, v)| (k.clone(), v.clone())).collect()
}

} // verus!
