//! Insertion-ordered unique maps, backed by the outside `indexmap` crate.
//!
//! The assignment data model needs maps that keep both key uniqueness and
//! insertion-order iteration. `indexmap::IndexMap` provides exactly that; its
//! contents are named here as a sequence of key/value pairs in insertion
//! order, and each method the logic calls is wrapped with a contract over
//! that sequence.

use vstd::prelude::*;

use indexmap::IndexMap;
use std::collections::hash_map::RandomState;

use crate::field::FieldValue;
use crate::variable::AssignmentVariable;

verus! {

#[verifier::external_type_specification]
#[verifier::external_body]
#[verifier::reject_recursive_types(K)]
#[verifier::reject_recursive_types(V)]
#[verifier::reject_recursive_types(S)]
pub struct ExIndexMap<K, V, S>(IndexMap<K, V, S>);

/// An ordered unique map from variable index to field value.
pub type InputMap = IndexMap<u64, FieldValue, RandomState>;

/// An ordered unique map from variable identity to coefficient.
pub type TermMap = IndexMap<AssignmentVariable, FieldValue, RandomState>;

/// The contents of an input map: its key/value pairs in insertion order.
pub uninterp spec fn input_map_entries(m: InputMap) -> Seq<(u64, FieldValue)>;

/// The contents of a term map: its key/value pairs in insertion order.
pub uninterp spec fn term_map_entries(m: TermMap) -> Seq<(AssignmentVariable, FieldValue)>;

/// The position of the entry holding key `k`, or `-1` when no entry does.
pub open spec fn find_key<K, V>(entries: Seq<(K, V)>, k: K) -> int
    decreases entries.len(),
{
    if entries.len() == 0 {
        -1
    } else if entries[0].0 == k {
        0
    } else {
        let rest = find_key(entries.drop_first(), k);
        if rest < 0 {
            -1
        } else {
            rest + 1
        }
    }
}

/// A key that no entry holds is not found.
pub proof fn lemma_find_key_absent<K, V>(entries: Seq<(K, V)>, k: K)
    requires
        forall|j: int| 0 <= j < entries.len() ==> (#[trigger] entries[j]).0 != k,
    ensures
        find_key(entries, k) < 0,
    decreases entries.len(),
{
    if entries.len() > 0 {
        let rest = entries.drop_first();
        assert forall|j: int| 0 <= j < rest.len() implies (#[trigger] rest[j]).0 != k by {
            assert(rest[j] == entries[j + 1]);
        }
        lemma_find_key_absent(rest, k);
    }
}

/// Relies on `IndexMap::new`: the new map is empty.
#[verifier::external_body]
pub(crate) fn input_map_new() -> (r: InputMap)
    ensures
        input_map_entries(r) == Seq::<(u64, FieldValue)>::empty(),
{
    IndexMap::new()
}

/// Relies on `IndexMap::len`: the number of entries.
#[verifier::external_body]
pub(crate) fn input_map_len(m: &InputMap) -> (r: usize)
    ensures
        r == input_map_entries(*m).len(),
{
    m.len()
}

/// Relies on `IndexMap::insert`: a fresh key appends its pair last in order;
/// an existing key keeps its place and has only its value replaced, the old
/// value coming back.
#[verifier::external_body]
pub(crate) fn input_map_insert(m: &mut InputMap, k: u64, v: FieldValue) -> (r: Option<FieldValue>)
    ensures
        ({
            let prior = input_map_entries(*old(m));
            let now = input_map_entries(*final(m));
            let at = find_key(prior, k);
            if at < 0 {
                now == prior.push((k, v)) && r is None
            } else {
                now == prior.update(at, (k, v)) && r == Some(prior[at].1)
            }
        }),
{
    m.insert(k, v)
}

/// Relies on `IndexMap::get_index`: the pair at a position in insertion
/// order, or nothing when the position is past the end.
#[verifier::external_body]
pub(crate) fn input_map_get_index(m: &InputMap, i: usize) -> (r: Option<(u64, FieldValue)>)
    ensures
        i < input_map_entries(*m).len() ==> r == Some(input_map_entries(*m)[i as int]),
        i >= input_map_entries(*m).len() ==> r is None,
{
    m.get_index(i).map(|(k, v)| (*k, *v))
}

/// Relies on `IndexMap::new`: the new map is empty.
#[verifier::external_body]
pub(crate) fn term_map_new() -> (r: TermMap)
    ensures
        term_map_entries(r) == Seq::<(AssignmentVariable, FieldValue)>::empty(),
{
    IndexMap::new()
}

/// Relies on `IndexMap::len`: the number of entries.
#[verifier::external_body]
pub(crate) fn term_map_len(m: &TermMap) -> (r: usize)
    ensures
        r == term_map_entries(*m).len(),
{
    m.len()
}

/// Relies on `IndexMap::insert`: a fresh key appends its pair last in order;
/// an existing key keeps its place and has only its value replaced, the old
/// value coming back.
#[verifier::external_body]
pub(crate) fn term_map_insert(m: &mut TermMap, k: AssignmentVariable, v: FieldValue) -> (r: Option<
    FieldValue,
>)
    ensures
        ({
            let prior = term_map_entries(*old(m));
            let now = term_map_entries(*final(m));
            let at = find_key(prior, k);
            if at < 0 {
                now == prior.push((k, v)) && r is None
            } else {
                now == prior.update(at, (k, v)) && r == Some(prior[at].1)
            }
        }),
{
    m.insert(k, v)
}

/// Relies on `IndexMap::get_index`: the pair at a position in insertion
/// order, or nothing when the position is past the end.
#[verifier::external_body]
pub(crate) fn term_map_get_index(m: &TermMap, i: usize) -> (r: Option<
    (AssignmentVariable, FieldValue),
>)
    ensures
        i < term_map_entries(*m).len() ==> r == Some(term_map_entries(*m)[i as int]),
        i >= term_map_entries(*m).len() ==> r is None,
{
    m.get_index(i).map(|(k, v)| (*k, *v))
}

} // verus!
