//! Hash maps and hash sets with the FNV hasher, keyed by 128-bit integers.
//!
//! The collections are those of the standard library; `fnv` supplies the
//! hasher. Verus does not look inside them: each function below makes one
//! call and states what that call does to the map's or the set's contents.

use fnv::{FnvHashMap, FnvHashSet};
use vstd::prelude::*;

verus! {

/// `fnv::FnvHasher`, the hasher state. Nothing is said of its inside.
#[verifier::external_type_specification]
#[verifier::external_body]
pub struct ExFnvHasher(fnv::FnvHasher);

/// `std::hash::BuildHasherDefault`, which makes a fresh default hasher for
/// each key. Nothing is said of its inside.
#[verifier::external_type_specification]
#[verifier::external_body]
#[verifier::reject_recursive_types(H)]
pub struct ExBuildHasherDefault<H>(std::hash::BuildHasherDefault<H>);

/// Calls `FnvHashMap::default`: the new map holds no entry.
#[verifier::external_body]
pub(crate) fn map_new<V>() -> (m: FnvHashMap<u128, V>)
    ensures
        m@.dom() == Set::<u128>::empty(),
{
    FnvHashMap::default()
}

/// Calls `HashMap::get`: the value stored under `key`, if there is one.
#[verifier::external_body]
pub(crate) fn map_get<'a, V>(m: &'a FnvHashMap<u128, V>, key: u128) -> (v: Option<&'a V>)
    ensures
        v == if m@.contains_key(key) {
            Some(&m@[key])
        } else {
            None
        },
{
    m.get(&key)
}

/// Calls `HashMap::insert`: afterwards `key` maps to `value` and every other
/// key is as before; the value that `key` had before, if any, is returned.
#[verifier::external_body]
pub(crate) fn map_insert<V>(m: &mut FnvHashMap<u128, V>, key: u128, value: V) -> (prev: Option<V>)
    ensures
        final(m)@ == old(m)@.insert(key, value),
        prev == if old(m)@.contains_key(key) {
            Some(old(m)@[key])
        } else {
            None
        },
{
    m.insert(key, value)
}

/// Calls `HashMap::remove`: afterwards `key` has no entry and every other
/// key is as before; the value that `key` had before, if any, is returned.
#[verifier::external_body]
pub(crate) fn map_remove<V>(m: &mut FnvHashMap<u128, V>, key: u128) -> (prev: Option<V>)
    ensures
        final(m)@ == old(m)@.remove(key),
        prev == if old(m)@.contains_key(key) {
            Some(old(m)@[key])
        } else {
            None
        },
{
    m.remove(&key)
}

/// Calls `HashMap::len`: the number of entries.
#[verifier::external_body]
pub(crate) fn map_len<V>(m: &FnvHashMap<u128, V>) -> (n: usize)
    ensures
        n == m@.len(),
{
    m.len()
}

/// Calls `HashMap::iter` and copies each entry out: every entry of the map
/// once, in the order in which the map is walked, which is not said.
#[verifier::external_body]
pub(crate) fn map_pairs(m: &FnvHashMap<u128, u8>) -> (pairs: Vec<(u128, u8)>)
    ensures
        forall|i: int| 0 <= i < pairs@.len() ==> m@.contains_pair(pairs@[i].0, pairs@[i].1),
        forall|k: u128|
            m@.contains_key(k) ==> exists|i: int| 0 <= i < pairs@.len() && pairs@[i].0 == k,
        forall|i: int, j: int| 0 <= i < j < pairs@.len() ==> pairs@[i].0 != pairs@[j].0,
{
    m.iter().map(|(k, v)| (*k, *v)).collect()
}

/// Calls `FnvHashSet::default`: the new set holds nothing.
#[verifier::external_body]
pub(crate) fn set_new() -> (s: FnvHashSet<u128>)
    ensures
        s@ == Set::<u128>::empty(),
{
    FnvHashSet::default()
}

/// Calls `HashSet::contains`: whether `key` is in the set.
#[verifier::external_body]
pub(crate) fn set_contains(s: &FnvHashSet<u128>, key: u128) -> (found: bool)
    ensures
        found == s@.contains(key),
{
    s.contains(&key)
}

/// Calls `HashSet::insert`: afterwards the set holds `key` besides what it
/// held before; the result tells whether `key` was new.
#[verifier::external_body]
pub(crate) fn set_insert(s: &mut FnvHashSet<u128>, key: u128) -> (fresh: bool)
    ensures
        final(s)@ == old(s)@.insert(key),
        fresh == !old(s)@.contains(key),
{
    s.insert(key)
}

/// Calls `HashSet::remove`: afterwards the set holds what it held before but
/// for `key`; the result tells whether `key` was there.
#[verifier::external_body]
pub(crate) fn set_remove(s: &mut FnvHashSet<u128>, key: u128) -> (found: bool)
    ensures
        final(s)@ == old(s)@.remove(key),
        found == old(s)@.contains(key),
{
    s.remove(&key)
}

/// Calls `HashSet::len`: the number of elements.
#[verifier::external_body]
pub(crate) fn set_len(s: &FnvHashSet<u128>) -> (n: usize)
    ensures
        n == s@.len(),
{
    s.len()
}

} // verus!
