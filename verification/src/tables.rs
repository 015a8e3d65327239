//! Per-control bookkeeping tables: `FxHashMap`s of rustc-hash keyed by the
//! raw control id.
//!
//! vstd specifies `HashMap` only for hash builders it knows to be
//! deterministic; rustc-hash's `FxBuildHasher` builds every hasher as
//! `FxHasher::default()` (a fixed seed of 0), so a table behaves as a map.
//! The items below state that for the three operations the library uses.
use rustc_hash::FxBuildHasher;
use rustc_hash::FxHashMap;
use rustc_hash::FxHashSet;
use vstd::prelude::*;

verus! {

/// The hash builder of rustc-hash's `FxHashMap`.
#[verifier::external_type_specification]
#[verifier::external_body]
pub struct ExFxBuildHasher(FxBuildHasher);

/// `HashMap::get` on an `FxHashMap` keyed by `u32`: the value stored
/// under `k`, if any.
#[verifier::external_body]
pub(crate) fn table_get<V>(m: &FxHashMap<u32, V>, k: u32) -> (r: Option<&V>)
    ensures
        match r {
            Some(v) => m@.contains_key(k) && *v == m@[k],
            None => !m@.contains_key(k),
        },
{
    m.get(&k)
}

/// `HashMap::insert` on an `FxHashMap` keyed by `u32`: afterwards `k`
/// maps to `v` and every other key is unchanged; the result is the value
/// `k` mapped to before, if any.
#[verifier::external_body]
pub(crate) fn table_insert<V>(m: &mut FxHashMap<u32, V>, k: u32, v: V) -> (r: Option<V>)
    ensures
        final(m)@ == old(m)@.insert(k, v),
        match r {
            Some(p) => old(m)@.contains_key(k) && p == old(m)@[k],
            None => !old(m)@.contains_key(k),
        },
{
    m.insert(k, v)
}

/// `HashMap::remove` on an `FxHashMap` keyed by `u32`: afterwards `k` is
/// absent and every other key is unchanged; the result is the value `k`
/// mapped to before, if any.
#[verifier::external_body]
pub(crate) fn table_remove<V>(m: &mut FxHashMap<u32, V>, k: u32) -> (r: Option<V>)
    ensures
        final(m)@ == old(m)@.remove(k),
        match r {
            Some(p) => old(m)@.contains_key(k) && p == old(m)@[k],
            None => !old(m)@.contains_key(k),
        },
{
    m.remove(&k)
}

/// An empty table.
pub(crate) fn table_new<V>() -> (m: FxHashMap<u32, V>)
    ensures
        m@ == Map::<u32, V>::empty(),
{
    FxHashMap::default()
}


/// `HashSet::contains` on an `FxHashSet` of `u32`: whether `k` is in it.
#[verifier::external_body]
pub(crate) fn set_contains(s: &FxHashSet<u32>, k: u32) -> (r: bool)
    ensures
        r == s@.contains(k),
{
    s.contains(&k)
}

/// `HashSet::insert` on an `FxHashSet` of `u32`: afterwards `k` is in
/// it and nothing else changed; the result says whether `k` was absent.
#[verifier::external_body]
pub(crate) fn set_insert(s: &mut FxHashSet<u32>, k: u32) -> (r: bool)
    ensures
        final(s)@ == old(s)@.insert(k),
        r == !old(s)@.contains(k),
{
    s.insert(k)
}

/// `HashSet::remove` on an `FxHashSet` of `u32`: afterwards `k` is not
/// in it and nothing else changed; the result says whether `k` was there.
#[verifier::external_body]
pub(crate) fn set_remove(s: &mut FxHashSet<u32>, k: u32) -> (r: bool)
    ensures
        final(s)@ == old(s)@.remove(k),
        r == old(s)@.contains(k),
{
    s.remove(&k)
}

/// An empty set.
pub(crate) fn set_new() -> (s: FxHashSet<u32>)
    ensures
        s@ == Set::<u32>::empty(),
{
    FxHashSet::default()
}

} // verus!
