//! Per-sensor counters kept in a sharded concurrent map.
//!
//! The map is `dashmap::DashMap` with `std::sync::atomic::AtomicU64` values.
//! Everything in this file is believed, not proved: it states how that map
//! behaves while one owner holds it exclusively.

use vstd::prelude::*;
use dashmap::DashMap;
use std::sync::atomic::AtomicU64;
use std::sync::atomic::Ordering;
use vstd::wrapping::u64_specs::wrapping_add;

verus! {

#[verifier::external_type_specification]
#[verifier::external_body]
#[verifier::reject_recursive_types(K)]
#[verifier::reject_recursive_types(V)]
#[verifier::reject_recursive_types(S)]
pub struct ExDashMap<K, V, S>(dashmap::DashMap<K, V, S>);

/// The map type of the per-sensor counters.
pub type CounterMap = DashMap<u16, AtomicU64>;

/// Keys with the values counted under them.
pub type CounterEntries = Vec<(u16, u64)>;

/// The counters a map holds: each key that was ever counted, with its value.
pub uninterp spec fn counter_values(m: CounterMap) -> Map<u16, u64>;

/// The value counted under `key`, zero for a key never counted.
pub open spec fn counter_at(values: Map<u16, u64>, key: u16) -> u64 {
    if values.contains_key(key) {
        values[key]
    } else {
        0
    }
}

/// The keys that occur in `entries`.
pub open spec fn entry_keys(entries: Seq<(u16, u64)>) -> Set<u16> {
    Set::new(|k: u16| exists|i: int| 0 <= i < entries.len() && #[trigger] entries[i].0 == k)
}

/// No key occurs at two places of `entries`.
pub open spec fn no_repeated_key(entries: Seq<(u16, u64)>) -> bool {
    forall|i: int, j: int| 0 <= i < j < entries.len() ==> entries[i].0 != entries[j].0
}

/// `DashMap::new`: a map without entries.
#[verifier::external_body]
pub(crate) fn counter_map_new() -> (m: CounterMap)
    ensures
        counter_values(m) == (Map::<u16, u64>::empty()),
{
    DashMap::new()
}

/// `DashMap::entry`, `Entry::or_default` and `AtomicU64::fetch_add`: the
/// counter under `key` is created at zero if it is missing and then grows by
/// `delta`, wrapping around at the top of `u64`; no other entry changes.
#[verifier::external_body]
pub(crate) fn counter_map_add(m: &mut CounterMap, key: u16, delta: u64)
    ensures
        counter_values(*final(m)) == counter_values(*old(m)).insert(
            key,
            wrapping_add(counter_at(counter_values(*old(m)), key), delta),
        ),
{
    m.entry(key).or_default().fetch_add(delta, Ordering::Relaxed);
}

/// `DashMap::iter` with `AtomicU64::load` on each value: every entry of the
/// map exactly once, in no particular order.
#[verifier::external_body]
pub(crate) fn counter_map_entries(m: &CounterMap) -> (out: CounterEntries)
    ensures
        entry_keys(out@) == counter_values(*m).dom(),
        forall|i: int| 0 <= i < out@.len() ==> counter_values(*m)[#[trigger] out@[i].0] == out@[i].1,
        no_repeated_key(out@),
{
    m.iter().map(|entry| (*entry.key(), entry.value().load(Ordering::Relaxed))).collect()
}

} // verus!
