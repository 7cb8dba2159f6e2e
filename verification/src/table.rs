//! The correlation table: request id to the delivery slot that awaits its reply.

use dashmap::DashMap;
use std::collections::hash_map::RandomState;
use vstd::prelude::*;

verus! {

/// `dashmap::DashMap`, taken as it is: nothing is known of a value of it but
/// what the functions below say.
#[verifier::external_type_specification]
#[verifier::external_body]
#[verifier::reject_recursive_types(K)]
#[verifier::reject_recursive_types(V)]
#[verifier::reject_recursive_types(S)]
pub struct ExDashMap<K, V, S>(DashMap<K, V, S>);

/// The entries that a concurrent map of pending slots holds.
pub uninterp spec fn pending_entries(map: DashMap<i32, u64, RandomState>) -> Map<i32, u64>;

/// The table in which nothing is pending.
pub open spec fn nothing_pending() -> Map<i32, u64> {
    Map::empty()
}

/// The slot pending under `id`, if any.
pub open spec fn slot_of(pending: Map<i32, u64>, id: i32) -> Option<u64> {
    if pending.contains_key(id) {
        Some(pending[id])
    } else {
        None
    }
}

/// `DashMap::new`: a map that holds no entry.
#[verifier::external_body]
fn slots_new() -> (slots: DashMap<i32, u64, RandomState>)
    ensures
        pending_entries(slots) == nothing_pending(),
{
    DashMap::new()
}

/// `DashMap::insert`: binds `key` to `value`, leaves every other entry as it
/// was, and returns the value that `key` was bound to before, if any.
#[verifier::external_body]
fn slots_insert(map: &mut DashMap<i32, u64, RandomState>, key: i32, value: u64) -> (displaced:
    Option<u64>)
    ensures
        pending_entries(*final(map)) == pending_entries(*old(map)).insert(key, value),
        displaced == slot_of(pending_entries(*old(map)), key),
{
    map.insert(key, value)
}

/// `DashMap::remove`: takes the entry of `key` out, if there is one, and
/// returns its value; every other entry stays as it was.
#[verifier::external_body]
fn slots_remove(map: &mut DashMap<i32, u64, RandomState>, key: i32) -> (taken: Option<u64>)
    ensures
        pending_entries(*final(map)) == pending_entries(*old(map)).remove(key),
        taken == slot_of(pending_entries(*old(map)), key),
{
    match map.remove(&key) {
        Some((_, value)) => Some(value),
        None => None,
    }
}

/// Whether `entries` lists what is pending: every pending id once with its
/// slot, and nothing else, in whatever order.
pub open spec fn lists(entries: Seq<(i32, u64)>, pending: Map<i32, u64>) -> bool {
    &&& forall|i: int, j: int| 0 <= i < j < entries.len() ==> entries[i].0 != entries[j].0
    &&& forall|i: int|
        0 <= i < entries.len() ==> pending.contains_pair((#[trigger] entries[i]).0, entries[i].1)
    &&& forall|id: i32| #[trigger]
        pending.contains_key(id) ==> exists|i: int|
            0 <= i < entries.len() && (#[trigger] entries[i]).0 == id
}

/// `DashMap::into_iter`: takes the map apart and hands out each of its
/// entries once. The order is that of the map's shards and buckets, of which
/// nothing is claimed.
#[verifier::external_body]
fn slots_into_entries(map: DashMap<i32, u64, RandomState>) -> (entries: Vec<(i32, u64)>)
    ensures
        lists(entries@, pending_entries(map)),
{
    map.into_iter().collect()
}

/// The pending requests of a connection: the slot that awaits the reply to
/// each request id in flight. Its view is the map from id to slot.
pub struct CorrelationTable {
    slots: DashMap<i32, u64, RandomState>,
}

impl View for CorrelationTable {
    type V = Map<i32, u64>;

    closed spec fn view(&self) -> Map<i32, u64> {
        pending_entries(self.slots)
    }
}

impl CorrelationTable {
    /// A table in which nothing is pending.
    pub fn new() -> (table: Self)
        ensures
            table@ == nothing_pending(),
    {
        CorrelationTable { slots: slots_new() }
    }

    /// Files `slot` under `id`. A slot that was pending under `id` is
    /// displaced and returned; no other entry changes.
    pub fn insert(&mut self, id: i32, slot: u64) -> (displaced: Option<u64>)
        ensures
            final(self)@ == old(self)@.insert(id, slot),
            displaced == slot_of(old(self)@, id),
    {
        slots_insert(&mut self.slots, id, slot)
    }

    /// Takes the entry of `id` out and returns its slot, `None` where nothing
    /// is pending under `id`; no other entry changes.
    pub fn remove(&mut self, id: i32) -> (taken: Option<u64>)
        ensures
            final(self)@ == old(self)@.remove(id),
            taken == slot_of(old(self)@, id),
    {
        slots_remove(&mut self.slots, id)
    }

    /// Takes every entry out and returns them, each id once with its slot.
    pub fn drain(&mut self) -> (entries: Vec<(i32, u64)>)
        ensures
            final(self)@ == nothing_pending(),
            lists(entries@, old(self)@),
    {
        let mut taken = slots_new();
        std::mem::swap(&mut self.slots, &mut taken);
        slots_into_entries(taken)
    }
}

} // verus!
