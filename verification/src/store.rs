//! The concurrent map that holds the entries, as the cache sees it.
//!
//! The map itself is `dashmap::DashMap`. The cache owns it exclusively, so
//! every change goes through a `&mut` borrow and the map can be described
//! by the finite mapping it currently holds. None of the contracts in this
//! file is proved: each one restates what the map's own code does.

use crate::entry::{CacheValue, EntryView, Tick};
use dashmap::DashMap;
use vstd::prelude::*;

verus! {

/// `dashmap::DashMap`, taken as an opaque value: nothing of its shards or
/// locks is visible to the proofs.
#[verifier::external_type_specification]
#[verifier::external_body]
#[verifier::reject_recursive_types(K)]
#[verifier::reject_recursive_types(V)]
#[verifier::reject_recursive_types(S)]
pub struct ExDashMap<K, V, S>(DashMap<K, V, S>);

/// A mapping from keys to what is stored under them.
pub type Contents = Map<Seq<char>, EntryView>;

/// The payload and recency that `map` stores under each key. The map is
/// only ever changed through the `&mut` wrappers below, each of which says
/// how this mapping changes.
pub uninterp spec fn stored(map: DashMap<String, CacheValue>) -> Contents;

/// A key together with the tick of the last access to its entry.
#[derive(Debug)]
pub struct Recency {
    pub key: String,
    pub last_access: Tick,
}

/// `listing` names every entry of `contents` exactly once, each with the
/// tick stored for it. Nothing is said about the order.
pub open spec fn is_listing(listing: Seq<Recency>, contents: Contents) -> bool {
    &&& forall|i: int|
        0 <= i < listing.len() ==> contents.contains_key(#[trigger] listing[i].key@)
            && contents[listing[i].key@].last_access == listing[i].last_access
    &&& forall|i: int, j: int|
        0 <= i < j < listing.len() ==> #[trigger] listing[i].key@ != #[trigger] listing[j].key@
    &&& forall|key: Seq<char>| #[trigger]
        contents.contains_key(key) ==> exists|i: int|
            0 <= i < listing.len() && #[trigger] listing[i].key@ == key
}

/// Largest capacity hint handed to the map when it is created.
pub const PRESIZE_LIMIT: usize = 65_536;

/// `DashMap::with_capacity`: a map that holds nothing. The hint is kept
/// small enough that rounding it up to a whole number of shards cannot
/// overflow.
#[verifier::external_body]
pub(crate) fn store_with_capacity(capacity: usize) -> (out: DashMap<String, CacheValue>)
    requires
        capacity <= PRESIZE_LIMIT,
    ensures
        stored(out) == Contents::empty(),
{
    DashMap::with_capacity(capacity)
}

/// `DashMap::contains_key`: whether something is stored under `key`.
#[verifier::external_body]
pub(crate) fn store_contains(map: &DashMap<String, CacheValue>, key: &str) -> (found: bool)
    ensures
        found == stored(*map).contains_key(key@),
{
    map.contains_key(key)
}

/// `DashMap::get`: a copy of the payload stored under `key`, if any. The
/// guard that the map hands out is released before returning.
#[verifier::external_body]
pub(crate) fn store_get(map: &DashMap<String, CacheValue>, key: &str) -> (data: Option<String>)
    ensures
        data is Some <==> stored(*map).contains_key(key@),
        data matches Some(d) ==> d@ == stored(*map)[key@].data,
{
    map.get(key).map(|entry| entry.value().data().clone())
}

/// `DashMap::insert`: stores `value` under `key`, replacing what was there.
#[verifier::external_body]
pub(crate) fn store_insert(map: &mut DashMap<String, CacheValue>, key: String, value: CacheValue)
    ensures
        stored(*final(map)) == stored(*old(map)).insert(key@, value@),
{
    map.insert(key, value);
}

/// `DashMap::remove`: takes out the entry stored under `key` and hands it
/// back, or leaves the map as it is when there is none.
#[verifier::external_body]
pub(crate) fn store_remove(map: &mut DashMap<String, CacheValue>, key: &str) -> (removed: Option<
    (String, CacheValue),
>)
    ensures
        stored(*final(map)) == stored(*old(map)).remove(key@),
        removed is Some <==> stored(*old(map)).contains_key(key@),
        removed matches Some(pair) ==> pair.0@ == key@ && pair.1@ == stored(*old(map))[key@],
{
    map.remove(key)
}

/// `DashMap::clear`: removes every entry.
#[verifier::external_body]
pub(crate) fn store_clear(map: &mut DashMap<String, CacheValue>)
    ensures
        stored(*final(map)) == Contents::empty(),
{
    map.clear();
}

/// `DashMap::iter`: walks the map once and notes, for each entry met, its
/// key and last-access tick. Every entry is met exactly once; the order
/// depends on the map's hasher and is left open.
#[verifier::external_body]
pub(crate) fn store_recency(map: &DashMap<String, CacheValue>) -> (listing: Vec<Recency>)
    ensures
        is_listing(listing@, stored(*map)),
{
    map.iter()
        .map(|entry| Recency { key: entry.key().clone(), last_access: entry.last_access() })
        .collect()
}

} // verus!
