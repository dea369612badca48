//! The cache itself: admission control, approximate least-recently-used
//! eviction, and the bookkeeping of the entry count.
//!
//! A lookup does not count as an access. It hands out a `CacheValueRef`,
//! which borrows the cache for as long as it lives; reading the payload
//! through it is what refreshes the entry's recency.

use crate::config::CacheConfig;
use crate::entry::{CacheValue, Tick};
use crate::model::{payload_size, CacheState};
use crate::store::{
    is_listing, store_clear, store_contains, store_get, store_insert, store_recency, store_remove,
    store_with_capacity, stored, Recency, PRESIZE_LIMIT,
};
use dashmap::DashMap;
use std::time::Instant;
use vstd::prelude::*;

verus! {

/// Number of eviction candidates a bounded scan would look at. The scan in
/// use looks at every entry and does not consult it.
pub const CHECK_TOP: usize = 10;

/// `i` is the position of the first item of `listing` whose tick no other
/// item undercuts.
pub open spec fn is_first_oldest(listing: Seq<Recency>, i: int) -> bool {
    &&& 0 <= i < listing.len()
    &&& forall|j: int|
        0 <= j < listing.len() ==> listing[i].last_access <= (#[trigger] listing[j]).last_access
    &&& forall|j: int| 0 <= j < i ==> listing[i].last_access < (#[trigger] listing[j]).last_access
}

/// Picks the item to evict: the one with the smallest tick, and among equal
/// ticks the one that comes first. `None` only for an empty listing.
pub fn select_victim(listing: &Vec<Recency>) -> (victim: Option<usize>)
    ensures
        victim is None <==> listing@.len() == 0,
        victim matches Some(i) ==> is_first_oldest(listing@, i as int),
{
    if listing.len() == 0 {
        return None;
    }
    let mut best: usize = 0;
    let mut i: usize = 1;
    while i < listing.len()
        invariant
            1 <= i <= listing@.len(),
            0 <= best < i,
            forall|j: int|
                0 <= j < i ==> listing@[best as int].last_access <= (
                #[trigger] listing@[j]).last_access,
            forall|j: int|
                0 <= j < best ==> listing@[best as int].last_access < (
                #[trigger] listing@[j]).last_access,
        decreases listing@.len() - i,
    {
        if listing[i].last_access < listing[best].last_access {
            best = i;
        }
        i = i + 1;
    }
    Some(best)
}

/// The keys of a listing, in order.
pub open spec fn listed_keys(listing: Seq<Recency>) -> Seq<Seq<char>> {
    listing.map_values(|item: Recency| item.key@)
}

/// A listing of the entries names each of them once.
pub proof fn lemma_listing_is_key_order(listing: Seq<Recency>, state: CacheState)
    requires
        is_listing(listing, state.entries),
    ensures
        state.is_key_order(listed_keys(listing)),
{
    let keys = listed_keys(listing);
    assert forall|i: int, j: int| 0 <= i < keys.len() && 0 <= j < keys.len() && i != j implies keys[i]
        != keys[j] by {
        if i < j {
            assert(listing[i].key@ != listing[j].key@);
        } else {
            assert(listing[j].key@ != listing[i].key@);
        }
    }
    assert forall|key: Seq<char>| keys.to_set().contains(key) <==> state.entries.dom().contains(
        key,
    ) by {
        if keys.to_set().contains(key) {
            let i = choose|i: int| 0 <= i < keys.len() && keys[i] == key;
            assert(state.entries.contains_key(listing[i].key@));
        }
        if state.entries.contains_key(key) {
            let i = choose|i: int| 0 <= i < listing.len() && #[trigger] listing[i].key@ == key;
            assert(keys[i] == key);
        }
    }
    assert(keys.to_set() =~= state.entries.dom());
}

/// A capacity-bounded cache from string keys to string payloads. At the
/// entry limit, an insert of a new key evicts the entry that was accessed
/// least recently.
#[derive(Debug)]
pub struct Cache {
    config: CacheConfig,
    storage: DashMap<String, CacheValue>,
    len: usize,
    epoch: Instant,
}

impl View for Cache {
    type V = CacheState;

    closed spec fn view(&self) -> CacheState {
        CacheState { config: self.config, entries: stored(self.storage), len: self.len }
    }
}

impl Cache {
    /// An empty cache with the given limits. Storage is sized ahead for
    /// `max_entries` entries, up to `PRESIZE_LIMIT`.
    pub fn new(config: CacheConfig) -> (cache: Cache)
        ensures
            cache@ == CacheState::fresh(config),
    {
        let hint: usize = if config.max_entries <= PRESIZE_LIMIT {
            config.max_entries
        } else {
            PRESIZE_LIMIT
        };
        Cache { storage: store_with_capacity(hint), config, len: 0, epoch: Instant::now() }
    }

    /// The limits this cache was created with.
    pub fn config(&self) -> (config: CacheConfig)
        ensures
            config == self@.config,
    {
        self.config
    }

    /// The running count of entries.
    pub fn len(&self) -> (len: usize)
        ensures
            len == self@.len,
    {
        self.len
    }

    /// Nanoseconds on the monotonic clock since this cache was created.
    pub fn now(&self) -> Tick {
        self.epoch.elapsed().as_nanos()
    }

    /// Looks `key` up. A hit hands out the payload behind a handle that
    /// borrows the cache; a miss returns nothing. Neither changes the cache:
    /// recency moves only when the payload is read through the handle, and
    /// the cache is then left as the handle leaves it.
    pub fn get(&mut self, key: &str) -> (found: Option<CacheValueRef<'_>>)
        ensures
            found_payload(found) == old(self)@.lookup(key@),
            found matches Some(hit) ==> hit.key@ == key@ && *hit.cache == *old(self) && *final(self)
                == *final(hit.cache),
            found is None ==> *final(self) == *old(self),
    {
        match store_get(&self.storage, key) {
            Some(data) => Some(CacheValueRef { cache: self, key: key.to_owned(), data }),
            None => None,
        }
    }

    /// Records a read of `key` at `now`: the entry under `key`, if there is
    /// one, becomes the most recently accessed as of `now`.
    fn touch_at(&mut self, key: &str, now: Tick)
        ensures
            final(self)@ == old(self)@.touched(key@, now),
    {
        match store_remove(&mut self.storage, key) {
            Some((owned_key, mut value)) => {
                let _ = value.get(now);
                store_insert(&mut self.storage, owned_key, value);
                assert(stored(self.storage) =~= old(self)@.touched(key@, now).entries);
            },
            None => {
                assert(stored(self.storage) =~= stored(old(self).storage));
            },
        }
    }

    /// Stores `data` under `key` at time `now`, subject to admission
    /// control; `CacheState::inserted` spells out the cases.
    pub fn insert_at(&mut self, key: String, data: String, now: Tick)
        ensures
            old(self)@.inserted(key@, data@, now, final(self)@),
            payload_size(data@) > old(self)@.config.max_item_size ==> final(self)@ == old(self)@,
    {
        if data.as_str().as_bytes().len() > self.config.max_item_size {
            return ;
        } else if store_contains(&self.storage, key.as_str()) {
        } else if self.len >= self.config.max_entries {
            let listing = store_recency(&self.storage);
            match select_victim(&listing) {
                Some(i) => {
                    let _ = store_remove(&mut self.storage, listing[i].key.as_str());
                    assert(old(self)@.is_least_recent(listing@[i as int].key@));
                },
                None => {
                    assert(old(self)@.entries.dom() =~= Set::empty());
                },
            }
        } else {
            self.len = self.len + 1;
        }
        store_insert(&mut self.storage, key, CacheValue::new(data, now));
    }

    /// Stores `data` under `key` now. See `insert_at`; the time is read from
    /// the clock.
    pub fn insert(&mut self, key: String, data: String)
        ensures
            exists|now: Tick| #[trigger] old(self)@.inserted(key@, data@, now, final(self)@),
            payload_size(data@) > old(self)@.config.max_item_size ==> final(self)@ == old(self)@,
    {
        let now = self.now();
        self.insert_at(key, data, now)
    }

    /// Renders the entries that `listing` names, in that order, one per
    /// line as `key: payload`. A name without an entry adds nothing.
    pub fn format_listed(&self, listing: &Vec<Recency>) -> (text: String)
        ensures
            text@ == self@.rendered(listed_keys(listing@)),
    {
        let mut text = String::new();
        let mut i: usize = 0;
        while i < listing.len()
            invariant
                i <= listing@.len(),
                text@ == self@.rendered(listed_keys(listing@).take(i as int)),
            decreases listing@.len() - i,
        {
            let ghost keys = listed_keys(listing@);
            assert(keys.take(i + 1).drop_last() =~= keys.take(i as int));
            assert(keys.take(i + 1).last() == listing@[i as int].key@);
            match store_get(&self.storage, listing[i].key.as_str()) {
                Some(data) => {
                    text.append(listing[i].key.as_str());
                    text.append(": ");
                    text.append(data.as_str());
                    text.append("\n");
                },
                None => {},
            }
            i = i + 1;
        }
        assert(listed_keys(listing@).take(i as int) =~= listed_keys(listing@));
        text
    }

    /// Renders every entry, one per line as `key: payload`, for
    /// diagnostics. The order of the lines is that in which the storage
    /// happens to be walked.
    pub fn format(&self) -> (text: String)
        ensures
            exists|keys: Seq<Seq<char>>|
                self@.is_key_order(keys) && text@ == #[trigger] self@.rendered(keys),
    {
        let listing = store_recency(&self.storage);
        proof {
            lemma_listing_is_key_order(listing@, self@);
        }
        self.format_listed(&listing)
    }

    /// Drops every entry and resets the count.
    pub fn clear(&mut self)
        ensures
            final(self)@ == old(self)@.cleared(),
    {
        store_clear(&mut self.storage);
        self.len = 0;
    }

    /// Deletes the entry under `key`, if there is one, and takes one off the
    /// count either way.
    pub fn remove(&mut self, key: &str)
        ensures
            final(self)@ == old(self)@.removed(key@),
    {
        let _ = store_remove(&mut self.storage, key);
        self.len = self.len.wrapping_sub(1);
    }
}

/// What a successful lookup hands back: the key that was asked for, the
/// payload found under it, and the cache it was found in. The cache stays
/// borrowed until the handle is dropped, so the entry can neither be
/// removed nor replaced behind the handle's back.
#[derive(Debug)]
pub struct CacheValueRef<'a> {
    pub cache: &'a mut Cache,
    pub key: String,
    pub data: String,
}

impl<'a> CacheValueRef<'a> {
    /// A handle on `cache` for `key` and the payload `data`.
    pub fn new(cache: &'a mut Cache, key: String, data: String) -> (found: CacheValueRef<'a>)
        ensures
            found.key@ == key@,
            found.data@ == data@,
            *found.cache == *old(cache),
            *final(cache) == *final(found.cache),
    {
        CacheValueRef { cache, key, data }
    }

    /// Reads the payload at time `now`. The read counts as an access: the
    /// entry under the handle's key becomes the most recently accessed as
    /// of `now`. Nothing else in the cache changes, and the handle keeps
    /// its key, its payload and its hold on the cache.
    pub fn get_at(&mut self, now: Tick) -> (data: &String)
        ensures
            data@ == old(self).data@,
            final(self).cache@ == old(self).cache@.touched(old(self).key@, now),
            final(self).key == old(self).key,
            final(self).data == old(self).data,
            *final(final(self).cache) == *final(old(self).cache),
    {
        self.cache.touch_at(self.key.as_str(), now);
        &self.data
    }

    /// Reads the payload now. See `get_at`; the time is read from the
    /// cache's clock.
    pub fn get(&mut self) -> (data: &String)
        ensures
            data@ == old(self).data@,
            exists|now: Tick|
                final(self).cache@ == #[trigger] old(self).cache@.touched(old(self).key@, now),
            final(self).key == old(self).key,
            final(self).data == old(self).data,
            *final(final(self).cache) == *final(old(self).cache),
    {
        let now = self.cache.now();
        self.get_at(now)
    }

    /// The key the payload was found under.
    pub fn get_key(&self) -> (key: &String)
        ensures
            key@ == self.key@,
    {
        &self.key
    }
}

/// The payload that a lookup handed back, if it handed anything back.
pub open spec fn found_payload(found: Option<CacheValueRef>) -> Option<Seq<char>> {
    match found {
        Some(hit) => Some(hit.data@),
        None => None,
    }
}

} // verus!
