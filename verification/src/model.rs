//! The cache as a mathematical state, and what each operation does to it.

use crate::config::CacheConfig;
use crate::entry::{new_entry, read_entry, RefreshMechanic, Tick};
use crate::store::Contents;
use vstd::prelude::*;
use vstd::utf8::encode_utf8;

verus! {

/// Size of a payload as admission control measures it: the number of bytes
/// of its UTF-8 encoding.
pub open spec fn payload_size(data: Seq<char>) -> nat {
    encode_utf8(data).len()
}

/// One line of the diagnostic listing: the key, a colon and a space, the
/// payload, and a line feed.
pub open spec fn listing_line(key: Seq<char>, data: Seq<char>) -> Seq<char> {
    key + ": "@ + data + "\n"@
}

/// Everything observable about a cache: its limits, the entries it holds,
/// and its running count of entries. The count is kept incrementally and is
/// not tied to the number of entries by definition.
pub struct CacheState {
    pub config: CacheConfig,
    pub entries: Contents,
    pub len: usize,
}

impl CacheState {
    /// The state of a cache that has just been created.
    pub open spec fn fresh(config: CacheConfig) -> CacheState {
        CacheState { config, entries: Contents::empty(), len: 0 }
    }

    /// Finitely many entries, none with a payload above the size limit and
    /// none with a refresh mechanic.
    pub open spec fn wf(self) -> bool {
        &&& self.entries.dom().finite()
        &&& forall|key: Seq<char>| #[trigger]
            self.entries.contains_key(key) ==> payload_size(self.entries[key].data)
                <= self.config.max_item_size && self.entries[key].refresh
                == RefreshMechanic::Disabled
    }

    /// The payload stored under `key`, if any.
    pub open spec fn lookup(self, key: Seq<char>) -> Option<Seq<char>> {
        if self.entries.contains_key(key) {
            Some(self.entries[key].data)
        } else {
            None
        }
    }

    /// The state after a read of `key` at `now`: a hit moves the entry's
    /// last access to `now` and leaves the rest of the entry alone, a miss
    /// changes nothing.
    pub open spec fn touched(self, key: Seq<char>, now: Tick) -> CacheState {
        if self.entries.contains_key(key) {
            CacheState {
                entries: self.entries.insert(key, read_entry(self.entries[key], now)),
                ..self
            }
        } else {
            self
        }
    }

    /// `key` names an entry that no other entry was accessed before.
    pub open spec fn is_least_recent(self, key: Seq<char>) -> bool {
        &&& self.entries.contains_key(key)
        &&& forall|other: Seq<char>| #[trigger]
            self.entries.contains_key(other) ==> self.entries[key].last_access
                <= self.entries[other].last_access
    }

    /// The entries after `data` has been written under `key` at `now`, as
    /// a newly made entry.
    pub open spec fn written(self, key: Seq<char>, data: Seq<char>, now: Tick) -> Contents {
        self.entries.insert(key, new_entry(data, now))
    }

    /// `post` is a state that inserting `data` under `key` at `now` may lead
    /// to. In order:
    /// - a payload above the size limit is dropped and nothing changes;
    /// - a key that is present has its entry replaced, the count stays;
    /// - at or above the entry limit one least recently accessed entry, if
    ///   there is any entry at all, makes room for the new one, the count
    ///   stays;
    /// - otherwise the entry is added and the count goes up by one.
    /// Only the third case leaves a choice, among entries that share the
    /// oldest tick.
    pub open spec fn inserted(
        self,
        key: Seq<char>,
        data: Seq<char>,
        now: Tick,
        post: CacheState,
    ) -> bool {
        if payload_size(data) > self.config.max_item_size {
            post == self
        } else if self.entries.contains_key(key) {
            post == (CacheState { entries: self.written(key, data, now), ..self })
        } else if self.len >= self.config.max_entries {
            if self.entries.dom() =~= Set::empty() {
                post == (CacheState { entries: self.written(key, data, now), ..self })
            } else {
                exists|victim: Seq<char>| #[trigger]
                    self.is_least_recent(victim) && post == (CacheState {
                        entries: self.entries.remove(victim).insert(key, new_entry(data, now)),
                        ..self
                    })
            }
        } else {
            post == (CacheState {
                entries: self.written(key, data, now),
                len: (self.len + 1) as usize,
                ..self
            })
        }
    }

    /// The diagnostic listing for `keys`, in that order: one line for each
    /// key that has an entry, nothing for a key that has none.
    pub open spec fn rendered(self, keys: Seq<Seq<char>>) -> Seq<char>
        decreases keys.len(),
    {
        if keys.len() == 0 {
            Seq::empty()
        } else {
            let head = self.rendered(keys.drop_last());
            if self.entries.contains_key(keys.last()) {
                head + listing_line(keys.last(), self.entries[keys.last()].data)
            } else {
                head
            }
        }
    }

    /// `keys` names every entry exactly once.
    pub open spec fn is_key_order(self, keys: Seq<Seq<char>>) -> bool {
        &&& keys.no_duplicates()
        &&& keys.to_set() == self.entries.dom()
    }

    /// The state after `key` has been removed. The count goes down by one
    /// whether or not the key was present, wrapping around below zero.
    pub open spec fn removed(self, key: Seq<char>) -> CacheState {
        CacheState {
            entries: self.entries.remove(key),
            len: if self.len == 0 {
                usize::MAX
            } else {
                (self.len - 1) as usize
            },
            ..self
        }
    }

    /// The state after everything has been dropped.
    pub open spec fn cleared(self) -> CacheState {
        CacheState { entries: Contents::empty(), len: 0, ..self }
    }
}

} // verus!
