//! A cached payload together with the tick of its last access and the way
//! it is kept up to date.

use vstd::prelude::*;

verus! {

/// A point in time, in nanoseconds since the owning cache was created.
pub type Tick = u128;

/// How an entry is kept up to date. Only `Disabled` is in use.
#[derive(Debug)]
pub enum RefreshMechanic {
    FileWatcher,
    Disabled,
}

/// What an entry holds, as contracts see it.
pub struct EntryView {
    pub data: Seq<char>,
    pub last_access: Tick,
    pub refresh: RefreshMechanic,
}

/// What a newly made entry for `data` holds at `now`: the payload, `now` as
/// its last access, and no refresh mechanic.
pub open spec fn new_entry(data: Seq<char>, now: Tick) -> EntryView {
    EntryView { data, last_access: now, refresh: RefreshMechanic::Disabled }
}

/// What `entry` holds after it was read at `now`: only the tick moves.
pub open spec fn read_entry(entry: EntryView, now: Tick) -> EntryView {
    EntryView { last_access: now, ..entry }
}

/// One cached payload. The payload and the refresh mechanic are fixed at
/// creation; only the tick of the last access changes afterwards.
#[derive(Debug)]
pub struct CacheValue {
    data: String,
    refresh_mechanic: RefreshMechanic,
    last_access: Tick,
}

impl View for CacheValue {
    type V = EntryView;

    closed spec fn view(&self) -> EntryView {
        EntryView {
            data: self.data@,
            last_access: self.last_access,
            refresh: self.refresh_mechanic,
        }
    }
}

impl CacheValue {
    /// A fresh entry for `data`, last accessed at `now`, with no refresh
    /// mechanic.
    pub fn new(data: String, now: Tick) -> (value: CacheValue)
        ensures
            value@ == new_entry(data@, now),
    {
        CacheValue { data, refresh_mechanic: RefreshMechanic::Disabled, last_access: now }
    }

    /// Reads the payload and records `now` as the time of this access.
    /// Payload and refresh mechanic stay as they were.
    pub fn get(&mut self, now: Tick) -> (data: &String)
        ensures
            data@ == old(self)@.data,
            final(self)@ == read_entry(old(self)@, now),
    {
        self.last_access = now;
        &self.data
    }

    /// The payload, without counting as an access.
    pub fn data(&self) -> (data: &String)
        ensures
            data@ == self@.data,
    {
        &self.data
    }

    /// How the entry is kept up to date.
    pub fn refresh_mechanic(&self) -> (refresh: &RefreshMechanic)
        ensures
            *refresh == self@.refresh,
    {
        &self.refresh_mechanic
    }

    /// The tick of the most recent access.
    pub fn last_access(&self) -> (tick: Tick)
        ensures
            tick == self@.last_access,
    {
        self.last_access
    }
}

} // verus!
