//! What holds of the cache across operations, proved over its model.

use crate::config::CacheConfig;
use crate::entry::{new_entry, Tick};
use crate::model::{payload_size, CacheState};
use vstd::prelude::*;

verus! {

/// A new cache is well formed.
pub proof fn lemma_fresh_wf(config: CacheConfig)
    ensures
        CacheState::fresh(config).wf(),
{
}

/// An insert keeps the cache well formed: no payload above the size limit
/// is ever stored, and no entry with a refresh mechanic.
pub proof fn lemma_insert_keeps_wf(
    pre: CacheState,
    key: Seq<char>,
    data: Seq<char>,
    now: Tick,
    post: CacheState,
)
    requires
        pre.wf(),
        pre.inserted(key, data, now, post),
    ensures
        post.wf(),
{
}

/// A lookup keeps the cache well formed.
pub proof fn lemma_lookup_keeps_wf(pre: CacheState, key: Seq<char>, now: Tick)
    requires
        pre.wf(),
    ensures
        pre.touched(key, now).wf(),
{
}

/// A removal keeps the cache well formed.
pub proof fn lemma_remove_keeps_wf(pre: CacheState, key: Seq<char>)
    requires
        pre.wf(),
    ensures
        pre.removed(key).wf(),
{
}

/// A cleared cache is well formed.
pub proof fn lemma_clear_gives_wf(pre: CacheState)
    ensures
        pre.cleared().wf(),
{
}

/// A payload above the size limit is dropped: neither the entries nor the
/// count change.
pub proof fn lemma_oversized_insert_is_dropped(
    pre: CacheState,
    key: Seq<char>,
    data: Seq<char>,
    now: Tick,
    post: CacheState,
)
    requires
        pre.inserted(key, data, now, post),
        payload_size(data) > pre.config.max_item_size,
    ensures
        post == pre,
{
}

/// An admissible payload can be read back right after it was inserted, and
/// reading it does not change it. The entry it sits in has the tick of the
/// insert and no refresh mechanic.
pub proof fn lemma_insert_then_lookup(
    pre: CacheState,
    key: Seq<char>,
    data: Seq<char>,
    now: Tick,
    post: CacheState,
    later: Tick,
)
    requires
        pre.inserted(key, data, now, post),
        payload_size(data) <= pre.config.max_item_size,
    ensures
        post.lookup(key) == Some(data),
        post.entries[key] == new_entry(data, now),
        post.touched(key, later).lookup(key) == Some(data),
{
}

/// When a new key is inserted, whatever disappears was least recently
/// accessed, at most one entry disappears, and every entry that stays keeps
/// its payload and its tick.
pub proof fn lemma_only_least_recent_is_evicted(
    pre: CacheState,
    key: Seq<char>,
    data: Seq<char>,
    now: Tick,
    post: CacheState,
)
    requires
        pre.inserted(key, data, now, post),
    ensures
        forall|gone: Seq<char>|
            pre.entries.contains_key(gone) && !post.entries.contains_key(gone)
                ==> #[trigger] pre.is_least_recent(gone),
        forall|one: Seq<char>, other: Seq<char>|
            #![trigger pre.entries.contains_key(one), pre.entries.contains_key(other)]
            pre.entries.contains_key(one) && !post.entries.contains_key(one)
                && pre.entries.contains_key(other) && !post.entries.contains_key(other) ==> one
                == other,
        forall|kept: Seq<char>|
            kept != key && pre.entries.contains_key(kept) && #[trigger] post.entries.contains_key(
                kept,
            ) ==> post.entries[kept] == pre.entries[kept],
{
}

/// An entry is evicted only at the entry limit and only for a key that is
/// not yet present.
pub proof fn lemma_eviction_needs_full_cache(
    pre: CacheState,
    key: Seq<char>,
    data: Seq<char>,
    now: Tick,
    post: CacheState,
    gone: Seq<char>,
)
    requires
        pre.inserted(key, data, now, post),
        pre.entries.contains_key(gone),
        !post.entries.contains_key(gone),
    ensures
        pre.len >= pre.config.max_entries,
        !pre.entries.contains_key(key),
        payload_size(data) <= pre.config.max_item_size,
        post.len == pre.len,
{
}

/// Writing to a key that is present replaces its payload and leaves both
/// the set of keys and the count as they were.
pub proof fn lemma_overwrite_keeps_count(
    pre: CacheState,
    key: Seq<char>,
    data: Seq<char>,
    now: Tick,
    post: CacheState,
)
    requires
        pre.inserted(key, data, now, post),
        payload_size(data) <= pre.config.max_item_size,
        pre.entries.contains_key(key),
    ensures
        post.len == pre.len,
        post.entries.dom() == pre.entries.dom(),
        post.lookup(key) == Some(data),
{
    assert(post.entries.dom() =~= pre.entries.dom());
}

/// After `clear` the count is zero and every lookup misses, however often
/// one looks.
pub proof fn lemma_clear_then_miss(pre: CacheState, key: Seq<char>, now: Tick)
    ensures
        pre.cleared().len == 0,
        pre.cleared().lookup(key) is None,
        pre.cleared().touched(key, now) == pre.cleared(),
{
}

/// The count is exact and within the entry limit.
pub open spec fn is_exact(state: CacheState) -> bool {
    &&& state.entries.dom().finite()
    &&& state.len == state.entries.dom().len()
    &&& state.len <= state.config.max_entries
}

/// A new cache counts exactly.
pub proof fn lemma_fresh_is_exact(config: CacheConfig)
    ensures
        is_exact(CacheState::fresh(config)),
{
}

/// With an entry limit of at least one, an insert into a cache that counts
/// exactly leaves it counting exactly. In particular the number of entries
/// never exceeds the limit.
pub proof fn lemma_insert_keeps_exact(
    pre: CacheState,
    key: Seq<char>,
    data: Seq<char>,
    now: Tick,
    post: CacheState,
)
    requires
        is_exact(pre),
        pre.config.max_entries >= 1,
        pre.inserted(key, data, now, post),
    ensures
        is_exact(post),
        post.entries.dom().len() <= post.config.max_entries,
{
    if payload_size(data) > pre.config.max_item_size {
    } else if pre.entries.contains_key(key) {
        assert(post.entries.dom() =~= pre.entries.dom());
    } else if pre.len >= pre.config.max_entries {
        assert(pre.entries.dom().len() >= 1);
        assert(!(pre.entries.dom() =~= Set::empty()));
        let victim = choose|victim: Seq<char>| #[trigger]
            pre.is_least_recent(victim) && post == (CacheState {
                entries: pre.entries.remove(victim).insert(key, new_entry(data, now)),
                ..pre
            });
        assert(post.entries.dom() =~= pre.entries.dom().remove(victim).insert(key));
    } else {
        assert(post.entries.dom() =~= pre.entries.dom().insert(key));
    }
}

/// A lookup leaves an exact count exact.
pub proof fn lemma_lookup_keeps_exact(pre: CacheState, key: Seq<char>, now: Tick)
    requires
        is_exact(pre),
    ensures
        is_exact(pre.touched(key, now)),
{
    assert(pre.touched(key, now).entries.dom() =~= pre.entries.dom());
}

/// Removing a key that is present leaves an exact count exact.
pub proof fn lemma_remove_present_keeps_exact(pre: CacheState, key: Seq<char>)
    requires
        is_exact(pre),
        pre.entries.contains_key(key),
    ensures
        is_exact(pre.removed(key)),
{
    assert(pre.removed(key).entries.dom() =~= pre.entries.dom().remove(key));
}

/// `states` is a run of inserts: each state follows from the one before by
/// inserting the payload, under the key and at the time, of the same
/// position.
pub open spec fn is_insert_run(
    states: Seq<CacheState>,
    keys: Seq<Seq<char>>,
    payloads: Seq<Seq<char>>,
    times: Seq<Tick>,
) -> bool {
    &&& states.len() == keys.len() + 1
    &&& payloads.len() == keys.len()
    &&& times.len() == keys.len()
    &&& forall|i: int|
        0 <= i < keys.len() ==> (#[trigger] states[i]).inserted(
            keys[i],
            payloads[i],
            times[i],
            states[i + 1],
        )
}

/// Starting from a new cache, inserting admissible payloads under keys that
/// are all different, no more of them than the entry limit, leaves the
/// count equal to the number of keys inserted, with exactly those keys
/// present.
pub proof fn lemma_count_after_unique_inserts(
    config: CacheConfig,
    states: Seq<CacheState>,
    keys: Seq<Seq<char>>,
    payloads: Seq<Seq<char>>,
    times: Seq<Tick>,
)
    requires
        is_insert_run(states, keys, payloads, times),
        states[0] == CacheState::fresh(config),
        keys.no_duplicates(),
        keys.len() <= config.max_entries,
        forall|i: int| 0 <= i < payloads.len() ==> payload_size(#[trigger] payloads[i]) <= config.max_item_size,
    ensures
        states.last().len == keys.len(),
        states.last().entries.dom() == keys.to_set(),
        forall|i: int| 0 <= i < keys.len() ==> states.last().lookup(#[trigger] keys[i]) == Some(payloads[i]),
    decreases keys.len(),
{
    if keys.len() == 0 {
        assert(states.last().entries.dom() =~= keys.to_set());
    } else {
        let n = keys.len() - 1;
        let before = states.drop_last();
        assert forall|i: int| 0 <= i < n implies (#[trigger] before[i]).inserted(
            keys.drop_last()[i],
            payloads.drop_last()[i],
            times.drop_last()[i],
            before[i + 1],
        ) by {
            assert(states[i].inserted(keys[i], payloads[i], times[i], states[i + 1]));
        }
        lemma_count_after_unique_inserts(
            config,
            before,
            keys.drop_last(),
            payloads.drop_last(),
            times.drop_last(),
        );
        let pre = states[n];
        let post = states[n + 1];
        assert(pre == before.last());
        assert(pre.inserted(keys[n], payloads[n], times[n], post));
        assert(pre.config == config) by {
            lemma_run_keeps_config(states, keys, payloads, times, n);
        }
        assert(!pre.entries.contains_key(keys[n])) by {
            if keys.drop_last().to_set().contains(keys[n]) {
                let j = choose|j: int| 0 <= j < n && keys.drop_last()[j] == keys[n];
                assert(keys[j] == keys[n]);
            }
        }
        assert(pre.len == n);
        assert(post.entries.dom() =~= keys.to_set()) by {
            assert(post.entries.dom() =~= pre.entries.dom().insert(keys[n]));
            assert forall|key: Seq<char>| keys.to_set().contains(key) <==> keys.drop_last().to_set().insert(keys[n]).contains(key) by {
                if keys.to_set().contains(key) {
                    let j = choose|j: int| 0 <= j < keys.len() && keys[j] == key;
                    if j < n {
                        assert(keys.drop_last()[j] == key);
                    }
                }
                if keys.drop_last().to_set().contains(key) {
                    let j = choose|j: int| 0 <= j < n && keys.drop_last()[j] == key;
                    assert(keys[j] == key);
                }
            }
        }
        assert forall|i: int| 0 <= i < keys.len() implies post.lookup(#[trigger] keys[i]) == Some(payloads[i]) by {
            if i < n {
                assert(keys.drop_last()[i] == keys[i]);
                assert(payloads.drop_last()[i] == payloads[i]);
                assert(keys[i] != keys[n]);
            }
        }
    }
}

/// No insert changes the limits.
pub proof fn lemma_run_keeps_config(
    states: Seq<CacheState>,
    keys: Seq<Seq<char>>,
    payloads: Seq<Seq<char>>,
    times: Seq<Tick>,
    n: int,
)
    requires
        is_insert_run(states, keys, payloads, times),
        0 <= n <= keys.len(),
    ensures
        states[n].config == states[0].config,
    decreases n,
{
    if n > 0 {
        lemma_run_keeps_config(states, keys, payloads, times, n - 1);
        assert(states[n - 1].inserted(keys[n - 1], payloads[n - 1], times[n - 1], states[n]));
    }
}

} // verus!
