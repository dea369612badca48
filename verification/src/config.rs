//! Static limits of a cache.

use vstd::prelude::*;

verus! {

pub const KILOBYTE: usize = 1024;

pub const MEGABYTE: usize = KILOBYTE * KILOBYTE;

/// `MEGABYTE` times `MEGABYTE`. Held in 64 bits, since the product does not
/// fit a 32-bit `usize`.
pub const GIGABYTE: u64 = 1_099_511_627_776;

/// Default ceiling for a single payload, in bytes.
pub const MAX_ITEM_SIZE: usize = 1 * MEGABYTE;

/// Limits fixed for the lifetime of a cache.
#[derive(Debug, Clone, Copy)]
pub struct CacheConfig {
    /// Largest payload, in bytes, that is admitted.
    pub max_item_size: usize,
    /// Number of entries the cache aims to hold at most.
    pub max_entries: usize,
}

} // verus!
