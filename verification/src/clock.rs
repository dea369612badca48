//! The monotonic clock that timestamps accesses.

use std::time::{Duration, Instant};
use vstd::prelude::*;

verus! {

/// `std::time::Instant`, taken as an opaque value.
#[verifier::external_type_specification]
#[verifier::external_body]
pub struct ExInstant(Instant);

/// `Instant::now`: the current reading of the monotonic clock. Nothing is
/// known about the value.
pub assume_specification[ Instant::now ]() -> Instant;

/// `Instant::elapsed`: the time that has passed since `instant` was taken.
/// Nothing is known about the value.
pub assume_specification[ Instant::elapsed ](instant: &Instant) -> Duration;

/// `Duration::as_nanos`: the span in whole nanoseconds. Nothing is stated
/// about the value, since the span itself is opaque here.
pub assume_specification[ Duration::as_nanos ](duration: &Duration) -> u128;

} // verus!
