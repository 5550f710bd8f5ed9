//! Monotonic time as the coordinator sees it.

use std::time::{Duration, Instant};
use vstd::prelude::*;

verus! {

/// `std::time::Instant`, carried as an opaque point on the monotonic clock.
#[verifier::external_type_specification]
#[verifier::external_body]
pub struct ExInstant(std::time::Instant);

/// `Instant::now` reads the monotonic clock. The reading depends on when the
/// call is made, so nothing is claimed of it.
pub assume_specification[ std::time::Instant::now ]() -> (at: Instant)
;

/// `Instant::elapsed` measures the time from `at` to the present. The result
/// depends on the clock, so nothing is claimed of it.
pub assume_specification[ std::time::Instant::elapsed ](at: &Instant) -> (elapsed: Duration)
;

/// `Duration::as_secs` gives the whole seconds of a span of time. A span is
/// opaque here, so nothing is claimed of the number.
pub assume_specification[ std::time::Duration::as_secs ](span: &Duration) -> (secs: u64)
;

/// Number of whole seconds below which a worker still counts as connected.
pub const CONNECTED_THRESHOLD_SECS: u64 = 2;

/// Whether a worker last heard of `elapsed` whole seconds ago counts as
/// connected.
pub fn within_threshold(elapsed: u64) -> (fresh: bool)
    ensures
        fresh == (elapsed < CONNECTED_THRESHOLD_SECS),
{
    elapsed < CONNECTED_THRESHOLD_SECS
}

} // verus!
