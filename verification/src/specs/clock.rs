//! Contracts for `std::time`.

use vstd::prelude::*;
use std::time::Duration;

verus! {

/// The length of a duration in nanoseconds, as `Duration::as_nanos` returns it.
pub uninterp spec fn duration_nanos(d: Duration) -> u128;

/// `Duration::as_nanos` gives the total number of nanoseconds.
pub assume_specification[ Duration::as_nanos ](d: &Duration) -> (n: u128)
    ensures
        n == duration_nanos(*d),
;

/// Cloning a `Duration` gives the same duration.
pub assume_specification[ <Duration as Clone>::clone ](d: &Duration) -> (r: Duration)
    ensures
        r == *d,
;

/// `Duration::from_secs` makes a duration of that many whole seconds.
pub assume_specification[ Duration::from_secs ](secs: u64) -> (d: Duration)
    ensures
        duration_nanos(d) == secs * 1_000_000_000,
;

/// `Duration::from_millis` makes a duration of that many whole milliseconds.
pub assume_specification[ Duration::from_millis ](millis: u64) -> (d: Duration)
    ensures
        duration_nanos(d) == millis * 1_000_000,
;

/// Reads the system clock with `SystemTime::now` of std: the time since the
/// Unix epoch, or nothing where the clock stands before it. Nothing is promised
/// of the value.
#[verifier::external_body]
pub(crate) fn since_epoch() -> Option<Duration> {
    std::time::SystemTime::now().duration_since(std::time::UNIX_EPOCH).ok()
}

} // verus!
