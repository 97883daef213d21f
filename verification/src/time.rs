//! Clock readings and durations. Both are counted in milliseconds and held
//! in a `u64`; sums that would not fit stop at `u64::MAX`.

use vstd::prelude::*;

verus! {

/// Milliseconds in one second.
pub const MILLIS_PER_SECOND: u64 = 1_000;

/// Seconds in one minute.
pub const SECONDS_PER_MINUTE: u64 = 60;

/// Milliseconds in one minute.
pub const MILLIS_PER_MINUTE: u64 = 60_000;

/// `x` as far as a `u64` holds it: values above `u64::MAX` become
/// `u64::MAX`, values below zero become zero.
pub open spec fn saturated(x: int) -> int {
    if x < 0 {
        0
    } else if x > u64::MAX {
        u64::MAX as int
    } else {
        x
    }
}

/// The time from the reading `from` to the reading `to` of a monotonic
/// clock; zero where `to` is the earlier of the two.
pub open spec fn span(from: u64, to: u64) -> int {
    if to >= from {
        to - from
    } else {
        0
    }
}

} // verus!
