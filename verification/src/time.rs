//! Readings of a monotonic clock, in nanoseconds since an origin that the
//! caller fixes once, and the arithmetic on them.

use vstd::prelude::*;

verus! {

/// Nanoseconds in one second.
pub const NANOS_PER_SEC: u64 = 1_000_000_000;

/// The time from `since` to `now`, or zero where `since` is not before `now`.
pub open spec fn elapsed(now: u64, since: u64) -> u64 {
    if now >= since {
        (now - since) as u64
    } else {
        0
    }
}

/// A span of `nanos` nanoseconds is strictly longer than `secs` seconds.
pub open spec fn exceeds(nanos: u64, secs: u64) -> bool {
    nanos as int > secs as int * NANOS_PER_SEC as int
}

/// The whole seconds in a span of `nanos` nanoseconds.
pub open spec fn whole_secs(nanos: u64) -> u64 {
    nanos / NANOS_PER_SEC
}

/// The time from `since` to `now`, saturating at zero.
pub fn elapsed_since(now: u64, since: u64) -> (span: u64)
    ensures
        span == elapsed(now, since),
{
    if now >= since {
        now - since
    } else {
        0
    }
}

/// Whether a span of `nanos` nanoseconds is strictly longer than `secs`
/// seconds. A span of exactly `secs` seconds is not.
pub fn exceeds_secs(nanos: u64, secs: u64) -> (longer: bool)
    ensures
        longer == exceeds(nanos, secs),
{
    assert(secs as int * NANOS_PER_SEC as int <= u128::MAX as int) by {
        assert(NANOS_PER_SEC == 1_000_000_000);
    }
    let limit: u128 = (secs as u128) * (NANOS_PER_SEC as u128);
    (nanos as u128) > limit
}

/// The whole seconds in a span of `nanos` nanoseconds, rounded down.
pub fn secs_of(nanos: u64) -> (secs: u64)
    ensures
        secs == whole_secs(nanos),
{
    nanos / NANOS_PER_SEC
}

} // verus!
