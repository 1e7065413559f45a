use vstd::prelude::*;

verus! {

/// The whole seconds of a duration, as `Duration::as_secs` gives them.
pub uninterp spec fn secs_of(d: core::time::Duration) -> u64;

/// The nanoseconds of a duration past its whole seconds, as
/// `Duration::subsec_nanos` gives them.
pub uninterp spec fn nanos_of(d: core::time::Duration) -> u32;

const NANOS_PER_MILLI: u64 = 1_000_000;

const MILLIS_PER_SEC: u64 = 1_000;

/// Whole seconds and nanoseconds as milliseconds, the nanoseconds rounded up
/// and the sum saturated at `u64::MAX`.
pub open spec fn millis_spec(secs: u64, nanos: u32) -> int {
    let exact = secs * 1000 + (nanos + 999_999) / 1_000_000;
    if exact > u64::MAX {
        u64::MAX as int
    } else {
        exact
    }
}

/// Milliseconds of `secs` seconds and `nanos` nanoseconds, rounding up and
/// saturating at `u64::MAX`.
pub fn millis_from_parts(secs: u64, nanos: u32) -> (r: u64)
    ensures
        r == millis_spec(secs, nanos),
{
    let millis = (nanos as u64 + NANOS_PER_MILLI - 1) / NANOS_PER_MILLI;
    match secs.checked_mul(MILLIS_PER_SEC) {
        Some(whole) => whole.saturating_add(millis),
        None => u64::MAX,
    }
}

/// A duration in milliseconds, rounding up and saturating at `u64::MAX`.
pub fn millis(duration: std::time::Duration) -> (r: u64)
    ensures
        r == millis_spec(secs_of(duration), nanos_of(duration)),
{
    let secs = duration.as_secs();
    let nanos = duration.subsec_nanos();
    millis_from_parts(secs, nanos)
}

} // verus!
