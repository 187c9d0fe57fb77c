use vstd::prelude::*;

verus! {

#[verifier::external_type_specification]
#[verifier::external_body]
pub struct ExInstant(std::time::Instant);

/// Relies on `std::time::Instant::now`: a monotonic-clock reading, taken
/// once when a decorator is built to anchor its elapsed-time readings.
/// Nothing can be promised of a clock value.
pub assume_specification[ std::time::Instant::now ]() -> std::time::Instant;

/// Relies on `std::time::Instant::elapsed`: the time from this instant to
/// now (zero if the clock has not advanced). Nothing can be promised of a
/// clock value.
pub assume_specification[ std::time::Instant::elapsed ](origin: &std::time::Instant) -> std::time::Duration;

/// Relies on `std::time::Duration::as_nanos`: the duration as a total
/// number of nanoseconds. The duration came from the clock, so nothing is
/// promised of the value.
pub assume_specification[ std::time::Duration::as_nanos ](d: &std::time::Duration) -> u128;

/// Reads the real clock: nanoseconds from `origin` to now, saturating at
/// `u64::MAX` (over five centuries). Nothing is known of the result; the
/// decorator clamps it to keep elapsed time monotone.
pub(crate) fn now_nanos(origin: &std::time::Instant) -> u64 {
    let d = origin.elapsed();
    let n = d.as_nanos();
    if n > u64::MAX as u128 {
        u64::MAX
    } else {
        n as u64
    }
}

} // verus!
