//! The moments and spans of time that the timers of this crate read, taken
//! from `std::time`.
use vstd::prelude::*;
use std::time::{Duration, Instant};

verus! {

#[verifier::external_type_specification]
#[verifier::external_body]
pub struct ExInstant(Instant);

/// Calls `Instant::now`. Nothing is stated of the moment it returns.
#[verifier::external_body]
pub(crate) fn instant_now() -> Instant {
    Instant::now()
}

/// Calls `Instant::duration_since`: the time elapsed from `earlier` to
/// `later` (zero if `earlier` is the later one). Nothing is stated of the
/// span, which depends on the clock.
#[verifier::external_body]
pub(crate) fn duration_since(later: &Instant, earlier: &Instant) -> Duration {
    later.duration_since(*earlier)
}

/// The number of nanoseconds in the longest `Duration`, `Duration::MAX`:
/// `u64::MAX` seconds and 999 999 999 nanoseconds.
pub const MAX_DURATION_NANOS: u128 = 18446744073709551615999999999u128;

/// Calls `Duration::as_nanos`: the whole span in nanoseconds. Since no
/// `Duration` is longer than `Duration::MAX`, the number is at most
/// `MAX_DURATION_NANOS`; nothing more is stated, since nothing here reads
/// inside a `Duration`.
#[verifier::external_body]
pub(crate) fn duration_nanos(d: &Duration) -> (r: u128)
    ensures
        r <= MAX_DURATION_NANOS,
{
    d.as_nanos()
}

/// The nanoseconds elapsed from `earlier` to `later`: a span that fits in a
/// `Duration`. How long it is depends on the clock.
pub(crate) fn nanos_between(later: &Instant, earlier: &Instant) -> (r: u128)
    ensures
        r <= MAX_DURATION_NANOS,
{
    let d = duration_since(later, earlier);
    duration_nanos(&d)
}

} // verus!
