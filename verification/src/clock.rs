//! The machine's monotonic clock. What it says cannot be known beforehand,
//! so whoever reads it leaves the deciding to a function that takes the
//! reading as an argument.

use std::time::{Duration, Instant};
use vstd::prelude::*;

verus! {

/// A moment on the machine's monotonic clock. Nothing is known of it but
/// that it can be asked how long ago it was.
#[verifier::external_type_specification]
#[verifier::external_body]
pub struct ExInstant(Instant);

/// `Instant` is `Copy`: its `clone` hands back the same moment.
pub assume_specification[ <Instant as Clone>::clone ](moment: &Instant) -> (copy: Instant)
    ensures
        copy == *moment,
;

/// Calls `Instant::now`. The result is the moment of the call, so nothing is
/// stated of it.
#[verifier::external_body]
pub(crate) fn now() -> Instant {
    Instant::now()
}

/// Calls `Instant::elapsed`: the time from `since` to the moment of the
/// call. It depends on the clock, so nothing is stated of it.
#[verifier::external_body]
pub(crate) fn elapsed(since: &Instant) -> Duration {
    since.elapsed()
}

/// Calls `Duration::as_nanos`: the nanoseconds in a span of time, which is
/// all of it, as a span counts nothing finer.
#[verifier::external_body]
pub(crate) fn whole_nanos(span: &Duration) -> u128 {
    span.as_nanos()
}

/// How many nanoseconds make a millisecond.
pub const NANOS_IN_MILLI: u128 = 1_000_000;

/// How long ago a moment was, in nanoseconds.
pub fn nanos_since(moment: &Instant) -> u128 {
    let span = elapsed(moment);
    whole_nanos(&span)
}

/// How long ago a moment was, in whole milliseconds.
pub fn millis_since(moment: &Instant) -> u128 {
    nanos_since(moment) / NANOS_IN_MILLI
}

} // verus!
