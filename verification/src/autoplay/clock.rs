//! The clock, as the library sees it: points in time and spans between them.

use std::time::{Duration, Instant};
use vstd::prelude::*;

verus! {

/// A point in time, as `std` holds it.
#[verifier::external_type_specification]
#[verifier::external_body]
pub struct ExInstant(std::time::Instant);

/// The whole milliseconds of a span of time.
pub uninterp spec fn whole_millis(span: Duration) -> u128;

/// Calls `std::time::Instant::now`. Nothing is claimed of the clock.
#[verifier::external_body]
pub(crate) fn clock_now() -> Instant {
    Instant::now()
}

/// Where on the clock a point in time stands, in nanoseconds from a fixed
/// start. A later point has a greater number.
pub uninterp spec fn clock_nanos(at: Instant) -> int;

/// The whole milliseconds between two places on the clock; zero where
/// `earlier` is the later of the two.
pub open spec fn millis_between(earlier: int, later: int) -> int {
    if earlier <= later {
        (later - earlier) / 1_000_000
    } else {
        0
    }
}

/// Calls `std::time::Instant::duration_since`. Believed: the span is the time
/// from the one point to the other, or none where they are the other way
/// round. Its whole milliseconds are all that is said of it.
#[verifier::external_body]
pub(crate) fn span_from(earlier: Instant, later: Instant) -> (r: Duration)
    ensures
        whole_millis(r) == millis_between(clock_nanos(earlier), clock_nanos(later)),
{
    later.duration_since(earlier)
}

/// Calls `std::time::Duration::as_millis`. Believed: the number is a function
/// of the span, the one named [`whole_millis`].
#[verifier::external_body]
pub(crate) fn millis_of(span: Duration) -> (r: u128)
    ensures
        r == whole_millis(span),
{
    span.as_millis()
}

/// Calls `std::time::Duration::from_millis`. Believed: a span made of a
/// number of milliseconds has that many whole milliseconds.
#[verifier::external_body]
pub(crate) fn span_of_millis(ms: u64) -> (r: Duration)
    ensures
        whole_millis(r) == ms,
{
    Duration::from_millis(ms)
}

} // verus!
