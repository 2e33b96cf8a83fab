//! Reading the monotonic clock, for the age of a notification.
use vstd::prelude::*;
use std::time::Instant;

verus! {

/// `std::time::Instant`, carried through the library as an opaque value.
#[verifier::external_type_specification]
#[verifier::external_body]
pub struct ExInstant(Instant);

/// Calls `Instant::now`.  Nothing is stated of the result: it is whatever
/// the clock reads.
#[verifier::external_body]
pub(crate) fn now() -> Instant {
    Instant::now()
}

/// Calls `Instant::elapsed` on `since` and returns the whole milliseconds of
/// the duration.  Nothing is stated of the result: it depends on the clock.
#[verifier::external_body]
pub(crate) fn millis_since(since: &Instant) -> u128 {
    since.elapsed().as_millis()
}

} // verus!
