//! The monotonic clock that paces the sample rounds. The items on `std::time` say
//! what is taken on trust; nothing is claimed of any reading.
use std::time::{Duration, Instant};
use vstd::prelude::*;

verus! {

/// `std::time::Instant`, a reading of the monotonic clock. Nothing is known of
/// what a value of it holds.
#[verifier::external_type_specification]
#[verifier::external_body]
pub struct ExInstant(Instant);

/// `Instant::now` reads the monotonic clock. Nothing is claimed of the reading.
pub assume_specification[ Instant::now ]() -> (now: Instant)
;

/// `Instant::elapsed` gives the time that passed since the instant was taken, and
/// zero where the clock reads earlier than the instant. Nothing is claimed of the
/// result.
pub assume_specification[ Instant::elapsed ](instant: &Instant) -> (elapsed: Duration)
;

/// `Duration::as_nanos` gives the whole duration in nanoseconds. Nothing is
/// claimed of the result, since nothing is known of the duration.
pub assume_specification[ Duration::as_nanos ](duration: &Duration) -> (nanos: u128)
;

/// The nanoseconds that passed on the monotonic clock since `origin` was taken.
pub(crate) fn nanos_since(origin: &Instant) -> (nanos: u128) {
    let elapsed = origin.elapsed();
    elapsed.as_nanos()
}

} // verus!
