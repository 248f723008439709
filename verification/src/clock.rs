//! The monotonic clock that measurements are read from.
//!
//! Everything the library takes on trust about the standard library's clock
//! is in this file: one opaque type and three calls. None of the calls
//! promises anything about the value it returns, so nothing that is proved
//! elsewhere depends on how the clock behaves.

use std::time::{Duration, Instant};
use vstd::prelude::*;

verus! {

/// `std::time::Instant`, carried as an opaque value.
#[verifier::external_type_specification]
#[verifier::external_body]
pub struct ExInstant(Instant);

/// Calls `Instant::now`. The reading depends on when the call is made, so
/// nothing is claimed of it.
#[verifier::external_body]
fn instant_now() -> (now: Instant) {
    Instant::now()
}

/// Calls `Instant::elapsed`: the time that has passed since `origin` was
/// read. It depends on when the call is made, so nothing is claimed of it.
#[verifier::external_body]
fn instant_elapsed(origin: &Instant) -> (elapsed: Duration) {
    origin.elapsed()
}

/// Calls `Duration::as_nanos`. A `Duration` is opaque here, so nothing is
/// claimed of the number beyond its type.
#[verifier::external_body]
fn duration_as_nanos(duration: &Duration) -> (nanos: u128) {
    duration.as_nanos()
}

/// A clock that counts nanoseconds from the moment it was started.
pub(crate) struct Clock {
    origin: Instant,
}

impl Clock {
    /// Starts a clock: its reading is zero now.
    pub(crate) fn start() -> (clock: Clock) {
        Clock { origin: instant_now() }
    }

    /// Nanoseconds since the clock was started.
    pub(crate) fn now(&self) -> (nanos: u128) {
        let elapsed = instant_elapsed(&self.origin);
        duration_as_nanos(&elapsed)
    }
}

} // verus!
