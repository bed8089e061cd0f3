//! The monotonic clock by which tokens are stamped and judged.

use vstd::prelude::*;
use std::time::{Duration, Instant};

verus! {

/// `std::time::Instant`, a reading of the monotonic clock. Nothing is known
/// of what a value holds.
#[verifier::external_type_specification]
#[verifier::external_body]
pub struct ExInstant(Instant);

/// `Instant::now` reads the monotonic clock. Nothing is claimed of the
/// reading.
pub assume_specification[ Instant::now ]() -> (reading: Instant);

/// `Instant::elapsed` measures the time gone by since the instant. Nothing is
/// claimed of the measure.
pub assume_specification[ Instant::elapsed ](instant: &Instant) -> (elapsed: Duration);

/// `Duration::as_nanos` gives the duration in whole nanoseconds. Nothing is
/// claimed of the number.
pub assume_specification[ Duration::as_nanos ](duration: &Duration) -> (nanos: u128);

/// A monotonic clock that counts nanoseconds from the moment it was started.
#[derive(Debug)]
pub struct Clock {
    origin: Instant,
    latest: u128,
}

impl Clock {
    /// Starts a clock. It has given no reading yet.
    pub fn start() -> (clock: Clock)
        ensures
            clock.latest() == 0,
    {
        Clock { origin: Instant::now(), latest: 0 }
    }

    /// The nanoseconds gone by since the clock was started, or the reading
    /// before this one where the platform's clock fell behind it: no reading
    /// is below the one before it, whatever the platform's clock does.
    pub fn now(&mut self) -> (reading: u128)
        ensures
            reading >= old(self).latest(),
            final(self).latest() == reading,
    {
        let elapsed = self.origin.elapsed();
        let nanos: u128 = elapsed.as_nanos();
        if nanos > self.latest {
            self.latest = nanos;
        }
        self.latest
    }

    /// The latest reading that the clock has given; 0 before the first.
    pub closed spec fn latest(&self) -> nat {
        self.latest as nat
    }
}

} // verus!
