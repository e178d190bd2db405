//! A monotonic clock that counts nanoseconds from the moment it was started.

use std::time::Instant;
use vstd::prelude::*;

verus! {

/// `std::time::Instant`, a reading of the monotonic clock: carried through, never looked into.
#[verifier::external_type_specification]
#[verifier::external_body]
pub struct ExInstant(Instant);

/// `std::time::Instant::now`: a reading of the monotonic clock. Nothing is
/// promised of it.
#[verifier::external_body]
fn clock_reading() -> Instant {
    Instant::now()
}

/// `Instant`'s `clone`: the same reading.
pub assume_specification[ <Instant as Clone>::clone ](reading: &Instant) -> (copy: Instant)
    ensures
        copy == *reading,
;

/// `std::time::Instant::elapsed`, as whole nanoseconds: the time that has
/// passed since `origin` was read. Nothing is promised of it.
#[verifier::external_body]
fn nanos_since(origin: &Instant) -> u128 {
    origin.elapsed().as_nanos()
}

/// A clock. Its time is the number of nanoseconds since it was started.
#[derive(Debug)]
pub(crate) struct Clock {
    origin: Instant,
}

impl Clone for Clock {
    /// A clock that was started at the same moment.
    fn clone(&self) -> (copy: Self)
        ensures
            copy == *self,
    {
        Clock { origin: self.origin.clone() }
    }
}

impl Clock {
    /// A clock that starts now.
    pub(crate) fn start() -> Clock {
        Clock { origin: clock_reading() }
    }

    /// The time on the clock. It depends on when it is read, so nothing is
    /// promised of it.
    pub(crate) fn now(&self) -> u128 {
        nanos_since(&self.origin)
    }
}

} // verus!
