//! The one place where the crate reads the time.

use crate::span::Timestamp;
use std::time::Instant;
use vstd::prelude::*;

verus! {

/// `std::time::Instant`: a point on the monotonic clock of the machine. It is
/// carried through as it is, and nothing is said of what it holds.
#[verifier::external_type_specification]
#[verifier::external_body]
pub struct ExInstant(std::time::Instant);

/// A monotonic clock that counts from the moment it was started. The
/// [`Timestamp`]s of one clock are measured from that moment, so they can be
/// compared and subtracted; nothing is known of the moment itself.
#[derive(Clone, Copy, Debug)]
pub struct Clock {
    origin: Instant,
}

/// `std::time::Instant::now`: the present instant. Nothing is claimed of it.
#[verifier::external_body]
fn present_instant() -> Instant {
    Instant::now()
}

/// `std::time::Instant::elapsed`: the time that has passed since `origin`, in
/// whole nanoseconds. Nothing is claimed of the number: it differs from call
/// to call.
#[verifier::external_body]
fn nanos_since(origin: &Instant) -> u128 {
    origin.elapsed().as_nanos()
}

impl Clock {
    /// Starts a clock whose origin is the present instant.
    pub fn start() -> Clock {
        Clock { origin: present_instant() }
    }

    /// Reads the clock. Two readings may differ, and the contract promises
    /// nothing of either: callers are verified for every instant.
    pub fn now(&self) -> Timestamp {
        Timestamp::from_nanos(nanos_since(&self.origin))
    }
}

} // verus!
