//! Lengths of time and instants, both counted in whole nanoseconds.

use vstd::prelude::*;

verus! {

/// Nanoseconds in one millisecond.
pub const NANOS_PER_MILLI: u128 = 1_000_000;

/// Nanoseconds in one second.
pub const NANOS_PER_SEC: u128 = 1_000_000_000;

/// Nanoseconds in one minute.
pub const NANOS_PER_MINUTE: u128 = 60_000_000_000;

/// A length of time. Its view is the number of nanoseconds it lasts.
#[derive(Clone, Copy, Debug, PartialEq, Eq, Structural)]
pub struct Span {
    pub nanos: u128,
}

impl View for Span {
    type V = nat;

    open spec fn view(&self) -> nat {
        self.nanos as nat
    }
}

impl Span {
    /// The sum of the two spans in the model: the longest span there is
    /// where the sum cannot be held.
    pub open spec fn spec_saturating_add(self, rhs: Span) -> Span {
        if self.nanos + rhs.nanos > u128::MAX {
            Span { nanos: u128::MAX }
        } else {
            Span { nanos: (self.nanos + rhs.nanos) as u128 }
        }
    }

    /// The difference of the two spans in the model: nothing where `rhs` is
    /// the longer.
    pub open spec fn spec_saturating_sub(self, rhs: Span) -> Span {
        if self.nanos >= rhs.nanos {
            Span { nanos: (self.nanos - rhs.nanos) as u128 }
        } else {
            Span { nanos: 0 }
        }
    }

    /// The empty span.
    pub fn zero() -> (s: Span)
        ensures
            s@ == 0,
    {
        Span { nanos: 0 }
    }

    /// A span of `nanos` nanoseconds.
    pub fn from_nanos(nanos: u128) -> (s: Span)
        ensures
            s@ == nanos,
    {
        Span { nanos }
    }

    /// A span of `millis` milliseconds.
    pub fn from_millis(millis: u64) -> (s: Span)
        ensures
            s@ == millis * NANOS_PER_MILLI,
    {
        Span { nanos: millis as u128 * NANOS_PER_MILLI }
    }

    /// A span of `secs` seconds.
    pub fn from_secs(secs: u64) -> (s: Span)
        ensures
            s@ == secs * NANOS_PER_SEC,
    {
        Span { nanos: secs as u128 * NANOS_PER_SEC }
    }

    /// A span of `minutes` minutes.
    pub fn from_minutes(minutes: u64) -> (s: Span)
        ensures
            s@ == minutes * NANOS_PER_MINUTE,
    {
        Span { nanos: minutes as u128 * NANOS_PER_MINUTE }
    }

    /// The whole span in nanoseconds.
    pub fn as_nanos(&self) -> (n: u128)
        ensures
            n == self@,
    {
        self.nanos
    }

    /// The whole seconds in the span; what is left of a second is dropped.
    pub fn as_secs(&self) -> (secs: u128)
        ensures
            secs == self@ / (NANOS_PER_SEC as nat),
    {
        self.nanos / NANOS_PER_SEC
    }

    /// The part of the span that is left after its whole seconds.
    pub fn subsec_nanos(&self) -> (n: u32)
        ensures
            n == self@ % (NANOS_PER_SEC as nat),
    {
        (self.nanos % NANOS_PER_SEC) as u32
    }

    /// Whether the span is empty.
    pub fn is_zero(&self) -> (b: bool)
        ensures
            b == (self@ == 0),
    {
        self.nanos == 0
    }

    /// The two spans one after the other, or `None` where the sum cannot be
    /// held.
    pub fn checked_add(self, rhs: Span) -> (sum: Option<Span>)
        ensures
            match sum {
                Some(s) => s@ == self@ + rhs@,
                None => self@ + rhs@ > u128::MAX,
            },
    {
        match self.nanos.checked_add(rhs.nanos) {
            Some(nanos) => Some(Span { nanos }),
            None => None,
        }
    }

    /// What is left of the span once `rhs` is taken away, or `None` where
    /// `rhs` is the longer.
    pub fn checked_sub(self, rhs: Span) -> (diff: Option<Span>)
        ensures
            match diff {
                Some(d) => d@ == self@ - rhs@,
                None => self@ < rhs@,
            },
    {
        if self.nanos >= rhs.nanos {
            Some(Span { nanos: self.nanos - rhs.nanos })
        } else {
            None
        }
    }

    /// The two spans one after the other; the longest span there is where the
    /// sum cannot be held.
    pub fn saturating_add(self, rhs: Span) -> (sum: Span)
        ensures
            sum == self.spec_saturating_add(rhs),
            sum@ == if self@ + rhs@ > u128::MAX {
                u128::MAX as nat
            } else {
                self@ + rhs@
            },
    {
        match self.nanos.checked_add(rhs.nanos) {
            Some(nanos) => Span { nanos },
            None => Span { nanos: u128::MAX },
        }
    }

    /// What is left of the span once `rhs` is taken away; nothing where `rhs`
    /// is the longer.
    pub fn saturating_sub(self, rhs: Span) -> (diff: Span)
        ensures
            diff == self.spec_saturating_sub(rhs),
            diff@ == if self@ >= rhs@ {
                self@ - rhs@
            } else {
                0
            },
    {
        if self.nanos >= rhs.nanos {
            Span { nanos: self.nanos - rhs.nanos }
        } else {
            Span { nanos: 0 }
        }
    }
}

/// An instant on a clock. Its view is the number of nanoseconds that lie
/// between the clock's origin and the instant.
#[derive(Clone, Copy, Debug, PartialEq, Eq, Structural)]
pub struct Timestamp {
    pub nanos: u128,
}

impl View for Timestamp {
    type V = nat;

    open spec fn view(&self) -> nat {
        self.nanos as nat
    }
}

impl Timestamp {
    /// The time from `earlier` to `self`, in the model: nothing where
    /// `earlier` is in fact the later of the two.
    pub open spec fn spec_since(self, earlier: Timestamp) -> Span {
        if self.nanos >= earlier.nanos {
            Span { nanos: (self.nanos - earlier.nanos) as u128 }
        } else {
            Span { nanos: 0 }
        }
    }

    /// The clock's origin.
    pub fn origin() -> (t: Timestamp)
        ensures
            t@ == 0,
    {
        Timestamp { nanos: 0 }
    }

    /// The instant `nanos` nanoseconds after the clock's origin.
    pub fn from_nanos(nanos: u128) -> (t: Timestamp)
        ensures
            t@ == nanos,
    {
        Timestamp { nanos }
    }

    /// The nanoseconds between the clock's origin and the instant.
    pub fn as_nanos(&self) -> (n: u128)
        ensures
            n == self@,
    {
        self.nanos
    }

    /// The time that has passed from `earlier` to `self`. An `earlier` that
    /// lies after `self` counts as no time at all.
    pub fn since(self, earlier: Timestamp) -> (elapsed: Span)
        ensures
            elapsed == self.spec_since(earlier),
            elapsed@ == if self@ >= earlier@ {
                self@ - earlier@
            } else {
                0
            },
    {
        if self.nanos >= earlier.nanos {
            Span { nanos: self.nanos - earlier.nanos }
        } else {
            Span { nanos: 0 }
        }
    }

    /// The instant that lies `span` after `self`; the last instant the clock
    /// can show where that is further than it reaches.
    pub fn after(self, span: Span) -> (t: Timestamp)
        ensures
            t@ == if self@ + span@ > u128::MAX {
                u128::MAX as nat
            } else {
                self@ + span@
            },
    {
        match self.nanos.checked_add(span.nanos) {
            Some(nanos) => Timestamp { nanos },
            None => Timestamp { nanos: u128::MAX },
        }
    }
}

} // verus!
