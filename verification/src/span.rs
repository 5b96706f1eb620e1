//! Lengths of time, as the library exchanges them with its caller.

use vstd::prelude::*;

verus! {

/// Nanoseconds in one second.
pub const NANOS_PER_SECOND: u32 = 1_000_000_000;

/// A length of time: whole seconds and the nanoseconds beyond them.
#[derive(Clone, Copy, Debug, PartialEq, Eq, Structural)]
pub struct Span {
    pub secs: u64,
    pub nanos: u32,
}

impl Span {
    /// The length in nanoseconds.
    pub open spec fn total_nanos(self) -> nat {
        (self.secs * NANOS_PER_SECOND + self.nanos) as nat
    }

    /// Whether the nanoseconds stay below a second.
    pub open spec fn wf(self) -> bool {
        self.nanos < NANOS_PER_SECOND
    }

    pub open spec fn spec_from_secs(secs: u64) -> Span {
        Span { secs, nanos: 0 }
    }

    /// A span of whole seconds.
    #[verifier::when_used_as_spec(spec_from_secs)]
    pub fn from_secs(secs: u64) -> (r: Span)
        ensures
            r == Span::spec_from_secs(secs),
    {
        Span { secs, nanos: 0 }
    }

    /// What is left of one second after `self`, for a span under a second.
    pub open spec fn spec_rest_of_second(self) -> Span {
        if self.nanos == 0 {
            Span { secs: 1, nanos: 0 }
        } else {
            Span { secs: 0, nanos: (NANOS_PER_SECOND - self.nanos) as u32 }
        }
    }

    /// What is left of one second after `self`.
    #[verifier::when_used_as_spec(spec_rest_of_second)]
    pub fn rest_of_second(self) -> (r: Span)
        requires
            self.total_nanos() < NANOS_PER_SECOND,
        ensures
            r == self.spec_rest_of_second(),
            r.wf(),
            r.total_nanos() + self.total_nanos() == NANOS_PER_SECOND,
    {
        if self.nanos == 0 {
            Span { secs: 1, nanos: 0 }
        } else {
            Span { secs: 0, nanos: NANOS_PER_SECOND - self.nanos }
        }
    }

    /// Tells whether the span is shorter than one second.
    pub fn under_a_second(self) -> (r: bool)
        ensures
            r == (self.total_nanos() < NANOS_PER_SECOND),
    {
        self.secs == 0 && self.nanos < NANOS_PER_SECOND
    }
}

} // verus!
