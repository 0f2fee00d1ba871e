//! Spans of time, in whole seconds and nanoseconds.
use vstd::prelude::*;

verus! {

/// Nanoseconds in one second.
pub const NANOS_PER_SEC: u32 = 1_000_000_000;

/// A span of time. Its view is its length in nanoseconds.
///
/// The longest span is `u64::MAX` seconds and 999,999,999 nanoseconds.
#[derive(Clone, Copy, Debug, PartialEq, Eq, Structural)]
pub struct Duration {
    secs: u64,
    nanos: u32,
}

impl View for Duration {
    type V = nat;

    closed spec fn view(&self) -> nat {
        (self.secs * NANOS_PER_SEC + self.nanos) as nat
    }
}

impl Duration {
    /// The part below a second is below a second.
    #[verifier::type_invariant]
    pub closed spec fn inv(self) -> bool {
        self.nanos < NANOS_PER_SEC
    }

    /// The length of the longest span there is.
    pub open spec fn max_nanos() -> nat {
        (u64::MAX * NANOS_PER_SEC + NANOS_PER_SEC - 1) as nat
    }

    /// A span of `secs` seconds and `nanos` nanoseconds; nanoseconds that make up a second
    /// carry over.
    pub fn new(secs: u64, nanos: u32) -> (span: Self)
        requires
            secs * NANOS_PER_SEC + nanos <= Self::max_nanos(),
        ensures
            span@ == secs * NANOS_PER_SEC + nanos,
    {
        if nanos < NANOS_PER_SEC {
            Duration { secs, nanos }
        } else {
            Duration { secs: secs + (nanos / NANOS_PER_SEC) as u64, nanos: nanos % NANOS_PER_SEC }
        }
    }

    /// A span of whole seconds.
    pub fn from_secs(secs: u64) -> (span: Self)
        ensures
            span@ == secs * NANOS_PER_SEC,
    {
        Duration { secs, nanos: 0 }
    }

    /// The whole seconds in the span.
    pub fn as_secs(&self) -> (secs: u64)
        ensures
            secs == self@ / (NANOS_PER_SEC as nat),
    {
        proof {
            use_type_invariant(self);
        }
        self.secs
    }

    /// What is left of the span beside its whole seconds.
    pub fn subsec_nanos(&self) -> (nanos: u32)
        ensures
            nanos == self@ % (NANOS_PER_SEC as nat),
    {
        proof {
            use_type_invariant(self);
        }
        self.nanos
    }

    /// The two spans together, or `None` where that is longer than any span.
    pub fn checked_add(self, other: Duration) -> (sum: Option<Duration>)
        ensures
            match sum {
                Some(span) => span@ == self@ + other@ <= Self::max_nanos(),
                None => self@ + other@ > Self::max_nanos(),
            },
    {
        proof {
            use_type_invariant(&self);
            use_type_invariant(&other);
        }
        let nanos: u32 = self.nanos + other.nanos;
        let (carry, nanos): (u64, u32) = if nanos < NANOS_PER_SEC {
            (0, nanos)
        } else {
            (1, nanos - NANOS_PER_SEC)
        };
        match self.secs.checked_add(other.secs) {
            None => None,
            Some(secs) => match secs.checked_add(carry) {
                None => None,
                Some(secs) => Some(Duration { secs, nanos }),
            },
        }
    }

    /// What is left of the span once `other` has passed, or `None` where `other` is longer.
    pub fn checked_sub(self, other: Duration) -> (rest: Option<Duration>)
        ensures
            match rest {
                Some(span) => span@ == self@ - other@,
                None => self@ < other@,
            },
    {
        proof {
            use_type_invariant(&self);
            use_type_invariant(&other);
        }
        if self.secs < other.secs {
            None
        } else if self.nanos >= other.nanos {
            Some(Duration { secs: self.secs - other.secs, nanos: self.nanos - other.nanos })
        } else if self.secs == other.secs {
            None
        } else {
            Some(
                Duration {
                    secs: self.secs - other.secs - 1,
                    nanos: self.nanos + NANOS_PER_SEC - other.nanos,
                },
            )
        }
    }

    /// Whether the span is longer than `other`.
    pub fn exceeds(&self, other: &Duration) -> (longer: bool)
        ensures
            longer == (self@ > other@),
    {
        proof {
            use_type_invariant(self);
            use_type_invariant(other);
        }
        self.secs > other.secs || (self.secs == other.secs && self.nanos > other.nanos)
    }
}

} // verus!
