//! Lengths of time with nanosecond resolution.

use vstd::prelude::*;

verus! {

/// Nanoseconds in one second.
pub const NANOS_PER_SEC: u32 = 1_000_000_000;

/// Nanoseconds in one millisecond.
pub const NANOS_PER_MILLI: u32 = 1_000_000;

/// Milliseconds in one second.
pub const MILLIS_PER_SEC: u64 = 1_000;

/// A length of time: whole seconds and a fraction of a second in nanoseconds.
///
/// The fraction is always below one second, so every length of time has
/// exactly one representation and `==` compares lengths.
#[derive(Clone, Copy, Debug, PartialEq, Eq, Structural)]
pub struct Span {
    secs: u64,
    nanos: u32,
}

impl View for Span {
    type V = nat;

    /// The length in nanoseconds.
    closed spec fn view(&self) -> nat {
        (self.secs * NANOS_PER_SEC + self.nanos) as nat
    }
}

impl Span {
    /// The fraction is a proper one.
    #[verifier::type_invariant]
    pub closed spec fn wf(self) -> bool {
        self.nanos < NANOS_PER_SEC
    }

    /// Two well-formed spans of the same length are the same span.
    pub proof fn law_same_length_same_span(a: Span, b: Span)
        requires
            a.wf(),
            b.wf(),
            a@ == b@,
        ensures
            a == b,
    {
        assert(a.secs == b.secs) by (nonlinear_arith)
            requires
                a.secs * NANOS_PER_SEC + a.nanos == b.secs * NANOS_PER_SEC + b.nanos,
                a.nanos < NANOS_PER_SEC,
                b.nanos < NANOS_PER_SEC,
        ;
    }

    /// No time at all.
    pub fn zero() -> (r: Span)
        ensures
            r@ == 0,
            r.wf(),
    {
        Span { secs: 0, nanos: 0 }
    }

    /// A span from whole seconds and nanoseconds. Nanoseconds of a second or
    /// more carry into the seconds; `None` where the seconds then overflow.
    pub fn new(secs: u64, nanos: u32) -> (r: Option<Span>)
        ensures
            r is Some <==> secs + nanos / NANOS_PER_SEC <= u64::MAX,
            r matches Some(s) ==> s.wf() && s@ == secs * NANOS_PER_SEC + nanos,
    {
        let carry: u64 = (nanos / NANOS_PER_SEC) as u64;
        let rest: u32 = nanos % NANOS_PER_SEC;
        match secs.checked_add(carry) {
            Some(total) => {
                assert(total * NANOS_PER_SEC + rest == secs * NANOS_PER_SEC + nanos)
                    by (nonlinear_arith)
                    requires
                        total == secs + nanos / NANOS_PER_SEC,
                        rest == nanos % NANOS_PER_SEC,
                ;
                Some(Span { secs: total, nanos: rest })
            },
            None => None,
        }
    }

    /// The span of a number of milliseconds.
    pub fn from_millis(millis: u64) -> (r: Span)
        ensures
            r@ == millis * NANOS_PER_MILLI,
            r.wf(),
    {
        let secs: u64 = millis / MILLIS_PER_SEC;
        let rest: u32 = (millis % MILLIS_PER_SEC) as u32;
        let nanos: u32 = rest * NANOS_PER_MILLI;
        assert(secs * NANOS_PER_SEC + nanos == millis * NANOS_PER_MILLI) by (nonlinear_arith)
            requires
                secs == millis / MILLIS_PER_SEC,
                nanos == (millis % MILLIS_PER_SEC) * NANOS_PER_MILLI,
        ;
        Span { secs, nanos }
    }

    /// The whole seconds of the span.
    pub fn as_secs(&self) -> (r: u64)
        ensures
            r == self@ / NANOS_PER_SEC as nat,
    {
        proof {
            use_type_invariant(self);
            assert((self.secs * NANOS_PER_SEC + self.nanos) / NANOS_PER_SEC as int == self.secs)
                by (nonlinear_arith)
                requires
                    self.nanos < NANOS_PER_SEC,
            ;
        }
        self.secs
    }

    /// What the span holds beyond its whole seconds, in nanoseconds.
    pub fn subsec_nanos(&self) -> (r: u32)
        ensures
            r == self@ % NANOS_PER_SEC as nat,
            r < NANOS_PER_SEC,
    {
        proof {
            use_type_invariant(self);
            assert((self.secs * NANOS_PER_SEC + self.nanos) % NANOS_PER_SEC as int == self.nanos)
                by (nonlinear_arith)
                requires
                    self.nanos < NANOS_PER_SEC,
            ;
        }
        self.nanos
    }

    /// Whether this span is strictly shorter than `other`.
    pub fn shorter_than(&self, other: &Span) -> (r: bool)
        ensures
            r == (self@ < other@),
    {
        proof {
            use_type_invariant(self);
            use_type_invariant(other);
        }
        self.secs < other.secs || (self.secs == other.secs && self.nanos < other.nanos)
    }

    /// What is left of this span once `other` has passed, and nothing where
    /// `other` is the longer one.
    pub fn saturating_sub(&self, other: &Span) -> (r: Span)
        ensures
            r.wf(),
            r@ == if self@ >= other@ {
                self@ - other@
            } else {
                0
            },
    {
        proof {
            use_type_invariant(self);
            use_type_invariant(other);
        }
        if self.shorter_than(other) {
            Span { secs: 0, nanos: 0 }
        } else if self.nanos >= other.nanos {
            Span { secs: self.secs - other.secs, nanos: self.nanos - other.nanos }
        } else {
            Span {
                secs: self.secs - other.secs - 1,
                nanos: self.nanos + NANOS_PER_SEC - other.nanos,
            }
        }
    }
}

} // verus!
