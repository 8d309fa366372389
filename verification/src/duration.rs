//! Spans of time with nanosecond resolution.

use vstd::prelude::*;

verus! {

/// Nanoseconds in one second.
pub const NANOS_PER_SEC: u32 = 1_000_000_000;

/// Nanoseconds in one millisecond.
pub const NANOS_PER_MILLI: u32 = 1_000_000;

/// A span of time: whole seconds and the nanoseconds of a started second.
///
/// Its view is the total number of nanoseconds.
#[derive(Clone, Copy, Debug, PartialEq, Eq, Structural)]
pub struct Duration {
    secs: u64,
    nanos: u32,
}

impl View for Duration {
    type V = nat;

    closed spec fn view(&self) -> nat {
        (self.secs * NANOS_PER_SEC + self.nanos) as nat
    }
}

impl Duration {
    #[verifier::type_invariant]
    spec fn well_formed(self) -> bool {
        self.nanos < NANOS_PER_SEC
    }

    /// The empty span.
    pub fn zero() -> (d: Duration)
        ensures
            d@ == 0,
    {
        Duration { secs: 0, nanos: 0 }
    }

    /// A span of `secs` seconds and `nanos` nanoseconds.
    pub fn from_parts(secs: u64, nanos: u32) -> (d: Duration)
        requires
            nanos < NANOS_PER_SEC,
        ensures
            d@ == secs * NANOS_PER_SEC + nanos,
    {
        Duration { secs, nanos }
    }

    /// A span of whole seconds.
    pub fn from_secs(secs: u64) -> (d: Duration)
        ensures
            d@ == secs * NANOS_PER_SEC,
    {
        Duration { secs, nanos: 0 }
    }

    /// A span of whole milliseconds.
    pub fn from_millis(millis: u64) -> (d: Duration)
        ensures
            d@ == millis * NANOS_PER_MILLI,
    {
        Duration { secs: millis / 1_000, nanos: (millis % 1_000) as u32 * NANOS_PER_MILLI }
    }

    /// The whole seconds of the span.
    pub fn secs(&self) -> (n: u64)
        ensures
            n == self@ / NANOS_PER_SEC as nat,
    {
        proof {
            use_type_invariant(self);
        }
        self.secs
    }

    /// The nanoseconds that the span holds beyond its whole seconds.
    pub fn subsec_nanos(&self) -> (n: u32)
        ensures
            n == self@ % NANOS_PER_SEC as nat,
    {
        proof {
            use_type_invariant(self);
        }
        self.nanos
    }

    /// The whole milliseconds of the span.
    pub fn as_millis(&self) -> (n: u128)
        ensures
            n == self@ / NANOS_PER_MILLI as nat,
    {
        proof {
            use_type_invariant(self);
        }
        self.secs as u128 * 1_000 + (self.nanos / NANOS_PER_MILLI) as u128
    }

    /// The span in nanoseconds.
    pub fn as_nanos(&self) -> (n: u128)
        ensures
            n == self@,
    {
        proof {
            use_type_invariant(self);
        }
        self.secs as u128 * 1_000_000_000 + self.nanos as u128
    }

    /// `self - other`, or the empty span where `other` is longer.
    pub fn saturating_sub(self, other: Duration) -> (d: Duration)
        ensures
            d@ == if other@ <= self@ {
                (self@ - other@) as nat
            } else {
                0
            },
    {
        proof {
            use_type_invariant(&self);
            use_type_invariant(&other);
        }
        if self.secs < other.secs || (self.secs == other.secs && self.nanos < other.nanos) {
            Duration { secs: 0, nanos: 0 }
        } else if self.nanos >= other.nanos {
            Duration { secs: self.secs - other.secs, nanos: self.nanos - other.nanos }
        } else {
            Duration {
                secs: self.secs - other.secs - 1,
                nanos: self.nanos + (NANOS_PER_SEC - other.nanos),
            }
        }
    }

    /// The shorter of two spans.
    pub fn min(self, other: Duration) -> (d: Duration)
        ensures
            d@ == if self@ <= other@ {
                self@
            } else {
                other@
            },
            d == self || d == other,
    {
        if self.as_nanos() <= other.as_nanos() {
            self
        } else {
            other
        }
    }
}

/// A span is made of seconds, milliseconds and nanoseconds, a thousand million, a million and one of
/// which make the same.
pub proof fn law_spans_are_made_of_nanoseconds(
    n: u64,
    nanos: u32,
    none: Duration,
    seconds: Duration,
    millis: Duration,
    parts: Duration,
)
    requires
        call_ensures(Duration::zero, (), none),
        call_ensures(Duration::from_secs, (n,), seconds),
        call_ensures(Duration::from_millis, (n,), millis),
        nanos < 1_000_000_000,
        call_ensures(Duration::from_parts, (n, nanos), parts),
    ensures
        none@ == 0,
        seconds@ == n * 1_000_000_000,
        millis@ == n * 1_000_000,
        parts@ == n * 1_000_000_000 + nanos,
{
}

/// A span is read as the seconds and nanoseconds, the whole milliseconds and the nanoseconds that it
/// has.
pub proof fn law_spans_are_read_back(
    d: Duration,
    secs: u64,
    subsec: u32,
    millis: u128,
    nanos: u128,
)
    requires
        call_ensures(Duration::secs, (&d,), secs),
        call_ensures(Duration::subsec_nanos, (&d,), subsec),
        call_ensures(Duration::as_millis, (&d,), millis),
        call_ensures(Duration::as_nanos, (&d,), nanos),
    ensures
        nanos == d@,
        secs * 1_000_000_000 + subsec == d@,
        subsec < 1_000_000_000,
        millis * 1_000_000 <= d@ < (millis + 1) * 1_000_000,
{
}

/// The difference of two spans makes up the longer one, and is empty where the second is longer. The
/// shorter of two spans is one of them, and no longer than the other.
pub proof fn law_spans_are_subtracted_and_compared(
    a: Duration,
    b: Duration,
    difference: Duration,
    shorter: Duration,
)
    requires
        call_ensures(Duration::saturating_sub, (a, b), difference),
        call_ensures(Duration::min, (a, b), shorter),
    ensures
        b@ <= a@ ==> difference@ + b@ == a@,
        b@ > a@ ==> difference@ == 0,
        shorter@ <= a@ && shorter@ <= b@,
        shorter@ == a@ || shorter@ == b@,
{
}

} // verus!
