//! Spans of time, exact to the nanosecond.

use vstd::prelude::*;

verus! {

/// Nanoseconds in one second.
pub const NANOS_PER_SEC: u128 = 1_000_000_000;

/// Nanoseconds in one millisecond.
pub const NANOS_PER_MILLI: u128 = 1_000_000;

/// The longest span: `u64::MAX` whole seconds and 999 999 999 nanoseconds.
pub const MAX_NANOS: u128 = 18_446_744_073_709_551_615_999_999_999;

/// A span of time. Its view is its length in nanoseconds.
#[derive(Clone, Copy, Debug, PartialEq, Eq, PartialOrd, Ord, Structural)]
pub struct Duration {
    nanos: u128,
}

impl View for Duration {
    type V = nat;

    closed spec fn view(&self) -> nat {
        self.nanos as nat
    }
}

impl Duration {
    #[verifier::type_invariant]
    spec fn in_range(self) -> bool {
        self.nanos <= MAX_NANOS
    }

    /// The empty span.
    pub fn zero() -> (d: Duration)
        ensures
            d@ == 0,
    {
        Duration { nanos: 0 }
    }

    /// A span of `secs` seconds and `nanos` nanoseconds; `nanos` may exceed a second.
    pub fn new(secs: u64, nanos: u32) -> (d: Duration)
        requires
            secs * NANOS_PER_SEC + nanos <= MAX_NANOS,
        ensures
            d@ == secs * NANOS_PER_SEC + nanos,
    {
        Duration { nanos: secs as u128 * NANOS_PER_SEC + nanos as u128 }
    }

    /// A span of whole seconds.
    pub fn from_secs(secs: u64) -> (d: Duration)
        ensures
            d@ == secs * NANOS_PER_SEC,
    {
        Duration { nanos: secs as u128 * NANOS_PER_SEC }
    }

    /// A span of whole milliseconds.
    pub fn from_millis(millis: u64) -> (d: Duration)
        ensures
            d@ == millis * NANOS_PER_MILLI,
    {
        Duration { nanos: millis as u128 * NANOS_PER_MILLI }
    }

    /// The whole seconds of the span.
    pub fn as_secs(&self) -> (s: u64)
        ensures
            s == self@ / NANOS_PER_SEC as nat,
    {
        proof {
            use_type_invariant(self);
        }
        (self.nanos / NANOS_PER_SEC) as u64
    }

    /// What is left of the span after its whole seconds, in nanoseconds.
    pub fn subsec_nanos(&self) -> (n: u32)
        ensures
            n == self@ % NANOS_PER_SEC as nat,
    {
        (self.nanos % NANOS_PER_SEC) as u32
    }

    /// Whether the span is no shorter than `other`.
    pub fn at_least(&self, other: &Duration) -> (b: bool)
        ensures
            b == (self@ >= other@),
    {
        self.nanos >= other.nanos
    }

    /// Whether the span is longer than `other`.
    pub fn exceeds(&self, other: &Duration) -> (b: bool)
        ensures
            b == (self@ > other@),
    {
        self.nanos > other.nanos
    }

    /// The longer of two spans.
    pub fn max_with(self, other: Duration) -> (d: Duration)
        ensures
            d == (if self@ >= other@ { self } else { other }),
    {
        if self.nanos >= other.nanos {
            self
        } else {
            other
        }
    }

    /// The span by which `self` exceeds `other`.
    pub fn minus(self, other: Duration) -> (d: Duration)
        requires
            other@ <= self@,
        ensures
            d@ == self@ - other@,
    {
        proof {
            use_type_invariant(&self);
        }
        Duration { nanos: self.nanos - other.nanos }
    }

    /// The span by which `self` exceeds `other`, empty where it does not.
    pub fn saturating_sub(self, other: Duration) -> (d: Duration)
        ensures
            d@ == (if self@ >= other@ { (self@ - other@) as nat } else { 0 }),
    {
        proof {
            use_type_invariant(&self);
        }
        if self.nanos >= other.nanos {
            Duration { nanos: self.nanos - other.nanos }
        } else {
            Duration { nanos: 0 }
        }
    }
}

/// Spans are counted in nanoseconds: what goes in as seconds, milliseconds or both comes out again.
pub proof fn law_spans_read_back(
    secs: u64,
    nanos: u32,
    millis: u64,
    whole: Duration,
    short: Duration,
    both: Duration,
    read_secs: u64,
    read_nanos: u32,
)
    requires
        nanos < 1_000_000_000,
        call_ensures(Duration::from_secs, (secs,), whole),
        call_ensures(Duration::from_millis, (millis,), short),
        call_ensures(Duration::new, (secs, nanos), both),
        call_ensures(Duration::as_secs, (&both,), read_secs),
        call_ensures(Duration::subsec_nanos, (&both,), read_nanos),
    ensures
        whole@ == secs * 1_000_000_000,
        short@ == millis * 1_000_000,
        both@ == whole@ + nanos,
        read_secs == secs,
        read_nanos == nanos,
{
}

/// Of two spans the longer is the longer, and the difference makes the shorter as long.
pub proof fn law_spans_compare(
    a: Duration,
    b: Duration,
    at_least: bool,
    exceeds: bool,
    longer: Duration,
    difference: Duration,
)
    requires
        call_ensures(Duration::at_least, (&a, &b), at_least),
        call_ensures(Duration::exceeds, (&a, &b), exceeds),
        call_ensures(Duration::max_with, (a, b), longer),
        call_ensures(Duration::saturating_sub, (a, b), difference),
    ensures
        at_least <==> !(a@ < b@),
        exceeds <==> b@ < a@,
        longer@ >= a@ && longer@ >= b@ && (longer == a || longer == b),
        exceeds ==> b@ + difference@ == a@,
        !exceeds ==> difference@ == 0,
{
}

} // verus!
