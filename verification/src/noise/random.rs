//! Random timeouts.

use rand::rngs::StdRng;
use rand::{Rng, SeedableRng};
use vstd::prelude::*;

use crate::time::{Duration, NANOS_PER_SEC};

verus! {

/// A source of random spans of time.
pub trait Jitter: Sized {
    /// Whether a draw from the spans between `start` and `end` can give `d` and leave the source
    /// as `next`. A source that says nothing of it may give any span of the range.
    open spec fn gave(self, next: Self, start: nat, end: nat, d: nat) -> bool {
        start <= d <= end
    }

    /// A span between `start` and `end`, both included.
    fn span_between(&mut self, start: Duration, end: Duration) -> (d: Duration)
        requires
            start@ <= end@,
        ensures
            start@ <= d@ <= end@,
            old(self).gave(*final(self), start@, end@, d@),
    ;
}

/// The standard generator of the crate `rand`.
#[verifier::external_type_specification]
#[verifier::external_body]
pub struct ExStdRng(StdRng);

/// `StdRng::from_os_rng`: a generator seeded by the operating system. Nothing is stated of what
/// it will give; without a source of randomness in the system the call panics.
#[verifier::external_body]
pub(crate) fn std_rng_from_os() -> (rng: StdRng) {
    StdRng::from_os_rng()
}

/// `Rng::random_range`, on an inclusive range of `std::time::Duration`: some span of the range.
/// Spans go in and come out as whole seconds and the nanoseconds beyond them. Which span of the
/// range comes is left to chance; an empty range panics.
#[verifier::external_body]
fn std_rng_range(rng: &mut StdRng, start: (u64, u32), end: (u64, u32)) -> (d: (u64, u32))
    requires
        start.1 < NANOS_PER_SEC,
        end.1 < NANOS_PER_SEC,
        start.0 * NANOS_PER_SEC + start.1 <= end.0 * NANOS_PER_SEC + end.1,
    ensures
        d.1 < NANOS_PER_SEC,
        start.0 * NANOS_PER_SEC + start.1 <= d.0 * NANOS_PER_SEC + d.1,
        d.0 * NANOS_PER_SEC + d.1 <= end.0 * NANOS_PER_SEC + end.1,
{
    let start = std::time::Duration::new(start.0, start.1);
    let end = std::time::Duration::new(end.0, end.1);
    let d = rng.random_range(start..=end);
    (d.as_secs(), d.subsec_nanos())
}

impl Jitter for StdRng {
    fn span_between(&mut self, start: Duration, end: Duration) -> (d: Duration) {
        let (secs, nanos) = std_rng_range(
            self,
            (start.as_secs(), start.subsec_nanos()),
            (end.as_secs(), end.subsec_nanos()),
        );
        Duration::new(secs, nanos)
    }
}

} // verus!
