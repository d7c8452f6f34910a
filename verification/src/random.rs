//! The random contest primitive: an abstract source of uniformly bounded
//! draws, substitutable with deterministic sources for reproducible runs.

use vstd::prelude::*;

verus! {

/// A source of random draws. Nothing is promised of a draw beyond its
/// bounds, so every client of this trait must be correct for every value
/// the bounds admit.
pub trait RandomSource {
    /// Draw one value from the inclusive range `low ..= high`.
    fn next_in(&mut self, low: u64, high: u64) -> (r: u64)
        requires
            low <= high,
        ensures
            low <= r <= high,
    ;
}

/// A deterministic linear congruential source: the default engine source,
/// reproducible from its seed.
pub struct Lcg {
    pub state: u64,
}

impl Lcg {
    pub fn new(seed: u64) -> (r: Lcg)
        ensures
            r.state == seed,
    {
        Lcg { state: seed }
    }
}

impl RandomSource for Lcg {
    fn next_in(&mut self, low: u64, high: u64) -> (r: u64)
    {
        self.state = self.state.wrapping_mul(6364136223846793005).wrapping_add(1442695040888963407);
        if high - low == u64::MAX {
            self.state
        } else {
            let span: u64 = high - low + 1;
            let offset: u64 = self.state % span;
            assert(offset < span);
            low + offset
        }
    }
}

/// A source that always answers with the upper bound of the range: the
/// deterministic extreme used to drive the engine along its strongest path.
pub struct MaxSource {}

impl RandomSource for MaxSource {
    fn next_in(&mut self, low: u64, high: u64) -> (r: u64)
    {
        high
    }
}

/// A source that always answers with the lower bound of the range.
pub struct MinSource {}

impl RandomSource for MinSource {
    fn next_in(&mut self, low: u64, high: u64) -> (r: u64)
    {
        low
    }
}

} // verus!
