//! A small deterministic pseudo-random number generator.
//!
//! A linear congruential generator over 64-bit state. The step is a pure
//! function of the state, so a stream is determined by its seed; the map
//! generation pipeline draws raw cell values from it, and nothing
//! downstream may depend on particular values beyond that determinism.

use vstd::prelude::*;

verus! {

/// The generator's one step: the linear congruential update of the state.
pub open spec fn spec_next_state(s: u64) -> u64 {
    vstd::wrapping::u64_specs::wrapping_add(
        vstd::wrapping::u64_specs::wrapping_mul(s, 6364136223846793005),
        1442695040888963407,
    )
}

/// The 32 bits one step of the generator yields: the upper half of the
/// stepped state, which mixes faster than the lower bits.
pub open spec fn spec_draw(s: u64) -> u32 {
    (spec_next_state(s) >> 32) as u32
}

#[derive(Clone, Copy, Debug, PartialEq, Eq, Structural)]
pub struct Random {
    state: u64,
}

impl Random {
    /// The current state of the stream.
    pub closed spec fn spec_state(&self) -> u64 {
        self.state
    }

    pub fn new(seed: u64) -> (r: Random)
        ensures
            r.spec_state() == seed,
    {
        Random { state: seed }
    }

    /// Step the state and return the draw it yields.
    pub fn next_u32(&mut self) -> (r: u32)
        ensures
            final(self).spec_state() == spec_next_state(old(self).spec_state()),
            r == spec_draw(old(self).spec_state()),
    {
        self.state = self.state.wrapping_mul(6364136223846793005).wrapping_add(
            1442695040888963407);
        (self.state >> 32) as u32
    }

    /// A draw from `lo..hi`, advancing the state by one step.
    pub fn range_u32(&mut self, lo: u32, hi: u32) -> (r: u32)
        requires
            lo < hi,
        ensures
            final(self).spec_state() == spec_next_state(old(self).spec_state()),
            r == lo + spec_draw(old(self).spec_state()) % ((hi - lo) as u32),
            lo <= r < hi,
    {
        let span = hi - lo;
        let raw = self.next_u32();
        lo + raw % span
    }
}

} // verus!
