//! Small deterministic generators for timing jitter and noise.
//!
//! Both are linear congruential generators over 32-bit state; every
//! step is specified exactly, so everything built on them stays
//! deterministic for a fixed seed.

use vstd::prelude::*;

verus! {

/// One step of the shared linear congruential generator.
pub open spec fn spec_lcg(s: u32) -> u32 {
    (((s as int) * 1103515245 + 12345) % 0x1_0000_0000) as u32
}

/// The sixteen-bit sample drawn after one step: the high half of the
/// new state, in `[0, 65536)`.
pub open spec fn spec_rand16(s: u32) -> int {
    (spec_lcg(s) as int) / 65536
}

/// Relies on std's system clock (`SystemTime::now`, `duration_since`
/// against the epoch, and `Duration::as_secs`) for a seed when the
/// caller supplies none. Nothing is promised of the result: it depends
/// on the time of the call.
#[verifier::external_body]
fn clock_seed() -> u32 {
    std::time::SystemTime::now().duration_since(std::time::UNIX_EPOCH).unwrap_or_default()
        .as_secs() as u32
}

/// Deterministic generator for humanization jitter.
pub struct SimpleRng {
    state: u32,
}

impl SimpleRng {
    /// The generator state, for specifications.
    pub closed spec fn state_spec(self) -> u32 {
        self.state
    }

    /// Seed the generator; seed zero selects a seed from the clock, so
    /// only a non-zero seed gives a reproducible stream.
    pub fn new(seed: u32) -> (r: SimpleRng)
        ensures
            seed != 0 ==> r.state_spec() == (if seed == u32::MAX {
                0int
            } else {
                seed + 1
            }),
    {
        let actual_seed = if seed == 0 {
            clock_seed()
        } else {
            seed
        };
        let state = if actual_seed == u32::MAX {
            0
        } else {
            actual_seed + 1
        };
        SimpleRng { state }
    }

    /// Advance the generator and return a sample in `[0, 65536)`.
    pub fn next_raw(&mut self) -> (r: u32)
        ensures
            final(self).state_spec() == spec_lcg(old(self).state_spec()),
            r == spec_rand16(old(self).state_spec()),
            r < 65536,
    {
        let ns: u64 = ((self.state as u64) * 1103515245 + 12345) % 0x1_0000_0000;
        self.state = ns as u32;
        self.state / 65536
    }
}

/// Deterministic generator for synthetic background noise; always
/// starts from the same state.
pub struct AudioRng {
    state: u32,
}

impl AudioRng {
    /// The generator state, for specifications.
    pub closed spec fn state_spec(self) -> u32 {
        self.state
    }

    /// The fixed-seed noise generator.
    pub fn new() -> (r: AudioRng)
        ensures
            r.state_spec() == 12345,
    {
        AudioRng { state: 12345 }
    }

    /// Advance the generator and return a sample in `[0, 65536)`.
    pub fn next_raw(&mut self) -> (r: u32)
        ensures
            final(self).state_spec() == spec_lcg(old(self).state_spec()),
            r == spec_rand16(old(self).state_spec()),
            r < 65536,
    {
        let ns: u64 = ((self.state as u64) * 1103515245 + 12345) % 0x1_0000_0000;
        self.state = ns as u32;
        self.state / 65536
    }
}

} // verus!
