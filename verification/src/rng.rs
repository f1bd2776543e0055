//! A small deterministic pseudo-random source. Selection must be exactly
//! reproducible from a seed for replay mode, so the generator's step is a
//! pure function of its state and every caller's contract pins the result.

use vstd::prelude::*;

verus! {

/// Multiplier of the linear congruential step.
pub const RNG_MUL: u64 = 6364136223846793005;

/// Increment of the linear congruential step.
pub const RNG_INC: u64 = 1442695040888963407;

/// Number of values of a 64-bit machine word.
pub open spec fn pow64() -> nat {
    0x10000000000000000nat
}

/// The generator's step: one linear congruential round modulo 2^64.
pub open spec fn rng_step(s: u64) -> u64 {
    ((s * RNG_MUL + RNG_INC) % (pow64() as int)) as u64
}

/// Deterministic pseudo-random state; the same seed always yields the same
/// stream of values.
#[derive(Clone, Copy, Debug, PartialEq, Eq, Structural)]
pub struct FuzzRng {
    /// Current state word; the next output is `rng_step` of it.
    pub state: u64,
}

impl FuzzRng {
    /// Start a stream from `seed`.
    pub fn new(seed: u64) -> (r: FuzzRng)
        ensures
            r.state == seed,
    {
        FuzzRng { state: seed }
    }

    /// Advance the stream one step and return the new word.
    pub fn next_u64(&mut self) -> (r: u64)
        ensures
            r == rng_step(old(self).state),
            final(self).state == rng_step(old(self).state),
    {
        let s0: u64 = self.state;
        proof {
            assert((s0 as u128) * (RNG_MUL as u128) + (RNG_INC as u128)
                < 0xffffffffffffffffffffffffffffffffu128) by (nonlinear_arith)
                requires
                    s0 <= 0xffffffffffffffffu64,
                    RNG_MUL <= 0xffffffffffffffffu64,
                    RNG_INC <= 0xffffffffffffffffu64,
            ;
        }
        let prod: u128 = (s0 as u128) * (RNG_MUL as u128);
        let sum: u128 = prod + (RNG_INC as u128);
        let next: u64 = (sum % 0x10000000000000000u128) as u64;
        self.state = next;
        next
    }
}

} // verus!
