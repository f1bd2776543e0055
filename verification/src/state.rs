//! The top-level fuzzing state: the seed every run's determinism hangs on.

use vstd::prelude::*;

verus! {

/// Relies on libafl_bolts::current_nanos: nanoseconds since the epoch,
/// used only to pick a seed when the caller supplies none. The value
/// depends on the clock, so nothing is promised of it.
#[verifier::external_body]
fn current_nanos() -> u64 {
    libafl_bolts::current_nanos()
}

/// Top-level state of one fuzzing run: the seed that makes every
/// selection reproducible.
#[derive(Clone, Copy, Debug, PartialEq, Eq, Structural)]
pub struct FuzzState {
    /// The run's seed; never zero once constructed.
    pub seed: u64,
}

impl FuzzState {
    /// Create a new [`FuzzState`]. A non-zero argument becomes the seed
    /// outright, so replays can force a known one; a zero argument draws
    /// the seed from the clock.
    pub fn new(lparam_seed: u64) -> (r: Self)
        ensures
            lparam_seed != 0 ==> r.seed == lparam_seed,
    {
        let seed: u64 = if lparam_seed == 0 {
            current_nanos()
        } else {
            lparam_seed
        };
        FuzzState { seed }
    }
}

} // verus!
