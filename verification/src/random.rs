//! The seedable random source that generation draws from.
//!
//! The generator is `fastrand`'s. Its whole state is one `u64`, so the source
//! keeps that number and every draw is a function of it: equal seeds give equal
//! streams.

use vstd::prelude::*;

verus! {

/// What one draw of `fastrand::Rng::u32` from `low..high` yields on a generator
/// whose state is `state`: the number drawn, and the state the generator is left
/// in.
pub uninterp spec fn rng_step(state: u64, low: u32, high: u32) -> (u32, u64);

/// The number that a draw from `low..high` yields in state `state`.
pub open spec fn drawn_value(state: u64, low: u32, high: u32) -> u32 {
    rng_step(state, low, high).0
}

/// The state that a draw from `low..high` leaves behind.
pub open spec fn drawn_state(state: u64, low: u32, high: u32) -> u64 {
    rng_step(state, low, high).1
}

/// Calls `fastrand::Rng::u32` on a generator rebuilt from `state`
/// (`Rng::with_seed`) and reads the state back afterwards (`Rng::get_seed`).
///
/// Trusted: the pair that comes back depends on `state` and the range alone, and
/// the number drawn lies in `low..high`. `fastrand` panics on an empty range,
/// which the precondition rules out.
#[verifier::external_body]
fn step_u32(state: u64, low: u32, high: u32) -> (out: (u32, u64))
    requires
        low < high,
    ensures
        out == rng_step(state, low, high),
        low <= out.0 < high,
{
    let mut rng = fastrand::Rng::with_seed(state);
    let value = rng.u32(low..high);
    (value, rng.get_seed())
}

/// A deterministic stream of random numbers, fixed by its seed.
#[derive(Clone, Copy, Debug, PartialEq, Eq)]
pub struct RandomSource {
    state: u64,
}

impl View for RandomSource {
    type V = u64;

    /// The generator state from which the next draw is made.
    closed spec fn view(&self) -> u64 {
        self.state
    }
}

impl RandomSource {
    /// A source that starts in state `seed`.
    pub fn new(seed: u64) -> (source: RandomSource)
        ensures
            source@ == seed,
    {
        RandomSource { state: seed }
    }

    /// The current state; a source made from it continues this stream.
    pub fn state(&self) -> (state: u64)
        ensures
            state == self@,
    {
        self.state
    }

    /// Draws a number from the half-open range `low..high` and advances the
    /// stream.
    pub fn next_in(&mut self, low: u32, high: u32) -> (value: u32)
        requires
            low < high,
        ensures
            value == drawn_value(old(self)@, low, high),
            final(self)@ == drawn_state(old(self)@, low, high),
            low <= value < high,
    {
        let out: (u32, u64) = step_u32(self.state, low, high);
        self.state = out.1;
        out.0
    }
}

} // verus!
