//! Pseudo-random scalar stream.
//!
//! The generator is a 64-bit xorshift: given its seed the whole stream is
//! a mathematical function of the state, so every sampling routine built
//! on it carries an exact contract, and a render with a fixed seed is
//! reproducible bit for bit. Fresh entropy, when wanted, comes from the
//! `rand` crate through one trusted wrapper that seeds the stream.

use vstd::prelude::*;

use crate::fixed::Fixed;
use crate::fixed::SCALE;

verus! {

/// Deterministic pseudo-random stream over a 64-bit xorshift state.
pub struct Rng {
    pub state: u64,
}

/// One xorshift step of the generator state.
pub open spec fn next_state(s: u64) -> u64 {
    let a = s ^ (s << 13);
    let b = a ^ (a >> 7);
    b ^ (b << 17)
}

/// The scalar in `[0, SCALE)` drawn from one generator word.
pub open spec fn unit_of(x: u64) -> int {
    (x >> 48) as int
}

/// The scalar in `[-SCALE, SCALE)` drawn from one generator word.
pub open spec fn sym_of(x: u64) -> int {
    2 * unit_of(x) - SCALE as int
}

/// Relies on rand::random: one draw from the thread-local generator.
/// Nothing is promised of the value.
#[verifier::external_body]
fn random_seed() -> u64 {
    rand::random::<u64>()
}

impl Rng {
    /// A stream fixed entirely by `seed`: same seed, same draws.
    pub fn from_seed(seed: u64) -> (r: Rng)
        ensures
            r.state == seed,
    {
        Rng { state: seed }
    }

    /// A stream seeded from the process's entropy source.
    pub fn from_entropy() -> (r: Rng) {
        Rng { state: random_seed() }
    }

    /// The next raw generator word.
    pub fn next_u64(&mut self) -> (r: u64)
        ensures
            final(self).state == next_state(old(self).state),
            r == next_state(old(self).state),
    {
        let s = self.state;
        let a = s ^ (s << 13u64);
        let b = a ^ (a >> 7u64);
        let c = b ^ (b << 17u64);
        self.state = c;
        c
    }

    /// The next scalar in `[0, 1)`.
    pub fn next_unit(&mut self) -> (r: Fixed)
        ensures
            final(self).state == next_state(old(self).state),
            r as int == unit_of(next_state(old(self).state)),
            0 <= r < SCALE,
    {
        let x = self.next_u64();
        let t = x >> 48u64;
        proof {
            assert(x >> 48u64 < 65536) by (bit_vector);
        }
        t as i64
    }

    /// The next scalar in `[-1, 1)`.
    pub fn next_sym(&mut self) -> (r: Fixed)
        ensures
            final(self).state == next_state(old(self).state),
            r as int == sym_of(next_state(old(self).state)),
            -SCALE <= r < SCALE,
    {
        let u = self.next_unit();
        2 * u - SCALE
    }
}

} // verus!
