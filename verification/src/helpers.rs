//! Small helpers shared by the synthesizer: the xoroshiro128 pseudo random
//! number generator that drives the noise oscillator.
use vstd::prelude::*;

verus! {

/// Rotates a 64 bit word left by `n` bits (`0 < n < 64`).
pub open spec fn rotl64(x: u64, n: u64) -> u64 {
    (x << n) | (x >> ((64 - n) as u64))
}

/// The successor of a xoroshiro128 state `(s0, s1)`.
pub open spec fn xoroshiro_next_state(s0: u64, s1: u64) -> (u64, u64) {
    let x = s1 ^ s0;
    (rotl64(s0, 55) ^ x ^ (x << 14u64), rotl64(x, 36))
}

/// The output that a xoroshiro128 step produces from the state `(s0, s1)`:
/// the wrapping sum of both words.
pub open spec fn xoroshiro_output(s0: u64, s1: u64) -> u64 {
    ((s0 + s1) % 0x1_0000_0000_0000_0000int) as u64
}

fn rotate_left64(x: u64, n: u64) -> (r: u64)
    requires
        0 < n < 64,
    ensures
        r == rotl64(x, n),
{
    (x << n) | (x >> (64 - n))
}

/// Advances the xoroshiro128 `state` by one step and returns the output of
/// the step.
pub fn next_xoroshiro128(state: &mut [u64; 2]) -> (result: u64)
    ensures
        result == xoroshiro_output(old(state)[0], old(state)[1]),
        final(state)[0] == xoroshiro_next_state(old(state)[0], old(state)[1]).0,
        final(state)[1] == xoroshiro_next_state(old(state)[0], old(state)[1]).1,
{
    let s0: u64 = state[0];
    let mut s1: u64 = state[1];
    let result: u64 = s0.wrapping_add(s1);

    s1 = s1 ^ s0;
    state[0] = rotate_left64(s0, 55) ^ s1 ^ (s1 << 14u64);
    state[1] = rotate_left64(s1, 36);

    result
}

/// A xoroshiro128 step maps a state that is not all zero to a state that is
/// not all zero: the generator never falls into the all-zero fixed point.
pub proof fn lemma_xoroshiro_nonzero_stays_nonzero(s0: u64, s1: u64)
    requires
        s0 != 0 || s1 != 0,
    ensures
        xoroshiro_next_state(s0, s1).0 != 0 || xoroshiro_next_state(s0, s1).1 != 0,
{
    assert(xoroshiro_next_state(s0, s1).1 == 0u64 ==> (s1 ^ s0) == 0u64) by (bit_vector);
    assert((s1 ^ s0) == 0u64 ==> (xoroshiro_next_state(s0, s1).0 == 0u64 ==> s0 == 0u64))
        by (bit_vector);
    assert((s1 ^ s0) == 0u64 && s0 == 0u64 ==> s1 == 0u64) by (bit_vector);
}

/// The all-zero state is a fixed point of the generator, and it outputs zero.
pub proof fn lemma_xoroshiro_zero_fixed_point()
    ensures
        xoroshiro_next_state(0, 0) == (0u64, 0u64),
        xoroshiro_output(0, 0) == 0,
{
    assert(xoroshiro_next_state(0, 0).0 == 0u64) by (bit_vector);
    assert(xoroshiro_next_state(0, 0).1 == 0u64) by (bit_vector);
}

/// A pseudo random number generator for the noise oscillator.
#[derive(Debug, Copy, Clone, PartialEq)]
pub struct RandGen {
    r: [u64; 2],
}

impl RandGen {
    /// The current generator state `(s0, s1)`.
    pub closed spec fn state(self) -> (u64, u64) {
        (self.r[0], self.r[1])
    }

    /// The state of a generator is never all zero.
    #[verifier::type_invariant]
    closed spec fn state_nonzero(self) -> bool {
        self.r[0] != 0 || self.r[1] != 0
    }

    /// The fixed seed that every generator starts from.
    pub open spec fn seed() -> (u64, u64) {
        (0x193a6754a8a7d469u64, 0x97830e05113ba7bbu64)
    }

    /// Creates a generator in the fixed start state.
    pub fn new() -> (g: Self)
        ensures
            g.state() == Self::seed(),
            g.state().0 != 0 || g.state().1 != 0,
    {
        RandGen { r: [0x193a6754a8a7d469, 0x97830e05113ba7bb] }
    }

    /// Returns the next pseudo random 64 bit number. The state stays
    /// nonzero.
    pub fn next(&mut self) -> (r: u64)
        ensures
            r == xoroshiro_output(old(self).state().0, old(self).state().1),
            final(self).state() == xoroshiro_next_state(old(self).state().0, old(self).state().1),
            final(self).state().0 != 0 || final(self).state().1 != 0,
    {
        proof {
            use_type_invariant(&*self);
        }
        let mut st = self.r;
        let out = next_xoroshiro128(&mut st);
        proof {
            lemma_xoroshiro_nonzero_stays_nonzero(self.r[0], self.r[1]);
        }
        self.r = st;
        out
    }
}

/// Two generators in the same state give the same number and are in the
/// same state again afterwards: the generator is determined by its state.
pub proof fn lemma_randgen_steps_alike(a: RandGen, b: RandGen)
    requires
        a.state() == b.state(),
    ensures
        xoroshiro_output(a.state().0, a.state().1) == xoroshiro_output(b.state().0, b.state().1),
        xoroshiro_next_state(a.state().0, a.state().1) == xoroshiro_next_state(
            b.state().0,
            b.state().1,
        ),
{
}

} // verus!
