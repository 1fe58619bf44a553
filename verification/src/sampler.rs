//! The counter-based per-pixel pseudorandom sampler.
//!
//! Camera-ray generation derives its jittered sample positions from a
//! sequence seeded deterministically from `(global_seed, pixel_index)`: a
//! TEA hash whitens the pair into the initial state of a PCG generator.
//! Every step here is integer arithmetic with an exact contract, so two
//! samplers seeded alike provably produce identical streams — the
//! reproducibility of a frame given its seed. The conversion of a drawn
//! word into a floating-point sample in `[0, 1)` happens outside the
//! verified core.

use vstd::prelude::*;

verus! {

/// The TEA key schedule constant (the golden-ratio increment).
pub const TEA_DELTA: u32 = 0x9E37_79B9;

/// First TEA key word.
pub const TEA_K0: u32 = 0xA341_316C;

/// Second TEA key word.
pub const TEA_K1: u32 = 0xC801_3EA4;

/// Third TEA key word.
pub const TEA_K2: u32 = 0xAD90_777D;

/// Fourth TEA key word.
pub const TEA_K3: u32 = 0x7E95_761E;

/// One TEA round applied to `(v0, v1)` with round sum `sum`.
pub open spec fn spec_tea_round(v0: u32, v1: u32, sum: u32) -> (u32, u32) {
    let a = v0.wrapping_add(
        ((v1 << 4u32).wrapping_add(TEA_K0)) ^ (v1.wrapping_add(sum)) ^ ((v1
            >> 5u32).wrapping_add(TEA_K1)),
    );
    let b = v1.wrapping_add(
        ((a << 4u32).wrapping_add(TEA_K2)) ^ (a.wrapping_add(sum)) ^ ((a
            >> 5u32).wrapping_add(TEA_K3)),
    );
    (a, b)
}

/// `rounds` further TEA rounds from state `(v0, v1)` and sum `sum`.
pub open spec fn spec_tea_iter(v0: u32, v1: u32, sum: u32, rounds: u32) -> (u32, u32)
    decreases rounds,
{
    if rounds == 0 {
        (v0, v1)
    } else {
        let sum2 = sum.wrapping_add(TEA_DELTA);
        let stepped = spec_tea_round(v0, v1, sum2);
        spec_tea_iter(stepped.0, stepped.1, sum2, (rounds - 1) as u32)
    }
}

/// The TEA hash of `(v0, v1)` after `rounds` rounds.
pub open spec fn spec_tea(v0: u32, v1: u32, rounds: u32) -> (u32, u32) {
    spec_tea_iter(v0, v1, 0, rounds)
}

/// Hashes `(v0, v1)` with `rounds` TEA rounds: whitens a (seed, index)
/// pair into generator seed material. Deterministic: the result is a
/// function of the arguments alone.
pub fn sample_tea_32(v0: u32, v1: u32, rounds: u32) -> (r: (u32, u32))
    ensures
        r == spec_tea(v0, v1, rounds),
{
    let mut a = v0;
    let mut b = v1;
    let mut sum: u32 = 0;
    let mut i: u32 = 0;
    while i < rounds
        invariant
            i <= rounds,
            spec_tea_iter(a, b, sum, (rounds - i) as u32) == spec_tea(v0, v1, rounds),
        decreases rounds - i,
    {
        sum = sum.wrapping_add(TEA_DELTA);
        let a2 = a.wrapping_add(
            ((b << 4u32).wrapping_add(TEA_K0)) ^ (b.wrapping_add(sum)) ^ ((b
                >> 5u32).wrapping_add(TEA_K1)),
        );
        let b2 = b.wrapping_add(
            ((a2 << 4u32).wrapping_add(TEA_K2)) ^ (a2.wrapping_add(sum)) ^ ((a2
                >> 5u32).wrapping_add(TEA_K3)),
        );
        a = a2;
        b = b2;
        i = i + 1;
    }
    (a, b)
}

/// The PCG multiplier.
pub const PCG32_MULT: u64 = 0x5851_F42D_4C95_7F2D;

/// A PCG generator: 64-bit state, odd per-stream increment.
#[derive(Clone, Copy, Debug, PartialEq, Eq, Structural)]
pub struct Pcg32 {
    pub state: u64,
    pub inc: u64,
}

/// The state after one generator step.
pub open spec fn spec_pcg32_step(s: Pcg32) -> u64 {
    s.state.wrapping_mul(PCG32_MULT).wrapping_add(s.inc)
}

/// The output word derived from a state by the xorshift-rotate permutation.
pub open spec fn spec_pcg32_output(state: u64) -> u32 {
    let xorshifted = (((state >> 18u64) ^ state) >> 27u64) as u32;
    let rot = (state >> 59u64) as u32;
    (xorshifted >> rot) | (xorshifted << ((32u32.wrapping_sub(rot)) & 31))
}

/// The generator seeded from `(initstate, initseq)`.
pub open spec fn spec_pcg32_new(initstate: u64, initseq: u64) -> Pcg32 {
    let inc = (initseq << 1u64) | 1;
    let s1 = Pcg32 { state: 0, inc };
    let s2 = Pcg32 { state: spec_pcg32_step(s1).wrapping_add(initstate), inc };
    Pcg32 { state: spec_pcg32_step(s2), inc }
}

impl Pcg32 {
    /// Seeds a generator from an initial state and a stream selector.
    pub fn new(initstate: u64, initseq: u64) -> (r: Pcg32)
        ensures
            r == spec_pcg32_new(initstate, initseq),
    {
        let mut pcg = Pcg32 { state: 0, inc: (initseq << 1u64) | 1 };
        pcg.next_u32();
        pcg.state = pcg.state.wrapping_add(initstate);
        pcg.next_u32();
        pcg
    }

    /// Draws the next word: advances the state by one step and permutes
    /// the previous state into the output. Deterministic in the state.
    pub fn next_u32(&mut self) -> (r: u32)
        ensures
            r == spec_pcg32_output(old(self).state),
            final(self).state == spec_pcg32_step(*old(self)),
            final(self).inc == old(self).inc,
    {
        let oldstate = self.state;
        self.state = oldstate.wrapping_mul(PCG32_MULT).wrapping_add(self.inc);
        proof {
            assert(oldstate >> 59u64 < 32) by (bit_vector);
        }
        let xorshifted = #[verifier::truncate] ((((oldstate >> 18u64) ^ oldstate) >> 27u64)
            as u32);
        let rot = (oldstate >> 59u64) as u32;
        proof {
            assert(((32u32.wrapping_sub(rot)) & 31) < 32) by (bit_vector);
        }
        (xorshifted >> rot) | (xorshifted << ((32u32.wrapping_sub(rot)) & 31))
    }
}

/// The per-pixel sampler state after seeding with `(seed, idx)`.
pub open spec fn spec_independent_sampler(seed: u32, idx: u32) -> Pcg32 {
    let whitened = spec_tea(seed, idx, 4);
    spec_pcg32_new(whitened.0 as u64, whitened.1 as u64)
}

/// The per-pixel sampler: a PCG generator seeded deterministically from
/// the frame's global seed and the pixel's flat index through a 4-round
/// TEA hash.
#[derive(Clone, Copy, Debug, PartialEq, Eq, Structural)]
pub struct IndependentSampler {
    pub pcg: Pcg32,
}

impl IndependentSampler {
    /// A sampler for pixel `idx` under global seed `seed`.
    pub fn new(seed: u32, idx: u32) -> (r: IndependentSampler)
        ensures
            r.pcg == spec_independent_sampler(seed, idx),
    {
        let whitened = sample_tea_32(seed, idx, 4);
        IndependentSampler { pcg: Pcg32::new(whitened.0 as u64, whitened.1 as u64) }
    }

    /// Reseeds this sampler for pixel `idx` under global seed `seed`:
    /// afterwards it is indistinguishable from a freshly built one.
    pub fn seed(&mut self, seed: u32, idx: u32)
        ensures
            final(self).pcg == spec_independent_sampler(seed, idx),
    {
        let whitened = sample_tea_32(seed, idx, 4);
        self.pcg = Pcg32::new(whitened.0 as u64, whitened.1 as u64);
    }

    /// Draws the next word of the pixel's sequence. The floating-point
    /// sample in `[0, 1)` is derived from this word outside the core.
    pub fn next_u32(&mut self) -> (r: u32)
        ensures
            r == spec_pcg32_output(old(self).pcg.state),
            final(self).pcg.state == spec_pcg32_step(old(self).pcg),
            final(self).pcg.inc == old(self).pcg.inc,
    {
        self.pcg.next_u32()
    }

    /// Draws one sample as the bit pattern of a value in `[1, 2)`: the top
    /// 23 bits of the next word become the mantissa under a unit exponent.
    /// Subtracting one — a floating-point step outside the core — yields
    /// the uniform sample in `[0, 1)`.
    pub fn next_1d_bits(&mut self) -> (r: u32)
        ensures
            r == unit_mantissa_bits(spec_pcg32_output(old(self).pcg.state)),
            final(self).pcg.state == spec_pcg32_step(old(self).pcg),
            final(self).pcg.inc == old(self).pcg.inc,
    {
        let word = self.pcg.next_u32();
        (word >> 9u32) | 0x3F80_0000
    }

    /// Draws a sample pair (two consecutive `next_1d_bits` draws).
    pub fn next_2d_bits(&mut self) -> (r: (u32, u32))
        ensures
            r.0 == unit_mantissa_bits(spec_pcg32_output(old(self).pcg.state)),
            r.1 == unit_mantissa_bits(
                spec_pcg32_output(spec_pcg32_step(old(self).pcg)),
            ),
            final(self).pcg.state == spec_pcg32_step(
                Pcg32 { state: spec_pcg32_step(old(self).pcg), inc: old(self).pcg.inc },
            ),
            final(self).pcg.inc == old(self).pcg.inc,
    {
        let a = self.next_1d_bits();
        let b = self.next_1d_bits();
        (a, b)
    }
}

/// The bit pattern in `[1, 2)` whose mantissa is the word's top 23 bits.
pub open spec fn unit_mantissa_bits(word: u32) -> u32 {
    (word >> 9u32) | 0x3F80_0000
}

} // verus!
