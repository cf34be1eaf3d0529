//! A tiny, seedable, deterministic RNG for the audio thread.
//!
//! SplitMix64: trivially correct, no dependencies, deterministic across runs
//! for a fixed seed (needed for reproducible experimental patches).

use vstd::prelude::*;

verus! {

/// The additive constant of SplitMix64 (the odd 64-bit golden-ratio word).
pub const SPLITMIX_GAMMA: u64 = 0x9E37_79B9_7F4A_7C15;

/// The output mixing function of SplitMix64 applied to a state word.
pub open spec fn splitmix_mix(s: u64) -> u64 {
    let z1 = vstd::wrapping::u64_specs::wrapping_mul(s ^ (s >> 30u64), 0xBF58_476D_1CE4_E5B9u64);
    let z2 = vstd::wrapping::u64_specs::wrapping_mul(z1 ^ (z1 >> 27u64), 0x94D0_49BB_1331_11EBu64);
    z2 ^ (z2 >> 31u64)
}

/// The state word after one step of the generator.
pub open spec fn splitmix_advance(s: u64) -> u64 {
    vstd::wrapping::u64_specs::wrapping_add(s, SPLITMIX_GAMMA)
}

/// The value that one step of the generator returns from state `s`.
pub open spec fn splitmix_output(s: u64) -> u64 {
    splitmix_mix(splitmix_advance(s))
}

/// The value `range_usize(min, max)` returns from state `s`.
pub open spec fn range_usize_spec(s: u64, min: usize, max: usize) -> int {
    let lo = if min <= max { min } else { max };
    let hi = if min <= max { max } else { min };
    lo + (splitmix_output(s) as int) % (hi - lo + 1)
}

/// A bounded draw lies between its two bounds, whichever order they come
/// in, is the same for swapped bounds, and equals the bound when both are
/// equal.
pub proof fn lemma_range_draw_within_bounds(s: u64, a: usize, b: usize)
    ensures
        a <= b ==> a <= range_usize_spec(s, a, b) <= b,
        b <= a ==> b <= range_usize_spec(s, a, b) <= a,
        range_usize_spec(s, a, b) == range_usize_spec(s, b, a),
        range_usize_spec(s, a, a) == a,
{
}

/// The state of a generator seeded with `seed` after `n` draws.
pub open spec fn state_after(seed: u64, n: nat) -> u64
    decreases n,
{
    if n == 0 { seed } else { splitmix_advance(state_after(seed, (n - 1) as nat)) }
}

/// The `n`-th value (0-based) drawn from a generator seeded with `seed`.
pub open spec fn nth_output(seed: u64, n: nat) -> u64 {
    splitmix_output(state_after(seed, n))
}

/// Reproducibility: a generator's stream is fixed by its seed. Two
/// generators whose states agree draw the same value and stay in step, so
/// the `n`-th draws of two generators seeded alike are equal.
pub proof fn lemma_same_seed_same_stream(seed: u64, a: u64, b: u64, n: nat)
    requires
        a == state_after(seed, n),
        b == state_after(seed, n),
    ensures
        splitmix_output(a) == nth_output(seed, n),
        splitmix_output(b) == nth_output(seed, n),
        splitmix_advance(a) == state_after(seed, n + 1),
        splitmix_advance(b) == splitmix_advance(a),
{
}

/// SplitMix64 pseudo random generator.
#[derive(Clone, Copy, Debug)]
pub struct SplitMix64(u64);

impl View for SplitMix64 {
    type V = u64;

    /// The generator's whole state is one 64-bit word.
    closed spec fn view(&self) -> u64 {
        self.0
    }
}

impl SplitMix64 {
    /// Creates a new generator from a seed.
    pub fn new(seed: u64) -> (r: Self)
        ensures
            r@ == seed,
    {
        SplitMix64(seed)
    }

    /// Returns the next 64-bit value.
    pub fn next_u64(&mut self) -> (r: u64)
        ensures
            final(self)@ == splitmix_advance(old(self)@),
            r == splitmix_output(old(self)@),
    {
        self.0 = self.0.wrapping_add(SPLITMIX_GAMMA);
        let mut z = self.0;
        z = (z ^ (z >> 30u64)).wrapping_mul(0xBF58_476D_1CE4_E5B9u64);
        z = (z ^ (z >> 27u64)).wrapping_mul(0x94D0_49BB_1331_11EBu64);
        z ^ (z >> 31u64)
    }

    /// Uniform in `[min, max]` (inclusive), with the bounds swapped when
    /// `min > max`. Every pair of bounds is accepted, the full range
    /// `[0, usize::MAX]` included.
    pub fn range_usize(&mut self, min: usize, max: usize) -> (r: usize)
        ensures
            final(self)@ == splitmix_advance(old(self)@),
            r == range_usize_spec(old(self)@, min, max),
            (if min <= max { min } else { max }) <= r <= (if min <= max { max } else { min }),
    {
        let lo = if min <= max { min } else { max };
        let hi = if min <= max { max } else { min };
        // the width of the closed range may be usize::MAX + 1: count in u128
        let width: u128 = (hi - lo) as u128 + 1;
        let x = self.next_u64();
        let off: u128 = (x as u128) % width;
        lo + off as usize
    }
}

} // verus!
