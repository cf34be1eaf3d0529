//! RNG determinism and ranges.

use particula::SplitMix64;

/// Uniform in `[0, 1)` with 24 bits of mantissa precision, drawn the way
/// the audio engine draws its floats from the generator.
fn next_f32(r: &mut SplitMix64) -> f32 {
    ((r.next_u64() >> 40) as f32) * (1.0 / (1u64 << 24) as f32)
}

/// Uniform in `[-1, 1)`.
fn sym(r: &mut SplitMix64) -> f32 {
    -1.0 + 2.0 * next_f32(r)
}

#[test]
fn rng_is_deterministic_and_in_range() {
    let mut a = SplitMix64::new(42);
    let mut b = SplitMix64::new(42);
    for _ in 0..64 {
        assert_eq!(a.next_u64(), b.next_u64());
    }

    let mut r = SplitMix64::new(7);
    for _ in 0..100_000 {
        let x = next_f32(&mut r);
        assert!((0.0..1.0).contains(&x), "next_f32 out of range: {x}");
        let s = sym(&mut r);
        assert!((-1.0..1.0).contains(&s), "sym out of range: {s}");
        let u = r.range_usize(10, 20);
        assert!((10..=20).contains(&u), "range_usize out of range: {u}");
    }
}
