//! Numbers and draws against the processor and the generator.

use rand::{Rng, SeedableRng};
use rand_chacha::ChaCha20Rng;
use synth_roof::assets::pi;
use synth_roof::deterministic::derive_seed;
use synth_roof::draws::Draws;
use synth_roof::readback::half_to_single;
use synth_roof::sample_camera::radians;
use synth_roof::sample_site::{degrees, tau};
use synth_roof::single::Single;
use synth_roof::types::FloatRange;

fn s(value: f32) -> Single {
    Single::from_bits(value.to_bits())
}

fn f(value: Single) -> f32 {
    f32::from_bits(value.to_bits())
}

/// Bits of every kind: zeros, subnormal, ordinary, huge and infinite numbers, and NaNs.
fn patterns() -> Vec<u32> {
    let mut bits = vec![
        0,
        1,
        0x007f_ffff,
        0x0080_0000,
        0x3f00_0000,
        0x3f7f_ffff,
        0x3f80_0000,
        0x3f80_0001,
        0x4b00_0000,
        0x4b80_0001,
        0x7f7f_ffff,
        0x7f80_0000,
        0x7fc0_0000,
    ];
    let mut state = 0x9e37_79b9_7f4a_7c15_u64;
    for _ in 0..160 {
        state = state.wrapping_mul(6_364_136_223_846_793_005).wrapping_add(1_442_695_040_888_963_407);
        bits.push((state >> 33) as u32 & 0x7fff_ffff);
        // Numbers of similar size cancel and round.
        bits.push(0x4000_0000 | ((state >> 20) as u32 & 0x01ff_ffff));
    }
    let negative: Vec<u32> = bits.iter().map(|bits| bits | 0x8000_0000).collect();
    bits.extend(negative);
    bits
}

fn same(ours: Single, native: f32) -> bool {
    if native.is_nan() { ours.is_nan() } else { ours.to_bits() == native.to_bits() }
}

#[test]
fn arithmetic_is_that_of_the_processor() {
    let bits = patterns();
    for &left in &bits {
        for &right in &bits {
            let (a, b) = (Single::from_bits(left), Single::from_bits(right));
            let (x, y) = (f32::from_bits(left), f32::from_bits(right));
            assert!(same(a.plus(b), x + y), "{x:e} + {y:e}");
            assert!(same(a.minus(b), x - y), "{x:e} - {y:e}");
            assert!(same(a.times(b), x * y), "{x:e} * {y:e}");
            assert!(same(a.over(b), x / y), "{x:e} / {y:e}");
        }
    }
}

#[test]
fn order_is_that_of_the_processor() {
    let bits = patterns();
    for &left in &bits {
        for &right in &bits {
            let (a, b) = (Single::from_bits(left), Single::from_bits(right));
            let (x, y) = (f32::from_bits(left), f32::from_bits(right));
            assert_eq!(a.less(b), x < y);
            assert_eq!(a.at_most(b), x <= y);
            assert_eq!(a.equals(b), x == y);
            if x != y || left == right {
                assert!(same(a.max(b), x.max(y)), "max {x:e} {y:e}");
                assert!(same(a.min(b), x.min(y)), "min {x:e} {y:e}");
            }
            assert_eq!(a.precedes(b), x.total_cmp(&y).is_lt(), "{x:e} {y:e}");
        }
    }
}

#[test]
fn remainders_are_those_of_the_processor() {
    let bits = patterns();
    for &left in bits.iter().step_by(3) {
        for &right in bits.iter().step_by(5) {
            let (a, b) = (Single::from_bits(left), Single::from_bits(right));
            let (x, y) = (f32::from_bits(left), f32::from_bits(right));
            assert!(same(a.remainder(b), x % y), "{x:e} % {y:e}");
            assert!(same(a.rem_euclid(b), x.rem_euclid(y)), "{x:e} rem_euclid {y:e}");
        }
    }
}

#[test]
fn one_sided_operations_are_those_of_the_processor() {
    for bits in patterns() {
        let (a, x) = (Single::from_bits(bits), f32::from_bits(bits));
        assert!(same(a.root(), x.sqrt()), "root {x:e}");
        assert!(same(a.round(), x.round()), "round {x:e}");
        assert_eq!(a.abs().to_bits(), x.abs().to_bits());
        assert_eq!(a.negated().to_bits(), (-x).to_bits());
        assert_eq!(a.to_u32(), x as u32, "{x:e} as u32");
        assert_eq!(a.to_u8(), x as u8, "{x:e} as u8");
        assert_eq!(a.is_nan(), x.is_nan());
        assert_eq!(a.is_finite(), x.is_finite());
        assert_eq!(a.is_negative(), x.is_sign_negative());
        assert!(same(a.clamp(s(-2.5), s(1.5)), x.clamp(-2.5, 1.5)), "clamp {x:e}");
    }
}

#[test]
fn whole_numbers_convert_exactly_or_to_the_nearest() {
    for value in [0, 1, 7, 0x00ff_ffff, 0x0100_0001, 0x0100_0003, u32::MAX - 127, u32::MAX] {
        assert_eq!(f(Single::from_u32(value)), value as f32);
    }
}

#[test]
fn decimals_mean_their_literals() {
    assert_eq!(f(Single::ratio(1, 10)), 0.1);
    assert_eq!(f(Single::ratio(-45, 100)), -0.45);
    assert_eq!(f(Single::ratio(1055, 1000)), 1.055);
    assert_eq!(f(Single::ratio(31308, 10_000_000)), 0.003_130_8);
    assert_eq!(f(Single::ratio(0, 7)), 0.0);
    assert_eq!(f(Single::one()), 1.0);
    assert_eq!(f(Single::infinity()), f32::INFINITY);
    assert_eq!(f(pi()), std::f32::consts::PI);
    assert_eq!(f(tau()), std::f32::consts::TAU);
    for angle in [0.0_f32, 1.0, 17.5, 90.0, -123.25, 360.0] {
        assert_eq!(f(radians(s(angle))), angle.to_radians());
        assert_eq!(f(degrees(s(angle))), angle.to_degrees());
    }
}

#[test]
fn halves_widen_exactly() {
    for bits in 0..=u16::MAX {
        let native = half::f16::from_bits(bits).to_f32();
        assert!(same(half_to_single(bits), native), "{bits:04x}");
    }
}

#[test]
fn draws_follow_the_generator() {
    for (root, domain) in [(0_u64, "camera"), (42, "roof"), (u64::MAX, "occluder-placement")] {
        let mut rng = ChaCha20Rng::seed_from_u64(derive_seed(root, domain));
        let mut draws = Draws::of(root, domain);
        for round in 0..200_u32 {
            let unit: f32 = rng.random();
            assert_eq!(f(draws.unit()), unit);
            draws = draws.skip(1);

            let coin: bool = rng.random();
            assert_eq!(draws.coin(), coin);
            draws = draws.skip(1);

            let total = 3 + u64::from(round) * 97;
            let (below, next) = draws.below(total);
            assert_eq!(below, rng.random_range(0..total));
            draws = next;

            let (between, next) = draws.between(round, round * 3 + 1);
            assert_eq!(between, rng.random_range(round..=round * 3 + 1));
            draws = next;

            let range = FloatRange::new(s(-3.5), s(12.25));
            assert_eq!(f(draws.ranged(range)), -3.5 + (12.25 - -3.5) * rng.random::<f32>());
            draws = draws.skip(1);
        }
    }
}

#[test]
fn full_ranges_and_single_values_are_drawn() {
    let draws = Draws::of(7, "range");
    let (only, next) = draws.between(5, 5);
    assert_eq!(only, 5);
    let mut rng = ChaCha20Rng::seed_from_u64(derive_seed(7, "range"));
    assert_eq!(rng.random_range(5..=5_u32), 5);
    assert_eq!(next.word(), rng.random::<u32>());
    let (any, _) = draws.between(0, u32::MAX);
    let mut rng = ChaCha20Rng::seed_from_u64(derive_seed(7, "range"));
    assert_eq!(any, rng.random_range(0..=u32::MAX));
    let (zero, _) = draws.below(1);
    assert_eq!(zero, 0);
}
