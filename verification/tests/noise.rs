use neaponoise::noise::{Flavor, Xorshift32, FALLBACK_SEED};

const ALL: [Flavor; 3] = [Flavor::Vanilla, Flavor::Chocolate, Flavor::Strawberry];

#[test]
fn flavor_u8_roundtrips() {
    for flavor in ALL {
        assert_eq!(Flavor::from_u8(flavor.to_u8()), flavor);
    }
}

#[test]
fn flavor_codes_are_fixed() {
    assert_eq!(Flavor::Vanilla.to_u8(), 0);
    assert_eq!(Flavor::Chocolate.to_u8(), 1);
    assert_eq!(Flavor::Strawberry.to_u8(), 2);
}

#[test]
fn unknown_codes_decode_to_chocolate() {
    assert_eq!(Flavor::from_u8(0), Flavor::Vanilla);
    assert_eq!(Flavor::from_u8(1), Flavor::Chocolate);
    assert_eq!(Flavor::from_u8(2), Flavor::Strawberry);
    assert_eq!(Flavor::from_u8(3), Flavor::Chocolate);
    assert_eq!(Flavor::from_u8(255), Flavor::Chocolate);
}

#[test]
fn default_flavor_is_chocolate() {
    assert_eq!(Flavor::default(), Flavor::Chocolate);
}

#[test]
fn flavor_names() {
    assert_eq!(Flavor::Vanilla.label(), "vanilla");
    assert_eq!(Flavor::Chocolate.label(), "chocolate");
    assert_eq!(Flavor::Strawberry.label(), "strawberry");
    assert_eq!(Flavor::Vanilla.noise_name(), "white noise");
    assert_eq!(Flavor::Chocolate.noise_name(), "brown noise");
    assert_eq!(Flavor::Strawberry.noise_name(), "pink noise");
}

#[test]
fn xorshift_steps_match_reference_values() {
    let mut rng = Xorshift32::new(1);
    assert_eq!(rng.next_u32(), 270369);
    assert_eq!(rng.next_u32(), 67634689);
}

#[test]
fn zero_seed_is_replaced() {
    let mut zero = Xorshift32::new(0);
    let mut fallback = Xorshift32::new(FALLBACK_SEED);
    assert_eq!(FALLBACK_SEED, 0x9E37_79B9);
    let first = zero.next_u32();
    assert_eq!(first, 1359758873);
    assert_eq!(first, fallback.next_u32());
    for _ in 0..1_000 {
        assert_ne!(zero.next_u32(), 0);
    }
}

#[test]
fn different_seeds_never_fall_into_step() {
    let mut left = Xorshift32::new(0x1234_5678);
    let mut right = Xorshift32::new(0x9ABC_DEF1);
    for _ in 0..10_000 {
        assert_ne!(left.next_u32(), right.next_u32());
    }
}

/// The white source as the audio front end scales it: uniform, unit variance.
fn white(rng: &mut Xorshift32) -> f32 {
    const SQRT_3: f32 = 1.732_050_8;
    const SCALE: f32 = 2.0 * SQRT_3 / 4_294_967_296.0;
    (rng.next_u32() as f32) * SCALE - SQRT_3
}

#[test]
fn white_noise_has_unit_variance() {
    let mut n = Xorshift32::new(1);
    let count = 200_000;
    let mut sum = 0.0f64;
    let mut sum_sq = 0.0f64;
    for _ in 0..count {
        let s = f64::from(white(&mut n));
        sum += s;
        sum_sq += s * s;
    }
    let mean = sum / f64::from(count);
    let variance = sum_sq / f64::from(count) - mean * mean;
    assert!(mean.abs() < 0.02, "white noise is not centered: {mean}");
    assert!(
        (variance - 1.0).abs() < 0.02,
        "white noise variance is {variance}, expected 1.0"
    );
}
