use neaponoise::noise::Flavor;
use neaponoise::palette::{band_color, for_flavor, rgb, Rgb};

const ALL: [Flavor; 3] = [Flavor::Vanilla, Flavor::Chocolate, Flavor::Strawberry];

/// WCAG relative luminance.
fn luminance(c: Rgb) -> f32 {
    let channel = |v: u8| {
        let v = f32::from(v) / 255.0;
        if v <= 0.039_28 {
            v / 12.92
        } else {
            ((v + 0.055) / 1.055).powf(2.4)
        }
    };
    0.2126 * channel(c.r) + 0.7152 * channel(c.g) + 0.0722 * channel(c.b)
}

fn contrast(a: Rgb, b: Rgb) -> f32 {
    let (x, y) = (luminance(a), luminance(b));
    let (hi, lo) = if x > y { (x, y) } else { (y, x) };
    (hi + 0.05) / (lo + 0.05)
}

#[test]
fn body_text_is_legible_on_every_flavor() {
    for flavor in ALL {
        let p = for_flavor(flavor);
        let ratio = contrast(p.text, p.bg);
        assert!(
            ratio >= 4.5,
            "{} body text contrast is {ratio:.2}, want >= 4.5",
            flavor.label()
        );
    }
}

#[test]
fn button_and_badge_text_are_legible_on_every_flavor() {
    for flavor in ALL {
        let p = for_flavor(flavor);
        for (name, fg, bg) in [
            ("button", p.btn_text, p.btn_bg),
            ("lit button", p.lit_text, p.lit_bg),
            ("badge", p.badge_text, p.badge_bg),
        ] {
            let ratio = contrast(fg, bg);
            assert!(
                ratio >= 4.5,
                "{} {name} text contrast is {ratio:.2}, want >= 4.5",
                flavor.label()
            );
        }
    }
}

#[test]
fn rgb_splits_channels() {
    assert_eq!(rgb(0x1a1008), Rgb { r: 0x1a, g: 0x10, b: 0x08 });
    assert_eq!(rgb(0xff8a6a), Rgb { r: 0xff, g: 0x8a, b: 0x6a });
    assert_eq!(rgb(0xAB_123456), Rgb { r: 0x12, g: 0x34, b: 0x56 });
}

#[test]
fn rgb_packs_back() {
    for hex in [0u32, 0x1a1008, 0xd4a96a, 0xffffff, 0x7a4a26] {
        let c = rgb(hex);
        assert_eq!(u32::from(c.r) * 0x1_0000 + u32::from(c.g) * 0x100 + u32::from(c.b), hex);
    }
}

#[test]
fn schemes_differ_per_flavor() {
    assert_eq!(for_flavor(Flavor::Chocolate).bg, rgb(0x1a1008));
    assert_eq!(for_flavor(Flavor::Vanilla).bg, rgb(0xf5ecd7));
    assert_eq!(for_flavor(Flavor::Strawberry).bg, rgb(0xf2d6da));
    assert_eq!(for_flavor(Flavor::Strawberry).lit_text, rgb(0x3a0f18));
    assert_eq!(for_flavor(Flavor::Chocolate).error, rgb(0xff8a6a));
}

#[test]
fn band_colors_are_fixed() {
    assert_eq!(band_color(Flavor::Chocolate), rgb(0x7a4a26));
    assert_eq!(band_color(Flavor::Vanilla), rgb(0xf7ecc9));
    assert_eq!(band_color(Flavor::Strawberry), rgb(0xf2a5b2));
}
