//! One color scheme per flavor. Vanilla and strawberry are light schemes with
//! dark text, so the whole palette swaps rather than just an accent.

use vstd::prelude::*;

use crate::noise::Flavor;

verus! {

/// An opaque 24-bit color, one byte per channel.
#[derive(Clone, Copy, PartialEq, Eq, Debug, Structural)]
pub struct Rgb {
    pub r: u8,
    pub g: u8,
    pub b: u8,
}

/// The color written as `0xRRGGBB`; bits above the low 24 are ignored.
pub open spec fn rgb_of(hex: u32) -> Rgb {
    Rgb {
        r: ((hex / 0x1_0000) % 0x100) as u8,
        g: ((hex / 0x100) % 0x100) as u8,
        b: (hex % 0x100) as u8,
    }
}

/// Splits `0xRRGGBB` into its three channels.
pub fn rgb(hex: u32) -> (color: Rgb)
    ensures
        color == rgb_of(hex),
{
    let r: u32 = (hex >> 16u32) & 0xFF;
    let g: u32 = (hex >> 8u32) & 0xFF;
    let b: u32 = hex & 0xFF;
    assert(r == (hex / 0x1_0000) % 0x100 && r < 0x100) by (bit_vector)
        requires
            r == (hex >> 16u32) & 0xFF;
    assert(g == (hex / 0x100) % 0x100 && g < 0x100) by (bit_vector)
        requires
            g == (hex >> 8u32) & 0xFF;
    assert(b == hex % 0x100 && b < 0x100) by (bit_vector)
        requires
            b == hex & 0xFF;
    Rgb { r: r as u8, g: g as u8, b: b as u8 }
}

/// The channels of a 24-bit color put back together give the color's number.
pub proof fn lemma_rgb_packs_back(hex: u32)
    requires
        hex < 0x100_0000,
    ensures
        rgb_of(hex).r * 0x1_0000 + rgb_of(hex).g * 0x100 + rgb_of(hex).b == hex,
{
    assert(((hex / 0x1_0000) % 0x100) * 0x1_0000 + ((hex / 0x100) % 0x100) * 0x100 + hex % 0x100
        == hex) by (bit_vector)
        requires
            hex < 0x100_0000,
    ;
}

/// A full color scheme.
#[derive(Clone, Copy, PartialEq, Eq, Debug, Structural)]
pub struct Palette {
    pub bg: Rgb,
    pub text: Rgb,
    pub btn_bg: Rgb,
    pub btn_border: Rgb,
    pub btn_text: Rgb,
    pub btn_hover: Rgb,
    pub btn_pressed: Rgb,
    pub lit_bg: Rgb,
    pub lit_border: Rgb,
    pub lit_text: Rgb,
    pub trough: Rgb,
    pub accent: Rgb,
    pub badge_bg: Rgb,
    pub badge_border: Rgb,
    pub badge_text: Rgb,
    pub error: Rgb,
}

/// The scheme of each flavor. Chocolate is the original brown scheme.
pub open spec fn scheme(flavor: Flavor) -> Palette {
    match flavor {
        Flavor::Chocolate => Palette {
            bg: rgb_of(0x1a1008),
            text: rgb_of(0xd4a96a),
            btn_bg: rgb_of(0x372012),
            btn_border: rgb_of(0x6b3a1f),
            btn_text: rgb_of(0xc6985d),
            btn_hover: rgb_of(0x7d4525),
            btn_pressed: rgb_of(0x5a2f18),
            lit_bg: rgb_of(0x8a4d27),
            lit_border: rgb_of(0xa0622a),
            lit_text: rgb_of(0xffe1ba),
            trough: rgb_of(0x26170c),
            accent: rgb_of(0xa0622a),
            badge_bg: rgb_of(0x120b05),
            badge_border: rgb_of(0x7b4d2a),
            badge_text: rgb_of(0xf0d0a0),
            error: rgb_of(0xff8a6a),
        },
        Flavor::Vanilla => Palette {
            bg: rgb_of(0xf5ecd7),
            text: rgb_of(0x4a3b22),
            btn_bg: rgb_of(0xe8dcc0),
            btn_border: rgb_of(0xc9b995),
            btn_text: rgb_of(0x4a3b22),
            btn_hover: rgb_of(0xdccfae),
            btn_pressed: rgb_of(0xcdbf9c),
            lit_bg: rgb_of(0xc9a961),
            lit_border: rgb_of(0x8f7433),
            lit_text: rgb_of(0x2e2410),
            trough: rgb_of(0xe3d7ba),
            accent: rgb_of(0xb08f45),
            badge_bg: rgb_of(0xfffaf0),
            badge_border: rgb_of(0xc9b995),
            badge_text: rgb_of(0x3a2e18),
            error: rgb_of(0x9c2f1e),
        },
        // Lit text is dark, not white: white on mid-pink only reaches 2.9:1.
        Flavor::Strawberry => Palette {
            bg: rgb_of(0xf2d6da),
            text: rgb_of(0x6b2f3a),
            btn_bg: rgb_of(0xe8bfc6),
            btn_border: rgb_of(0xcf98a2),
            btn_text: rgb_of(0x6b2f3a),
            btn_hover: rgb_of(0xdfb0b8),
            btn_pressed: rgb_of(0xcfa0a8),
            lit_bg: rgb_of(0xd4737f),
            lit_border: rgb_of(0xa04b58),
            lit_text: rgb_of(0x3a0f18),
            trough: rgb_of(0xe6c6cc),
            accent: rgb_of(0xb85d69),
            badge_bg: rgb_of(0xfdf0f2),
            badge_border: rgb_of(0xcf98a2),
            badge_text: rgb_of(0x5a2530),
            error: rgb_of(0x8f2233),
        },
    }
}

/// Perceived brightness of a color: Rec. 709 luma over the gamma-encoded
/// channels, scaled so that white is 2_550_000.
pub open spec fn luma(c: Rgb) -> int {
    2126 * c.r + 7152 * c.g + 722 * c.b
}

/// The brightness gap every scheme keeps between a text color and the surface
/// it is drawn on (about 39% of the range from black to white).
pub open spec fn legible_gap() -> int {
    1_000_000
}

/// `fg` reads on `bg`: light on dark for the dark scheme, dark on light for
/// the light ones, with at least the legibility gap between them.
pub open spec fn reads_on(fg: Rgb, bg: Rgb, dark_scheme: bool) -> bool {
    if dark_scheme {
        luma(fg) >= luma(bg) + legible_gap()
    } else {
        luma(fg) + legible_gap() <= luma(bg)
    }
}

/// Every scheme's body text, button text, lit-button text, badge text and
/// error text is legible on the surface it is drawn on. Chocolate is the dark
/// scheme with light text; vanilla and strawberry are light schemes with dark
/// text.
pub proof fn lemma_schemes_legible(flavor: Flavor)
    ensures
        ({
            let p = scheme(flavor);
            let dark = flavor == Flavor::Chocolate;
            &&& reads_on(p.text, p.bg, dark)
            &&& reads_on(p.btn_text, p.btn_bg, dark)
            &&& reads_on(p.lit_text, p.lit_bg, dark)
            &&& reads_on(p.badge_text, p.badge_bg, dark)
            &&& reads_on(p.error, p.bg, dark)
        }),
{
}

/// The schemes' colors, channel by channel.
pub proof fn lemma_scheme_colors(flavor: Flavor)
    ensures
        flavor == Flavor::Chocolate ==> scheme(flavor) == (Palette {
            bg: Rgb { r: 0x1a, g: 0x10, b: 0x08 },
            text: Rgb { r: 0xd4, g: 0xa9, b: 0x6a },
            btn_bg: Rgb { r: 0x37, g: 0x20, b: 0x12 },
            btn_border: Rgb { r: 0x6b, g: 0x3a, b: 0x1f },
            btn_text: Rgb { r: 0xc6, g: 0x98, b: 0x5d },
            btn_hover: Rgb { r: 0x7d, g: 0x45, b: 0x25 },
            btn_pressed: Rgb { r: 0x5a, g: 0x2f, b: 0x18 },
            lit_bg: Rgb { r: 0x8a, g: 0x4d, b: 0x27 },
            lit_border: Rgb { r: 0xa0, g: 0x62, b: 0x2a },
            lit_text: Rgb { r: 0xff, g: 0xe1, b: 0xba },
            trough: Rgb { r: 0x26, g: 0x17, b: 0x0c },
            accent: Rgb { r: 0xa0, g: 0x62, b: 0x2a },
            badge_bg: Rgb { r: 0x12, g: 0x0b, b: 0x05 },
            badge_border: Rgb { r: 0x7b, g: 0x4d, b: 0x2a },
            badge_text: Rgb { r: 0xf0, g: 0xd0, b: 0xa0 },
            error: Rgb { r: 0xff, g: 0x8a, b: 0x6a },
        }),
        flavor == Flavor::Vanilla ==> scheme(flavor) == (Palette {
            bg: Rgb { r: 0xf5, g: 0xec, b: 0xd7 },
            text: Rgb { r: 0x4a, g: 0x3b, b: 0x22 },
            btn_bg: Rgb { r: 0xe8, g: 0xdc, b: 0xc0 },
            btn_border: Rgb { r: 0xc9, g: 0xb9, b: 0x95 },
            btn_text: Rgb { r: 0x4a, g: 0x3b, b: 0x22 },
            btn_hover: Rgb { r: 0xdc, g: 0xcf, b: 0xae },
            btn_pressed: Rgb { r: 0xcd, g: 0xbf, b: 0x9c },
            lit_bg: Rgb { r: 0xc9, g: 0xa9, b: 0x61 },
            lit_border: Rgb { r: 0x8f, g: 0x74, b: 0x33 },
            lit_text: Rgb { r: 0x2e, g: 0x24, b: 0x10 },
            trough: Rgb { r: 0xe3, g: 0xd7, b: 0xba },
            accent: Rgb { r: 0xb0, g: 0x8f, b: 0x45 },
            badge_bg: Rgb { r: 0xff, g: 0xfa, b: 0xf0 },
            badge_border: Rgb { r: 0xc9, g: 0xb9, b: 0x95 },
            badge_text: Rgb { r: 0x3a, g: 0x2e, b: 0x18 },
            error: Rgb { r: 0x9c, g: 0x2f, b: 0x1e },
        }),
        flavor == Flavor::Strawberry ==> scheme(flavor) == (Palette {
            bg: Rgb { r: 0xf2, g: 0xd6, b: 0xda },
            text: Rgb { r: 0x6b, g: 0x2f, b: 0x3a },
            btn_bg: Rgb { r: 0xe8, g: 0xbf, b: 0xc6 },
            btn_border: Rgb { r: 0xcf, g: 0x98, b: 0xa2 },
            btn_text: Rgb { r: 0x6b, g: 0x2f, b: 0x3a },
            btn_hover: Rgb { r: 0xdf, g: 0xb0, b: 0xb8 },
            btn_pressed: Rgb { r: 0xcf, g: 0xa0, b: 0xa8 },
            lit_bg: Rgb { r: 0xd4, g: 0x73, b: 0x7f },
            lit_border: Rgb { r: 0xa0, g: 0x4b, b: 0x58 },
            lit_text: Rgb { r: 0x3a, g: 0x0f, b: 0x18 },
            trough: Rgb { r: 0xe6, g: 0xc6, b: 0xcc },
            accent: Rgb { r: 0xb8, g: 0x5d, b: 0x69 },
            badge_bg: Rgb { r: 0xfd, g: 0xf0, b: 0xf2 },
            badge_border: Rgb { r: 0xcf, g: 0x98, b: 0xa2 },
            badge_text: Rgb { r: 0x5a, g: 0x25, b: 0x30 },
            error: Rgb { r: 0x8f, g: 0x22, b: 0x33 },
        }),
        band(flavor) == (match flavor {
            Flavor::Chocolate => Rgb { r: 0x7a, g: 0x4a, b: 0x26 },
            Flavor::Vanilla => Rgb { r: 0xf7, g: 0xec, b: 0xc9 },
            Flavor::Strawberry => Rgb { r: 0xf2, g: 0xa5, b: 0xb2 },
        }),
{
}

/// The color scheme for `flavor`.
pub fn for_flavor(flavor: Flavor) -> (palette: Palette)
    ensures
        palette == scheme(flavor),
{
    match flavor {
        Flavor::Vanilla => Palette {
            bg: rgb(0xf5ecd7),
            text: rgb(0x4a3b22),
            btn_bg: rgb(0xe8dcc0),
            btn_border: rgb(0xc9b995),
            btn_text: rgb(0x4a3b22),
            btn_hover: rgb(0xdccfae),
            btn_pressed: rgb(0xcdbf9c),
            lit_bg: rgb(0xc9a961),
            lit_border: rgb(0x8f7433),
            lit_text: rgb(0x2e2410),
            trough: rgb(0xe3d7ba),
            accent: rgb(0xb08f45),
            badge_bg: rgb(0xfffaf0),
            badge_border: rgb(0xc9b995),
            badge_text: rgb(0x3a2e18),
            error: rgb(0x9c2f1e),
        },
        Flavor::Chocolate => Palette {
            bg: rgb(0x1a1008),
            text: rgb(0xd4a96a),
            btn_bg: rgb(0x372012),
            btn_border: rgb(0x6b3a1f),
            btn_text: rgb(0xc6985d),
            btn_hover: rgb(0x7d4525),
            btn_pressed: rgb(0x5a2f18),
            lit_bg: rgb(0x8a4d27),
            lit_border: rgb(0xa0622a),
            lit_text: rgb(0xffe1ba),
            trough: rgb(0x26170c),
            accent: rgb(0xa0622a),
            badge_bg: rgb(0x120b05),
            badge_border: rgb(0x7b4d2a),
            badge_text: rgb(0xf0d0a0),
            error: rgb(0xff8a6a),
        },
        Flavor::Strawberry => Palette {
            bg: rgb(0xf2d6da),
            text: rgb(0x6b2f3a),
            btn_bg: rgb(0xe8bfc6),
            btn_border: rgb(0xcf98a2),
            btn_text: rgb(0x6b2f3a),
            btn_hover: rgb(0xdfb0b8),
            btn_pressed: rgb(0xcfa0a8),
            lit_bg: rgb(0xd4737f),
            lit_border: rgb(0xa04b58),
            lit_text: rgb(0x3a0f18),
            trough: rgb(0xe6c6cc),
            accent: rgb(0xb85d69),
            badge_bg: rgb(0xfdf0f2),
            badge_border: rgb(0xcf98a2),
            badge_text: rgb(0x5a2530),
            error: rgb(0x8f2233),
        },
    }
}

/// The color of each flavor's band in the picker.
pub open spec fn band(flavor: Flavor) -> Rgb {
    match flavor {
        Flavor::Chocolate => rgb_of(0x7a4a26),
        Flavor::Vanilla => rgb_of(0xf7ecc9),
        Flavor::Strawberry => rgb_of(0xf2a5b2),
    }
}

/// The color of a flavor's band in the picker: three fixed colors, never
/// tinted or dimmed by the active scheme.
pub fn band_color(flavor: Flavor) -> (color: Rgb)
    ensures
        color == band(flavor),
{
    match flavor {
        Flavor::Chocolate => rgb(0x7a4a26),
        Flavor::Vanilla => rgb(0xf7ecc9),
        Flavor::Strawberry => rgb(0xf2a5b2),
    }
}

} // verus!
