//! Scaled-integer luminance model.
//!
//! A luminance sample is an integer in units of `1 / LUMA_SCALE`:
//! `luma = (299*r + 587*g + 114*b) * a` over the four channel bytes.
//! On channels normalized to `[0, 1]` this is the conventional
//! `(0.299*R + 0.587*G + 0.114*B) * A`, scaled by `1000 * 255 * 255`,
//! so every sample is exact and comparisons between frames and
//! templates lose nothing.

use vstd::prelude::*;

verus! {

/// Scaled luminance of a white, fully opaque pixel; the scale factor
/// between unit luminance and its integer representation.
pub const LUMA_SCALE: u32 = 65_025_000;

/// Luminance of one RGBA pixel in `1 / LUMA_SCALE` units: the weighted
/// sum of the colour channels, premultiplied by alpha.
pub open spec fn luma_value(r: u8, g: u8, b: u8, a: u8) -> int {
    (299 * r + 587 * g + 114 * b) * a
}

/// A fully transparent pixel converts to luminance zero, whatever its
/// colour channels hold.
pub proof fn lemma_transparent_pixel_is_black(r: u8, g: u8, b: u8)
    ensures
        luma_value(r, g, b, 0) == 0,
{
}

/// Luminance conversion is pure: equal channel bytes give equal
/// luminance, with no dependence on anything else.
pub proof fn lemma_luma_deterministic(
    r1: u8, g1: u8, b1: u8, a1: u8,
    r2: u8, g2: u8, b2: u8, a2: u8,
)
    requires
        r1 == r2,
        g1 == g2,
        b1 == b2,
        a1 == a2,
    ensures
        luma_value(r1, g1, b1, a1) == luma_value(r2, g2, b2, a2),
{
}

/// Converts one RGBA pixel to its scaled luminance.
pub fn rgba_to_luma(r: u8, g: u8, b: u8, a: u8) -> (l: u32)
    ensures
        l == luma_value(r, g, b, a),
        l <= LUMA_SCALE,
{
    let weighted: u32 = 299 * (r as u32) + 587 * (g as u32) + 114 * (b as u32);
    proof {
        assert(weighted * a <= 255_000 * 255) by (nonlinear_arith)
            requires
                0 <= weighted <= 255_000,
                0 <= a <= 255,
        ;
    }
    weighted * (a as u32)
}

} // verus!
