//! The perceptual color coordinate system (hue, chroma, tone).
//!
//! Conversion between packed channels and perceptual coordinates is the
//! standardized color-appearance computation of the `material-colors`
//! crate; this module carries its results as plain fixed-point values, in
//! ten-thousandths of a degree, of a chroma unit and of a tone unit.

use material_colors::color::Argb;
use material_colors::hct::Hct;
use vstd::prelude::*;

use crate::color::Color;

verus! {

/// The perceptual coordinates of a color with the given red, green and
/// blue channels, in ten-thousandths: hue, chroma, tone.
pub uninterp spec fn hct_of(red: u8, green: u8, blue: u8) -> (int, int, int);

/// The channels of the displayable color the perceptual solver finds for
/// hue, chroma and tone given in ten-thousandths; invalid coordinates are
/// corrected by the solver.
pub uninterp spec fn rgb_of_hct(hue: int, chroma: int, tone: int) -> (u8, u8, u8);

/// Relies on `material_colors::hct::Hct` built from an `Argb`: the
/// coordinates depend on the red, green and blue channels alone; hue is in
/// [0,360) degrees, chroma is non-negative, tone is in [0,100]. The
/// crate's coordinates are handed out scaled by ten thousand, rounded to
/// the nearest integer; the scale is built from the crate's own exact
/// luminance constant (one hundred, squared).
#[verifier::external_body]
fn to_hct_raw(c: &Color) -> (r: (i32, i32, i32))
    ensures
        (r.0 as int, r.1 as int, r.2 as int) == hct_of(c.red, c.green, c.blue),
        0 <= r.0 <= 3_600_000,
        0 <= r.1,
        0 <= r.2 <= 1_000_000,
{
    let hct: Hct = Argb::new(255, c.red, c.green, c.blue).into();
    let hundred = material_colors::color::WHITE_POINT_D65[1];
    let scale = hundred * hundred;
    (
        (hct.get_hue() * scale).round() as i32,
        (hct.get_chroma() * scale).round() as i32,
        (hct.get_tone() * scale).round() as i32,
    )
}

/// Relies on `material_colors::hct::Hct::from` and its `Argb` conversion:
/// the solver is a deterministic function of hue, chroma and tone alone,
/// and corrects out-of-range coordinates itself. Inputs are taken in
/// ten-thousandths and handed to the solver divided back down; `lerp` of a
/// value with itself is the crate's identity and only fixes the type.
#[verifier::external_body]
fn from_hct_raw(hue: i32, chroma: i32, tone: i32) -> (r: (u8, u8, u8))
    ensures
        r == rgb_of_hct(hue as int, chroma as int, tone as int),
{
    let hundred = material_colors::color::WHITE_POINT_D65[1];
    let scale = hundred * hundred;
    let zero = hundred - hundred;
    let hue_f = material_colors::utils::math::lerp(Into::into(hue), zero, zero);
    let chroma_f = material_colors::utils::math::lerp(Into::into(chroma), zero, zero);
    let tone_f = material_colors::utils::math::lerp(Into::into(tone), zero, zero);
    let argb: Argb = Hct::from(hue_f / scale, chroma_f / scale, tone_f / scale).into();
    (argb.red, argb.green, argb.blue)
}

/// The perceptual coordinates of a color, in ten-thousandths: hue in
/// [0, 360] degrees, chroma at least zero, tone in [0, 100] units.
pub fn to_perceptual(c: &Color) -> (r: (i64, i64, i64))
    ensures
        (r.0 as int, r.1 as int, r.2 as int) == hct_of(c.red, c.green, c.blue),
        0 <= r.0 <= 3_600_000,
        0 <= r.1 <= 0x7FFF_FFFF,
        0 <= r.2 <= 1_000_000,
{
    let raw = to_hct_raw(c);
    (raw.0 as i64, raw.1 as i64, raw.2 as i64)
}

/// The fully opaque color found by the perceptual solver for the given
/// coordinates.
pub open spec fn from_perceptual_spec(hue: int, chroma: int, tone: int) -> Color {
    let rgb = rgb_of_hct(hue, chroma, tone);
    Color { alpha: 255, red: rgb.0, green: rgb.1, blue: rgb.2 }
}

/// Rebuilds a fully opaque color from perceptual coordinates given in
/// ten-thousandths.
pub fn from_perceptual(hue: i64, chroma: i64, tone: i64) -> (r: Color)
    requires
        0 <= hue <= 3_600_000,
        0 <= chroma <= 0x7FFF_FFFF,
        0 <= tone <= 0x7FFF_FFFF,
    ensures
        r == from_perceptual_spec(hue as int, chroma as int, tone as int),
        r.alpha == 255,
{
    let rgb = from_hct_raw(hue as i32, chroma as i32, tone as i32);
    Color { alpha: 255, red: rgb.0, green: rgb.1, blue: rgb.2 }
}

} // verus!
