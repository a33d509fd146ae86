//! Hue harmonization: bounded rotation of a color's hue toward a key hue,
//! and the foreground tone boost.
//!
//! All angles are handled in ten-thousandths of a degree as integers, so
//! every step here is exact. Tuning parameters are clamped once, at the
//! boundary of the public pipeline entry point, and the functions here
//! require the clamped ranges.

use vstd::arithmetic::div_mod::lemma_div_is_ordered;
use vstd::arithmetic::div_mod::lemma_div_multiples_vanish;
use vstd::arithmetic::div_mod::lemma_mod_multiples_vanish;
use vstd::arithmetic::div_mod::lemma_small_mod;
use vstd::prelude::*;

use crate::color::Color;
use crate::hct::from_perceptual;
use crate::hct::from_perceptual_spec;
use crate::hct::hct_of;
use crate::hct::to_perceptual;

verus! {

/// A degree count in ten-thousandths folded into [0, 360) degrees.
pub open spec fn sanitize_deg(x: int) -> int {
    x % 3_600_000
}

/// The shorter arc between two hues in [0, 360) degrees, in [0, 180].
pub open spec fn diff_deg(a: int, b: int) -> int {
    let d = if a >= b {
        a - b
    } else {
        b - a
    };
    if d > 1_800_000 {
        3_600_000 - d
    } else {
        d
    }
}

/// +1 when rotating the hue upward from `from` reaches `to` on the shorter
/// arc, -1 otherwise.
pub open spec fn rot_dir(from: int, to: int) -> int {
    if sanitize_deg(to - from) <= 1_800_000 {
        1int
    } else {
        -1int
    }
}

/// The bounded rotation: the angular difference scaled by the harmony
/// strength (in ten-thousandths of one), capped by the threshold.
pub open spec fn rotation_amount(diff: int, harmony: int, threshold: int) -> int {
    let scaled = diff * harmony / 10_000;
    if scaled > threshold {
        threshold
    } else {
        scaled
    }
}

/// The harmonized hue: the original hue moved toward the key hue by the
/// bounded rotation along the shorter arc, folded into [0, 360).
pub open spec fn harmonized_hue(from: int, to: int, harmony: int, threshold: int) -> int {
    let f = sanitize_deg(from);
    let t = sanitize_deg(to);
    sanitize_deg(f + rotation_amount(diff_deg(f, t), harmony, threshold) * rot_dir(f, t))
}

/// Folds a degree count into [0, 360) degrees.
pub fn sanitize_degrees(x: i64) -> (r: i64)
    requires
        -3_600_000 <= x <= 7_200_000,
    ensures
        r == sanitize_deg(x as int),
        0 <= r < 3_600_000,
{
    let shifted: i64 = x + 3_600_000;
    let m: i64 = shifted % 3_600_000;
    proof {
        lemma_mod_multiples_vanish(1, x as int, 3_600_000);
        assert(3_600_000 * 1 + x == shifted as int);
    }
    m
}

/// The shorter arc between two hues, in [0, 180] degrees.
pub fn difference_degrees_e4(a: i64, b: i64) -> (r: i64)
    requires
        0 <= a < 3_600_000,
        0 <= b < 3_600_000,
    ensures
        r == diff_deg(a as int, b as int),
        0 <= r <= 1_800_000,
{
    let d: i64 = if a >= b {
        a - b
    } else {
        b - a
    };
    if d > 1_800_000 {
        3_600_000 - d
    } else {
        d
    }
}

/// The direction of the shorter arc from one hue to another.
pub fn rotation_direction(from: i64, to: i64) -> (r: i64)
    requires
        0 <= from < 3_600_000,
        0 <= to < 3_600_000,
    ensures
        r == rot_dir(from as int, to as int),
{
    let s = sanitize_degrees(to - from);
    if s <= 1_800_000 {
        1
    } else {
        -1
    }
}

/// The harmonized hue for hues in [0, 360] degrees and clamped tuning
/// parameters.
pub fn harmonize_hue(from: i64, to: i64, harmony: i64, threshold: i64) -> (r: i64)
    requires
        0 <= from <= 3_600_000,
        0 <= to <= 3_600_000,
        0 <= harmony <= 10_000,
        0 <= threshold <= 1_800_000,
    ensures
        r == harmonized_hue(from as int, to as int, harmony as int, threshold as int),
        0 <= r < 3_600_000,
{
    let f = sanitize_degrees(from);
    let t = sanitize_degrees(to);
    let diff = difference_degrees_e4(f, t);
    proof {
        assert(diff * harmony <= 1_800_000 * 10_000) by (nonlinear_arith)
            requires
                0 <= diff <= 1_800_000,
                0 <= harmony <= 10_000;
        assert(0 <= diff * harmony) by (nonlinear_arith)
            requires
                0 <= diff,
                0 <= harmony;
    }
    let scaled: i64 = diff * harmony / 10_000;
    let rot: i64 = if scaled > threshold {
        threshold
    } else {
        scaled
    };
    let dir = rotation_direction(f, t);
    sanitize_degrees(f + rot * dir)
}

/// With zero harmony strength the harmonized hue equals the original hue:
/// no rotation happens.
pub proof fn lemma_harmonize_identity(from: int, to: int, threshold: int)
    requires
        0 <= from < 3_600_000,
        0 <= to < 3_600_000,
        0 <= threshold,
    ensures
        harmonized_hue(from, to, 0, threshold) == from,
{
    lemma_small_mod(from as nat, 3_600_000);
    lemma_small_mod(to as nat, 3_600_000);
    let d = diff_deg(from, to);
    assert(d * 0 == 0);
    assert(rotation_amount(d, 0, threshold) == 0);
    assert(0 * rot_dir(from, to) == 0);
}

/// The rotation never exceeds the angular difference: harmonization moves
/// the hue at most the whole way toward the key hue, never past it.
pub proof fn lemma_rotation_bounded(diff: int, harmony: int, threshold: int)
    requires
        0 <= diff,
        0 <= harmony <= 10_000,
        0 <= threshold,
    ensures
        0 <= rotation_amount(diff, harmony, threshold) <= diff,
{
    assert(diff * harmony <= diff * 10_000) by (nonlinear_arith)
        requires
            0 <= diff,
            harmony <= 10_000;
    assert(0 <= diff * harmony) by (nonlinear_arith)
        requires
            0 <= diff,
            0 <= harmony;
    lemma_div_is_ordered(diff * harmony, diff * 10_000, 10_000);
    lemma_div_multiples_vanish(diff, 10_000);
    assert(10_000 * diff == diff * 10_000) by (nonlinear_arith);
    assert(diff * harmony / 10_000 >= 0) by {
        lemma_div_is_ordered(0, diff * harmony, 10_000);
    }
}

/// With full strength and the whole half-turn as threshold, the harmonized
/// hue lands exactly on the key hue.
pub proof fn lemma_harmonize_full(from: int, to: int)
    requires
        0 <= from < 3_600_000,
        0 <= to < 3_600_000,
    ensures
        harmonized_hue(from, to, 10_000, 1_800_000) == to,
{
    lemma_small_mod(from as nat, 3_600_000);
    lemma_small_mod(to as nat, 3_600_000);
    let d1 = sanitize_deg(to - from);
    if to >= from {
        lemma_small_mod((to - from) as nat, 3_600_000);
        assert(d1 == to - from);
    } else {
        lemma_mod_multiples_vanish(1, to - from, 3_600_000);
        lemma_small_mod((to - from + 3_600_000) as nat, 3_600_000);
        assert(d1 == to - from + 3_600_000);
    }
    let diff = diff_deg(from, to);
    assert(diff == if d1 <= 1_800_000 { d1 } else { 3_600_000 - d1 });
    lemma_div_multiples_vanish(diff, 10_000);
    assert(10_000 * diff == diff * 10_000) by (nonlinear_arith);
    assert(rotation_amount(diff, 10_000, 1_800_000) == diff);
    if d1 <= 1_800_000 {
        assert(rot_dir(from, to) == 1);
        assert(from + diff * 1 == from + d1);
        if to >= from {
            lemma_small_mod(to as nat, 3_600_000);
            assert(sanitize_deg(from + d1) == to);
        } else {
            lemma_mod_multiples_vanish(1, to, 3_600_000);
            assert(3_600_000 * 1 + to == from + d1);
            assert(sanitize_deg(from + d1) == to % 3_600_000);
        }
    } else {
        assert(rot_dir(from, to) == -1);
        assert(from + diff * -1 == from + d1 - 3_600_000);
        if to >= from {
            assert(from + d1 - 3_600_000 == to - 3_600_000);
            lemma_mod_multiples_vanish(-1, to, 3_600_000);
            assert(3_600_000 * -1 + to == to - 3_600_000);
            assert(sanitize_deg(to - 3_600_000) == to % 3_600_000);
        } else {
            assert(from + d1 - 3_600_000 == to);
        }
    }
}

/// The harmonized hue sits exactly the bounded rotation away from the
/// original hue; with the rotation capped by the angular difference, the
/// hue moves at most the whole way toward the key and never overshoots.
pub proof fn lemma_harmonize_moves_by_rotation(from: int, to: int, harmony: int, threshold: int)
    requires
        0 <= from < 3_600_000,
        0 <= to < 3_600_000,
        0 <= harmony <= 10_000,
        0 <= threshold <= 1_800_000,
    ensures
        diff_deg(harmonized_hue(from, to, harmony, threshold), from) == rotation_amount(
            diff_deg(from, to),
            harmony,
            threshold,
        ),
{
    lemma_small_mod(from as nat, 3_600_000);
    lemma_small_mod(to as nat, 3_600_000);
    let d = diff_deg(from, to);
    lemma_rotation_bounded(d, harmony, threshold);
    let rot = rotation_amount(d, harmony, threshold);
    assert(0 <= rot <= 1_800_000);
    let dir = rot_dir(from, to);
    let x = from + rot * dir;
    if dir == 1 {
        assert(rot * dir == rot) by (nonlinear_arith)
            requires
                dir == 1;
        assert(x == from + rot);
        if x < 3_600_000 {
            lemma_small_mod(x as nat, 3_600_000);
        } else {
            lemma_mod_multiples_vanish(-1, x, 3_600_000);
            assert(3_600_000 * -1 + x == x - 3_600_000);
            lemma_small_mod((x - 3_600_000) as nat, 3_600_000);
        }
    } else {
        assert(dir == -1);
        assert(rot * dir == -rot) by (nonlinear_arith)
            requires
                dir == -1;
        assert(x == from - rot);
        if x >= 0 {
            lemma_small_mod(x as nat, 3_600_000);
        } else {
            lemma_mod_multiples_vanish(1, x, 3_600_000);
            assert(3_600_000 * 1 + x == x + 3_600_000);
            lemma_small_mod((x + 3_600_000) as nat, 3_600_000);
        }
    }
}

/// A tuning parameter clamped into [0, max].
pub open spec fn clamp_spec(x: int, max: int) -> int {
    if x < 0 {
        0int
    } else if x > max {
        max
    } else {
        x
    }
}

/// Clamps a tuning parameter into [0, max].
pub fn clamp_param(x: i64, max: i64) -> (r: i64)
    requires
        max >= 0,
    ensures
        r == clamp_spec(x as int, max as int),
        0 <= r <= max,
{
    if x < 0 {
        0
    } else if x > max {
        max
    } else {
        x
    }
}

/// Clamping saturates: every parameter at or above the maximum behaves as
/// the maximum, and every parameter at or below zero behaves as zero.
pub proof fn lemma_clamp_saturates(x: int, y: int, max: int)
    requires
        max >= 0,
    ensures
        x >= max && y >= max ==> clamp_spec(x, max) == clamp_spec(y, max),
        x <= 0 && y <= 0 ==> clamp_spec(x, max) == clamp_spec(y, max),
{
}

/// The tone multiplier of the foreground boost, in ten-thousandths: above
/// one in dark mode, below one in light mode.
pub open spec fn tone_mul_spec(boost: int, dark: bool) -> int {
    if dark {
        10_000 + boost
    } else {
        10_000 - boost
    }
}

/// A tone scaled by a multiplier in ten-thousandths.
pub open spec fn boosted_tone(tone: int, tone_mul: int) -> int {
    tone * tone_mul / 10_000
}

/// The design color with its hue rotated toward the source color's hue by
/// the bounded amount, chroma and tone kept.
pub open spec fn harmonize_spec(design: Color, source: Color, harmony: int, threshold: int) -> Color {
    let d = hct_of(design.red, design.green, design.blue);
    let s = hct_of(source.red, source.green, source.blue);
    from_perceptual_spec(harmonized_hue(d.0, s.0, harmony, threshold), d.1, d.2)
}

/// Rotates the design color's hue toward the source color's hue by the
/// bounded amount, keeping its chroma and tone.
pub fn harmonize(design: &Color, source: &Color, harmony: i64, threshold: i64) -> (r: Color)
    requires
        0 <= harmony <= 10_000,
        0 <= threshold <= 1_800_000,
    ensures
        r == harmonize_spec(*design, *source, harmony as int, threshold as int),
{
    let d = to_perceptual(design);
    let s = to_perceptual(source);
    let hue = harmonize_hue(d.0, s.0, harmony, threshold);
    from_perceptual(hue, d.1, d.2)
}

/// The color with its tone rescaled by the multiplier in ten-thousandths,
/// hue and chroma kept.
pub open spec fn boost_spec(c: Color, tone_mul: int) -> Color {
    let p = hct_of(c.red, c.green, c.blue);
    from_perceptual_spec(p.0, p.1, boosted_tone(p.2, tone_mul))
}

/// Rescales the color's tone by the multiplier in ten-thousandths: the
/// foreground boost pass.
pub fn boost_chroma_tone(c: &Color, tone_mul: i64) -> (r: Color)
    requires
        0 <= tone_mul <= 20_000,
    ensures
        r == boost_spec(*c, tone_mul as int),
{
    let p = to_perceptual(c);
    proof {
        assert(p.2 * tone_mul <= 1_000_000 * 20_000) by (nonlinear_arith)
            requires
                0 <= p.2 <= 1_000_000,
                0 <= tone_mul <= 20_000;
        assert(0 <= p.2 * tone_mul) by (nonlinear_arith)
            requires
                0 <= p.2,
                0 <= tone_mul;
    }
    let t: i64 = p.2 * tone_mul / 10_000;
    from_perceptual(p.0, p.1, t)
}

/// One palette entry through the harmonizer and then the foreground boost.
pub open spec fn entry_transform_spec(
    v: Color,
    key: Color,
    harmony: int,
    threshold: int,
    boost: int,
    dark: bool,
) -> Color {
    boost_spec(harmonize_spec(v, key, harmony, threshold), tone_mul_spec(boost, dark))
}

/// Transforms one palette entry: hue toward the key color, then the tone
/// boost for the active mode.
pub fn transform_entry(
    v: &Color,
    key: &Color,
    harmony: i64,
    threshold: i64,
    boost: i64,
    dark: bool,
) -> (r: Color)
    requires
        0 <= harmony <= 10_000,
        0 <= threshold <= 1_800_000,
        0 <= boost <= 10_000,
    ensures
        r == entry_transform_spec(
            *v,
            *key,
            harmony as int,
            threshold as int,
            boost as int,
            dark,
        ),
{
    let h = harmonize(v, key, harmony, threshold);
    let mul: i64 = if dark {
        10_000 + boost
    } else {
        10_000 - boost
    };
    boost_chroma_tone(&h, mul)
}

} // verus!
