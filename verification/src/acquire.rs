//! Image acquisition: the working-resolution budget.
//!
//! A decoded image is downscaled to a bounded working resolution before
//! dominant-color extraction. With a pixel budget `b`, the scale factor is
//! `b*b / (w*h)`; an image already within the budget is never upscaled, and
//! a scaled dimension is rounded to the nearest integer and floored at one.

use vstd::arithmetic::div_mod::lemma_div_multiples_vanish_fancy;
use vstd::arithmetic::div_mod::lemma_fundamental_div_mod;
use vstd::prelude::*;

use crate::color::Color;

verus! {

/// A rectangular grid of colors with explicit width and height.
pub struct PixelBuffer {
    pub width: u32,
    pub height: u32,
    pub pixels: Vec<Color>,
}

impl PixelBuffer {
    /// The pixel vector covers the rectangle exactly, and the buffer is
    /// small enough that its four-bytes-per-pixel encoding fits in memory.
    pub open spec fn wf(&self) -> bool {
        &&& self.pixels@.len() == (self.width as int) * (self.height as int)
        &&& self.pixels@.len() * 4 <= usize::MAX
    }
}

/// Division of `a` by `b` rounded to the nearest integer, halves up, for
/// `a >= 0` and `b > 0`.
pub open spec fn round_div(a: int, b: int) -> int {
    (2 * a + b) / (2 * b)
}

/// The working dimensions for a pixel budget: dimensions within the budget
/// are kept, larger ones are scaled by `budget*budget / (w*h)` and floored
/// at one.
pub open spec fn optimal_size_spec(w: int, h: int, budget: int) -> (int, int) {
    if budget * budget > w * h {
        (w, h)
    } else {
        let nw = round_div(w * budget * budget, w * h);
        let nh = round_div(h * budget * budget, w * h);
        ((if nw < 1 { 1int } else { nw }), (if nh < 1 { 1int } else { nh }))
    }
}

/// Rounded division recovers `k` exactly when the numerator is `k` whole
/// denominators.
proof fn lemma_round_div_exact(k: int, b: int)
    requires
        b >= 1,
        k >= 0,
    ensures
        round_div(k * b, b) == k,
{
    assert(2 * (k * b) + b == (2 * b) * k + b) by (nonlinear_arith);
    lemma_div_multiples_vanish_fancy(k, b, 2 * b);
}

/// Rounded division never exceeds `k` when the numerator is at most `k`
/// whole denominators.
proof fn lemma_round_div_le(a: int, b: int, k: int)
    requires
        b >= 1,
        0 <= a,
        a <= k * b,
        0 <= k,
    ensures
        round_div(a, b) <= k,
{
    let q = (2 * a + b) / (2 * b);
    lemma_fundamental_div_mod(2 * a + b, 2 * b);
    assert((2 * b) * q <= 2 * a + b);
    assert(2 * a + b <= 2 * (k * b) + b);
    assert(2 * (k * b) + b < (2 * b) * (k + 1)) by (nonlinear_arith)
        requires
            b >= 1;
    assert((2 * b) * q < (2 * b) * (k + 1));
    assert(q < k + 1) by (nonlinear_arith)
        requires
            b >= 1 && (2 * b) * q < (2 * b) * (k + 1);
}

/// The working dimensions for an image of `w` by `h` under the pixel budget
/// `bitmap_size`: never upscaled, never zero, and exactly the rounded
/// proportional scale when the image exceeds the budget.
pub fn calculate_optimal_size(w: u32, h: u32, bitmap_size: u32) -> (r: (u32, u32))
    requires
        w > 0,
        h > 0,
    ensures
        ((r.0 as int), (r.1 as int)) == optimal_size_spec(w as int, h as int, bitmap_size as int),
        1 <= r.0 <= w,
        1 <= r.1 <= h,
        (w as int) * (h as int) <= (bitmap_size as int) * (bitmap_size as int) ==> r == (w, h),
{
    proof {
        assert((w as int) * (h as int) < 0x10000000000000000) by (nonlinear_arith)
            requires
                (w as int) <= 0xFFFFFFFF,
                h as int <= 0xFFFFFFFF;
        assert((bitmap_size as int) * (bitmap_size as int) < 0x10000000000000000) by (nonlinear_arith)
            requires
                (bitmap_size as int) <= 0xFFFFFFFF;
    }
    let wh: u64 = (w as u64) * (h as u64);
    let n: u64 = (bitmap_size as u64) * (bitmap_size as u64);
    if n > wh {
        return (w, h);
    }
    proof {
        assert(2 * (w as int) * (n as int) + (wh as int)
            < 0x100000000000000000000000000000000) by (nonlinear_arith)
            requires
                (w as int) <= 0xFFFFFFFF,
                (n as int) < 0x10000000000000000,
                (wh as int) < 0x10000000000000000;
        assert(2 * (h as int) * (n as int) + (wh as int)
            < 0x100000000000000000000000000000000) by (nonlinear_arith)
            requires
                (h as int) <= 0xFFFFFFFF,
                (n as int) < 0x10000000000000000,
                (wh as int) < 0x10000000000000000;
    }
    proof {
        assert((wh as int) >= 1) by (nonlinear_arith)
            requires
                (wh as int) == (w as int) * (h as int),
                (w as int) >= 1,
                (h as int) >= 1;
    }
    let denom: u128 = 2 * (wh as u128);
    let nw_wide: u128 = (2 * (w as u128) * (n as u128) + (wh as u128)) / denom;
    let nh_wide: u128 = (2 * (h as u128) * (n as u128) + (wh as u128)) / denom;
    proof {
        let whi = (w as int) * (h as int);
        let ni = (bitmap_size as int) * (bitmap_size as int);
        assert((w as int) * ni == ((w as int) * (bitmap_size as int)) * (bitmap_size as int))
            by (nonlinear_arith)
            requires
                ni == (bitmap_size as int) * (bitmap_size as int);
        assert((h as int) * ni == ((h as int) * (bitmap_size as int)) * (bitmap_size as int))
            by (nonlinear_arith)
            requires
                ni == (bitmap_size as int) * (bitmap_size as int);
        assert((2 * (w as int)) * (n as int) == 2 * ((w as int) * (n as int)))
            by (nonlinear_arith);
        assert((2 * (h as int)) * (n as int) == 2 * ((h as int) * (n as int)))
            by (nonlinear_arith);
        assert((nw_wide as int) == round_div((w as int) * ni, whi));
        assert((nh_wide as int) == round_div((h as int) * ni, whi));
        assert((w as int) * ni <= (w as int) * whi) by (nonlinear_arith)
            requires
                ni <= whi,
                (w as int) >= 1;
        assert((h as int) * ni <= (h as int) * whi) by (nonlinear_arith)
            requires
                ni <= whi,
                (h as int) >= 1;
        lemma_round_div_le((w as int) * ni, whi, w as int);
        lemma_round_div_le((h as int) * ni, whi, h as int);
        if n == wh {
            lemma_round_div_exact(w as int, whi);
            lemma_round_div_exact(h as int, whi);
            assert((w as int) * ni == (w as int) * whi);
            assert((h as int) * ni == (h as int) * whi);
        }
    }
    let nw: u32 = if nw_wide < 1 {
        1
    } else {
        nw_wide as u32
    };
    let nh: u32 = if nh_wide < 1 {
        1
    } else {
        nh_wide as u32
    };
    (nw, nh)
}

/// The pixels of the image resampled from `w` by `h` down to `nw` by
/// `nh` with a Lanczos-class filter, row by row.
pub uninterp spec fn resized_of(pixels: Seq<Color>, w: int, h: int, nw: int, nh: int) -> Seq<
    Color,
>;

/// Relies on `image::imageops::resize` with the `Lanczos3` filter: the
/// result is an `nw` by `nh` buffer and depends on the input pixels and
/// dimensions alone.
#[verifier::external_body]
fn resize_raw(pixels: &Vec<Color>, w: u32, h: u32, nw: u32, nh: u32) -> (r: Vec<Color>)
    requires
        pixels@.len() == (w as int) * (h as int),
        pixels@.len() * 4 <= usize::MAX,
        1 <= nw <= w,
        1 <= nh <= h,
    ensures
        r@ == resized_of(pixels@, w as int, h as int, nw as int, nh as int),
        r@.len() == (nw as int) * (nh as int),
{
    let bytes: Vec<u8> = pixels.iter().flat_map(
        |p: &Color| [p.red, p.green, p.blue, p.alpha],
    ).collect();
    let img = image::RgbaImage::from_raw(w, h, bytes).unwrap();
    let out = image::imageops::resize(&img, nw, nh, image::imageops::FilterType::Lanczos3);
    out.pixels().map(
        |px: &image::Rgba<u8>| Color { alpha: px.0[3], red: px.0[0], green: px.0[1], blue: px.0[2] },
    ).collect()
}

/// The pixel sequence handed to extraction: the buffer itself when it is
/// within the budget, else the buffer resampled to the optimal size.
pub open spec fn prepared_spec(buf: PixelBuffer, budget: int) -> Seq<Color> {
    let size = optimal_size_spec(buf.width as int, buf.height as int, budget);
    if size.0 < buf.width as int || size.1 < buf.height as int {
        resized_of(buf.pixels@, buf.width as int, buf.height as int, size.0, size.1)
    } else {
        buf.pixels@
    }
}

/// Brings a decoded buffer into the working-resolution budget: a buffer
/// already within it is handed back unchanged, a larger one is resampled
/// down; the result is never empty.
pub fn prepare_pixels(buf: &PixelBuffer, budget: u32) -> (r: Vec<Color>)
    requires
        buf.wf(),
        buf.width > 0,
        buf.height > 0,
    ensures
        r@ == prepared_spec(*buf, budget as int),
        (buf.width as int) * (buf.height as int) <= (budget as int) * (budget as int) ==> r@
            == buf.pixels@,
        r@.len() >= 1,
{
    let size = calculate_optimal_size(buf.width, buf.height, budget);
    proof {
        assert((buf.width as int) * (buf.height as int) >= 1) by (nonlinear_arith)
            requires
                (buf.width as int) >= 1,
                (buf.height as int) >= 1;
        assert((size.0 as int) * (size.1 as int) >= 1) by (nonlinear_arith)
            requires
                (size.0 as int) >= 1,
                (size.1 as int) >= 1;
    }
    if size.0 < buf.width || size.1 < buf.height {
        resize_raw(&buf.pixels, buf.width, buf.height, size.0, size.1)
    } else {
        buf.pixels.clone()
    }
}

} // verus!
