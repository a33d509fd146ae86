//! Dominant-color extraction: quantization of a pixel buffer into
//! representative clusters, and scoring of the clusters down to the single
//! best design color.
//!
//! Both steps are the deterministic clustering and ranking computations of
//! the `material-colors` crate, relied on as named black boxes; this
//! module states which pixels go in and which color comes out.

use material_colors::color::Argb;
use material_colors::quantize::Quantizer;
use material_colors::quantize::QuantizerCelebi;
use material_colors::score::Score;
use vstd::prelude::*;

use crate::color::Color;
use crate::error::Error;

verus! {

/// The representative clusters of a pixel sequence with their pixel
/// populations, at most `max` of them, in the quantizer's order.
pub uninterp spec fn quantized_of(pixels: Seq<Color>, max: int) -> Seq<(Color, u32)>;

/// The suitability ranking of clustered colors: the recommended design
/// color first; never empty.
pub uninterp spec fn scored_of(counts: Seq<(Color, u32)>) -> Seq<Color>;

/// Relies on `material_colors::quantize::QuantizerCelebi::quantize`: a
/// deterministic clustering (its internal seed is fixed) of the pixels
/// into at most `max_colors` representative colors with populations.
/// Clusters that gathered no pixels are skipped when the result map is
/// built, so every population handed back is at least one. The quantizer
/// allocates and indexes by the cluster budget, so at least one cluster
/// must be asked for.
#[verifier::external_body]
fn quantize_raw(pixels: &Vec<Color>, max_colors: usize) -> (r: Vec<(Color, u32)>)
    requires
        max_colors >= 1,
    ensures
        r@ == quantized_of(pixels@, max_colors as int),
        forall|i: int| 0 <= i < r@.len() ==> (#[trigger] r@[i]).1 >= 1,
{
    let argbs: Vec<Argb> = pixels.iter().map(
        |p: &Color| Argb::new(p.alpha, p.red, p.green, p.blue),
    ).collect();
    let result = QuantizerCelebi::quantize(&argbs, max_colors);
    result.color_to_count.into_iter().map(
        |e: (Argb, u32)| (Color { alpha: e.0.alpha, red: e.0.red, green: e.0.green, blue: e.0.blue }, e.1),
    ).collect()
}

/// Relies on `material_colors::score::Score::score`: ranks the clustered
/// colors by suitability for a theme, best first; its documentation
/// promises that at least one color is always returned (a fixed fallback
/// when every cluster is filtered out). The scoring arithmetic divides by
/// the population sum after merging duplicate colors into a map, so every
/// population must be positive — as the quantizer guarantees of its
/// output; with a zero sum the scores are not defined and the internal
/// sort is not safe. An empty input takes the fallback path.
#[verifier::external_body]
fn score_raw(counts: &Vec<(Color, u32)>) -> (r: Vec<Color>)
    requires
        forall|i: int| 0 <= i < counts@.len() ==> (#[trigger] counts@[i]).1 >= 1,
    ensures
        r@ == scored_of(counts@),
        r@.len() >= 1,
{
    let ranked = Score::score(
        &counts.iter().map(
            |e: &(Color, u32)| (Argb::new(e.0.alpha, e.0.red, e.0.green, e.0.blue), e.1),
        ).collect(),
        None,
        None,
        None,
    );
    ranked.into_iter().map(
        |c: Argb| Color { alpha: c.alpha, red: c.red, green: c.green, blue: c.blue },
    ).collect()
}

/// The dominant color of a prepared pixel sequence: the best-ranked of at
/// most 128 quantized clusters.
pub open spec fn dominant_spec(pixels: Seq<Color>) -> Color {
    scored_of(quantized_of(pixels, 128))[0]
}

/// Quantizes the pixels into at most 128 clusters, ranks them, and hands
/// back the single best design color. A buffer without pixels is an
/// `EmptyImage` error; a ranking left empty would be `NoDominantColor`,
/// though this ranker always keeps at least a fallback.
pub fn dominant_color(pixels: &Vec<Color>) -> (r: Result<Color, Error>)
    ensures
        pixels@.len() == 0 ==> r == Err::<Color, Error>(Error::EmptyImage),
        pixels@.len() > 0 ==> r == Ok::<Color, Error>(dominant_spec(pixels@)),
{
    if pixels.len() == 0 {
        return Err(Error::EmptyImage);
    }
    let counts = quantize_raw(pixels, 128);
    let ranked = score_raw(&counts);
    if ranked.len() == 0 {
        return Err(Error::NoDominantColor);
    }
    Ok(ranked[0])
}

} // verus!
