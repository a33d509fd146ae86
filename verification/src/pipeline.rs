//! The palette derivation pipeline, and the independent hue blend.
//!
//! A key color comes either from the dominant color of a supplied pixel
//! buffer (decoded and budget-resized) or from a literal hexadecimal
//! color; the tonal scheme generated from it is composed over the caller's
//! harmonized palette. Out-of-range tuning parameters are clamped here, at
//! the boundary, and nowhere deeper.

use vstd::prelude::*;

use crate::acquire::PixelBuffer;
use crate::acquire::prepared_spec;
use crate::acquire::prepare_pixels;
use crate::color::Color;
use crate::color::parse_hex;
use crate::color::parse_hex_spec;
use crate::color::to_hex;
use crate::color::to_hex_spec;
use crate::error::Error;
use crate::extract::dominant_color;
use crate::extract::dominant_spec;
use crate::harmony::clamp_param;
use crate::harmony::clamp_spec;
use crate::harmony::entry_transform_spec;
use crate::harmony::harmonize;
use crate::harmony::harmonize_spec;
use crate::palette::Palette;
use crate::palette::entries_view;
use crate::palette::lemma_map_of_contains;
use crate::palette::map_of;
use crate::scheme::MaterialScheme;
use crate::scheme::generate_scheme;
use crate::scheme::has_core_roles;
use crate::scheme::theme_of;

verus! {

/// The inputs of one derivation: the palette to harmonize, the mode, one
/// optional color source of each kind, the working-size budget, the
/// variant, and the tuning parameters in ten-thousandths.
pub struct Args {
    /// Palette whose entries are harmonized toward the derived key color.
    pub base_palette: Palette,
    /// Whether the dark scheme is selected and the boost raises tone.
    pub dark_mode: bool,
    /// A decoded image to draw the key color from, if any.
    pub image: Option<PixelBuffer>,
    /// The working-image pixel budget.
    pub size: u32,
    /// A literal hexadecimal key color, used only without an image.
    pub color: Option<String>,
    /// The stylistic variant of the generated scheme.
    pub scheme: MaterialScheme,
    /// Hue shift strength toward the key color, ten-thousandths of one.
    pub harmony: i64,
    /// Largest hue shift, in ten-thousandths of a degree.
    pub harmonize_threshold: i64,
    /// Foreground tone boost strength, in ten-thousandths of one.
    pub fg_boost: i64,
}

impl Args {
    /// The palette and any supplied buffer are well formed.
    pub open spec fn wf(&self) -> bool {
        &&& self.base_palette.wf()
        &&& match self.image {
            Some(b) => b.wf(),
            None => true,
        }
    }

    /// Bundles the inputs of one derivation.
    pub fn new(
        base_palette: Palette,
        dark_mode: bool,
        image: Option<PixelBuffer>,
        size: u32,
        color: Option<String>,
        scheme: MaterialScheme,
        harmony: i64,
        harmonize_threshold: i64,
        fg_boost: i64,
    ) -> (r: Args)
        ensures
            r == (Args {
                base_palette,
                dark_mode,
                image,
                size,
                color,
                scheme,
                harmony,
                harmonize_threshold,
                fg_boost,
            }),
    {
        Args {
            base_palette,
            dark_mode,
            image,
            size,
            color,
            scheme,
            harmony,
            harmonize_threshold,
            fg_boost,
        }
    }
}

/// Every entry of a palette mapping through the harmonizer and boost.
pub open spec fn transformed_spec(
    m: Map<Seq<char>, Color>,
    skey: Color,
    harmony: int,
    threshold: int,
    boost: int,
    dark: bool,
) -> Map<Seq<char>, Color> {
    Map::new(
        |k: Seq<char>| m.dom().contains(k),
        |k: Seq<char>| entry_transform_spec(m[k], skey, harmony, threshold, boost, dark),
    )
}

/// The palette derived from a key color: the caller's palette harmonized
/// toward the generated scheme's key color with clamped parameters, with
/// the selected scheme's entries composed over it.
pub open spec fn derived_palette_spec(
    base: Map<Seq<char>, Color>,
    key: Color,
    scheme: MaterialScheme,
    dark: bool,
    harmony: int,
    threshold: int,
    boost: int,
) -> Map<Seq<char>, Color> {
    let th = theme_of(key.red, key.green, key.blue, scheme.index_spec());
    let entries = if dark {
        th.1
    } else {
        th.0
    };
    transformed_spec(
        base,
        th.2,
        clamp_spec(harmony, 10_000),
        clamp_spec(threshold, 1_800_000),
        clamp_spec(boost, 10_000),
        dark,
    ).union_prefer_right(map_of(entries))
}

/// The pipeline reads its tuning parameters only through their clamps:
/// two parameter bundles with equal clamped values derive the same
/// palette; in particular any strength at or above one behaves as one,
/// and any threshold at or below zero behaves as zero.
pub proof fn lemma_pipeline_clamp(
    base: Map<Seq<char>, Color>,
    key: Color,
    scheme: MaterialScheme,
    dark: bool,
    h1: int,
    h2: int,
    t1: int,
    t2: int,
    b1: int,
    b2: int,
)
    requires
        clamp_spec(h1, 10_000) == clamp_spec(h2, 10_000),
        clamp_spec(t1, 1_800_000) == clamp_spec(t2, 1_800_000),
        clamp_spec(b1, 10_000) == clamp_spec(b2, 10_000),
    ensures
        derived_palette_spec(base, key, scheme, dark, h1, t1, b1) == derived_palette_spec(
            base,
            key,
            scheme,
            dark,
            h2,
            t2,
            b2,
        ),
{
}

/// Derives the final palette: the key color comes from the image when one
/// is supplied, else from the literal color, else the derivation fails
/// with `MissingColorSource`; the caller palette is harmonized toward the
/// generated scheme's key color and the selected scheme is composed over
/// it.
pub fn generate_palette(args: Args) -> (r: Result<Palette, Error>)
    requires
        args.wf(),
    ensures
        match args.image {
            Some(buf) => if buf.pixels@.len() == 0 {
                r == Err::<Palette, Error>(Error::EmptyImage)
            } else {
                r matches Ok(p) && p.wf() && p@ == derived_palette_spec(
                    args.base_palette@,
                    dominant_spec(prepared_spec(buf, args.size as int)),
                    args.scheme,
                    args.dark_mode,
                    args.harmony as int,
                    args.harmonize_threshold as int,
                    args.fg_boost as int,
                )
            },
            None => match args.color {
                Some(hex) => match parse_hex_spec(hex@) {
                    Ok(c) => r matches Ok(p) && p.wf() && p@ == derived_palette_spec(
                        args.base_palette@,
                        c,
                        args.scheme,
                        args.dark_mode,
                        args.harmony as int,
                        args.harmonize_threshold as int,
                        args.fg_boost as int,
                    ),
                    Err(_) => r == Err::<Palette, Error>(Error::InvalidColorFormat),
                },
                None => r == Err::<Palette, Error>(Error::MissingColorSource),
            },
        },
        r matches Ok(p) ==> p@.dom().contains("primary"@) && p@.dom().contains("on_primary"@)
            && p@.dom().contains("surface"@) && p@.dom().contains("background"@),
{
    let Args {
        base_palette: mut palette,
        dark_mode,
        image,
        size,
        color,
        scheme,
        harmony,
        harmonize_threshold,
        fg_boost,
    } = args;
    let key: Color = match image {
        Some(buf) => {
            if buf.pixels.len() == 0 {
                return Err(Error::EmptyImage);
            }
            proof {
                assert(buf.width > 0 && buf.height > 0) by (nonlinear_arith)
                    requires
                        buf.pixels@.len() == (buf.width as int) * (buf.height as int),
                        buf.pixels@.len() > 0;
            }
            let prepared = prepare_pixels(&buf, size);
            match dominant_color(&prepared) {
                Ok(c) => c,
                Err(e) => {
                    return Err(e);
                },
            }
        },
        None => match color {
            Some(hex) => match parse_hex(&hex) {
                Ok(c) => c,
                Err(_) => {
                    return Err(Error::InvalidColorFormat);
                },
            },
            None => {
                return Err(Error::MissingColorSource);
            },
        },
    };
    let parts = generate_scheme(&key, &scheme);
    let scheme_entries = if dark_mode {
        parts.1
    } else {
        parts.0
    };
    let skey = parts.2;
    let h = clamp_param(harmony, 10_000);
    let t = clamp_param(harmonize_threshold, 1_800_000);
    let b = clamp_param(fg_boost, 10_000);
    palette.harmonize_toward(&skey, h, t, b, dark_mode);
    proof {
        assert(palette@ =~= transformed_spec(
            args.base_palette@,
            skey,
            h as int,
            t as int,
            b as int,
            dark_mode,
        ));
    }
    palette.compose(&scheme_entries);
    proof {
        assert(has_core_roles(entries_view(scheme_entries@)));
        lemma_map_of_contains(entries_view(scheme_entries@), "primary"@);
        lemma_map_of_contains(entries_view(scheme_entries@), "on_primary"@);
        lemma_map_of_contains(entries_view(scheme_entries@), "surface"@);
        lemma_map_of_contains(entries_view(scheme_entries@), "background"@);
        assert(palette@ =~= derived_palette_spec(
            args.base_palette@,
            key,
            args.scheme,
            args.dark_mode,
            args.harmony as int,
            args.harmonize_threshold as int,
            args.fg_boost as int,
        ));
    }
    Ok(palette)
}

/// What blending two hexadecimal colors yields: the first color's hue
/// moved toward the second's by the interpolation factor along the
/// shorter arc, rendered back to hexadecimal.
pub open spec fn blend_spec(a: Seq<char>, b: Seq<char>, alpha: int) -> Result<Seq<char>, Error> {
    match parse_hex_spec(a) {
        Ok(ca) => match parse_hex_spec(b) {
            Ok(cb) => Ok(to_hex_spec(harmonize_spec(ca, cb, alpha, 1_800_000))),
            Err(e) => Err(e),
        },
        Err(e) => Err(e),
    }
}

/// Blends two hexadecimal colors along the hue dimension by the
/// interpolation factor in ten-thousandths of one (clamped), keeping the
/// first color's chroma and tone.
pub fn blend(a: &String, b: &String, alpha: i64) -> (r: Result<String, Error>)
    ensures
        ({
            let sr = blend_spec(a@, b@, clamp_spec(alpha as int, 10_000));
            match r {
                Ok(s) => sr matches Ok(v) && s@ == v,
                Err(e) => sr == Err::<Seq<char>, Error>(e),
            }
        }),
{
    let ca = match parse_hex(a) {
        Ok(c) => c,
        Err(e) => {
            return Err(e);
        },
    };
    let cb = match parse_hex(b) {
        Ok(c) => c,
        Err(e) => {
            return Err(e);
        },
    };
    let amount = clamp_param(alpha, 10_000);
    let blended = harmonize(&ca, &cb, amount, 1_800_000);
    Ok(to_hex(&blended))
}

} // verus!
