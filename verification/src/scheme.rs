//! The tonal scheme generator: nine stylistic variants, and the generated
//! light/dark scheme pair with its canonical key color.
//!
//! Generation itself is the standardized Material color-theory algorithm
//! of the `material-colors` crate, relied on as a deterministic black box.

use material_colors::color::Argb;
use material_colors::dynamic_color::Variant;
use material_colors::theme::ThemeBuilder;
use vstd::prelude::*;
use vstd::string::StringExecFns;

use crate::color::Color;
use crate::error::Error;
use crate::palette::entries_view;

verus! {

/// The nine stylistic scheme variants.
#[derive(Clone, Copy, Debug, PartialEq, Eq, Structural, Hash)]
pub enum MaterialScheme {
    Monochrome,
    Neutral,
    TonalSpot,
    Vibrant,
    Expressive,
    Fidelity,
    Content,
    Rainbow,
    FruitSalad,
}

impl MaterialScheme {
    /// Hands back the position of this variant among the nine.
    pub fn to_index(&self) -> (r: u8)
        ensures
            r as int == self.index_spec(),
            r <= 8,
    {
        match self {
            MaterialScheme::Monochrome => 0,
            MaterialScheme::Neutral => 1,
            MaterialScheme::TonalSpot => 2,
            MaterialScheme::Vibrant => 3,
            MaterialScheme::Expressive => 4,
            MaterialScheme::Fidelity => 5,
            MaterialScheme::Content => 6,
            MaterialScheme::Rainbow => 7,
            MaterialScheme::FruitSalad => 8,
        }
    }

    /// The position of this variant among the nine, used to state which
    /// generated scheme a pipeline result is built from.
    pub open spec fn index_spec(&self) -> int {
        match self {
            MaterialScheme::Monochrome => 0,
            MaterialScheme::Neutral => 1,
            MaterialScheme::TonalSpot => 2,
            MaterialScheme::Vibrant => 3,
            MaterialScheme::Expressive => 4,
            MaterialScheme::Fidelity => 5,
            MaterialScheme::Content => 6,
            MaterialScheme::Rainbow => 7,
            MaterialScheme::FruitSalad => 8,
        }
    }
}

/// The variant named by a string: one of the nine hyphenated names, and
/// anything else an `InvalidSchemeVariant` error.
pub open spec fn scheme_from_name_spec(s: Seq<char>) -> Result<MaterialScheme, Error> {
    if s == "monochrome"@ {
        Ok(MaterialScheme::Monochrome)
    } else if s == "neutral"@ {
        Ok(MaterialScheme::Neutral)
    } else if s == "tonal-spot"@ {
        Ok(MaterialScheme::TonalSpot)
    } else if s == "vibrant"@ {
        Ok(MaterialScheme::Vibrant)
    } else if s == "expressive"@ {
        Ok(MaterialScheme::Expressive)
    } else if s == "fidelity"@ {
        Ok(MaterialScheme::Fidelity)
    } else if s == "content"@ {
        Ok(MaterialScheme::Content)
    } else if s == "rainbow"@ {
        Ok(MaterialScheme::Rainbow)
    } else if s == "fruit-salad"@ {
        Ok(MaterialScheme::FruitSalad)
    } else {
        Err(Error::InvalidSchemeVariant)
    }
}

impl MaterialScheme {
    /// Parses a variant name; an unrecognized name is an
    /// `InvalidSchemeVariant` error.
    pub fn from_name(name: &String) -> (r: Result<MaterialScheme, Error>)
        ensures
            r == scheme_from_name_spec(name@),
    {
        if name.eq(&String::from_str("monochrome")) {
            Ok(MaterialScheme::Monochrome)
        } else if name.eq(&String::from_str("neutral")) {
            Ok(MaterialScheme::Neutral)
        } else if name.eq(&String::from_str("tonal-spot")) {
            Ok(MaterialScheme::TonalSpot)
        } else if name.eq(&String::from_str("vibrant")) {
            Ok(MaterialScheme::Vibrant)
        } else if name.eq(&String::from_str("expressive")) {
            Ok(MaterialScheme::Expressive)
        } else if name.eq(&String::from_str("fidelity")) {
            Ok(MaterialScheme::Fidelity)
        } else if name.eq(&String::from_str("content")) {
            Ok(MaterialScheme::Content)
        } else if name.eq(&String::from_str("rainbow")) {
            Ok(MaterialScheme::Rainbow)
        } else if name.eq(&String::from_str("fruit-salad")) {
            Ok(MaterialScheme::FruitSalad)
        } else {
            Err(Error::InvalidSchemeVariant)
        }
    }
}

/// The light role entries, dark role entries and canonical primary key
/// color of the tonal theme generated from a source color and a variant
/// (named by its position).
pub uninterp spec fn theme_of(red: u8, green: u8, blue: u8, variant: int) -> (
    Seq<(Seq<char>, Color)>,
    Seq<(Seq<char>, Color)>,
    Color,
);

/// Whether the named role occurs among scheme entries.
pub open spec fn has_role(entries: Seq<(Seq<char>, Color)>, role: Seq<char>) -> bool {
    exists|i: int| 0 <= i < entries.len() && (#[trigger] entries[i]).0 == role
}

/// The four roles every generated scheme carries that the pipeline's
/// callers name directly.
pub open spec fn has_core_roles(entries: Seq<(Seq<char>, Color)>) -> bool {
    &&& has_role(entries, "primary"@)
    &&& has_role(entries, "on_primary"@)
    &&& has_role(entries, "surface"@)
    &&& has_role(entries, "background"@)
}

/// Relies on `material_colors::theme::ThemeBuilder::build`: deterministic
/// in the source color and variant alone; each generated `Scheme`
/// enumerates its forty-nine named role colors — among them `primary`,
/// `on_primary`, `surface` and `background` — and the primary tonal
/// palette's key color is the scheme's canonical key. The index names the
/// variant in the order the crate declares them.
#[verifier::external_body]
fn build_theme(red: u8, green: u8, blue: u8, idx: u8) -> (r: (
    Vec<(String, Color)>,
    Vec<(String, Color)>,
    Color,
))
    requires
        idx <= 8,
    ensures
        entries_view(r.0@) == theme_of(red, green, blue, idx as int).0,
        entries_view(r.1@) == theme_of(red, green, blue, idx as int).1,
        r.2 == theme_of(red, green, blue, idx as int).2,
        has_core_roles(entries_view(r.0@)),
        has_core_roles(entries_view(r.1@)),
{
    let vs = [Variant::Monochrome, Variant::Neutral, Variant::TonalSpot, Variant::Vibrant,
        Variant::Expressive, Variant::Fidelity, Variant::Content, Variant::Rainbow,
        Variant::FruitSalad];
    let theme = ThemeBuilder::with_source(Argb::new(255, red, green, blue)).variant(vs[idx as usize].clone()).build();
    let cv = |(k, c): (String, Argb)| (k, Color::from_channels(c.alpha, c.red, c.green, c.blue));
    let light = theme.schemes.light.into_iter().map(cv).collect();
    let dark = theme.schemes.dark.into_iter().map(cv).collect();
    (light, dark, cv((String::new(), theme.palettes.primary.key_color().into())).1)
}

/// Generates the light and dark tonal schemes and the canonical key color
/// for a source color and variant.
pub fn generate_scheme(source: &Color, variant: &MaterialScheme) -> (r: (
    Vec<(String, Color)>,
    Vec<(String, Color)>,
    Color,
))
    ensures
        entries_view(r.0@) == theme_of(
            source.red,
            source.green,
            source.blue,
            variant.index_spec(),
        ).0,
        entries_view(r.1@) == theme_of(
            source.red,
            source.green,
            source.blue,
            variant.index_spec(),
        ).1,
        r.2 == theme_of(source.red, source.green, source.blue, variant.index_spec()).2,
        has_core_roles(entries_view(r.0@)),
        has_core_roles(entries_view(r.1@)),
{
    build_theme(source.red, source.green, source.blue, variant.to_index())
}

} // verus!
