use material_you_derive_palette::acquire::{calculate_optimal_size, prepare_pixels, PixelBuffer};
use material_you_derive_palette::color::{parse_hex, to_hex, Color};
use material_you_derive_palette::error::Error;
use material_you_derive_palette::extract::dominant_color;
use material_you_derive_palette::harmony::{boost_chroma_tone, clamp_param, harmonize, harmonize_hue};
use material_you_derive_palette::hct::{from_perceptual, to_perceptual};
use material_you_derive_palette::palette::Palette;
use material_you_derive_palette::pipeline::{blend, generate_palette, Args};
use material_you_derive_palette::scheme::{generate_scheme, MaterialScheme};

fn color_of(hex: &str) -> Color {
    parse_hex(&hex.to_string()).expect("valid hex")
}

#[test]
fn parse_hex_rgb() {
    let c = color_of("#112233");
    assert_eq!(c.alpha, 255);
    assert_eq!(c.red, 0x11);
    assert_eq!(c.green, 0x22);
    assert_eq!(c.blue, 0x33);
}

#[test]
fn parse_hex_argb() {
    let c = color_of("#80a1B2c3");
    assert_eq!(c.alpha, 0x80);
    assert_eq!(c.red, 0xa1);
    assert_eq!(c.green, 0xb2);
    assert_eq!(c.blue, 0xc3);
}

#[test]
fn parse_hex_rejects_malformed() {
    for bad in ["112233", "#11223", "#11223g", "", "#", "#1122334455", "#abcde"] {
        assert_eq!(
            parse_hex(&bad.to_string()),
            Err(Error::InvalidColorFormat),
            "{bad} should be rejected"
        );
    }
}

#[test]
fn to_hex_is_lowercase_fixed_width() {
    let c = Color { alpha: 255, red: 0xAB, green: 0x00, blue: 0xEF };
    assert_eq!(to_hex(&c), "#ab00ef");
    assert_eq!(to_hex(&color_of("#6750A4")), "#6750a4");
}

#[test]
fn hex_round_trip_through_parser() {
    for hex in ["#000000", "#ffffff", "#6750a4", "#123456", "#0a0b0c"] {
        assert_eq!(to_hex(&color_of(hex)), hex);
    }
}

#[test]
fn perceptual_round_trip_within_tolerance() {
    for hex in ["#6750a4", "#ff0000", "#00ff00", "#0000ff", "#123456", "#ffffff", "#000000"] {
        let c = color_of(hex);
        let (h, ch, t) = to_perceptual(&c);
        let back = from_perceptual(h, ch, t);
        assert!(
            (back.red as i32 - c.red as i32).abs() <= 1
                && (back.green as i32 - c.green as i32).abs() <= 1
                && (back.blue as i32 - c.blue as i32).abs() <= 1,
            "{hex} -> {} drifted",
            to_hex(&back)
        );
    }
}

#[test]
fn red_hue_is_near_twenty_seven_degrees() {
    let (h, chroma, _) = to_perceptual(&color_of("#ff0000"));
    assert!(h > 200_000 && h < 400_000, "red hue was {h}");
    assert!(chroma > 500_000, "red chroma was {chroma}");
}

#[test]
fn harmonize_hue_zero_strength_keeps_hue() {
    assert_eq!(harmonize_hue(100_000, 900_000, 0, 1_800_000), 100_000);
    assert_eq!(harmonize_hue(3_500_000, 100_000, 0, 1_800_000), 3_500_000);
}

#[test]
fn harmonize_hue_full_strength_reaches_key() {
    assert_eq!(harmonize_hue(100_000, 900_000, 10_000, 1_800_000), 900_000);
    assert_eq!(harmonize_hue(900_000, 100_000, 10_000, 1_800_000), 100_000);
    assert_eq!(harmonize_hue(3_500_000, 100_000, 10_000, 1_800_000), 100_000);
    assert_eq!(harmonize_hue(100_000, 3_500_000, 10_000, 1_800_000), 3_500_000);
}

#[test]
fn harmonize_hue_threshold_caps_rotation() {
    assert_eq!(harmonize_hue(0, 1_000_000, 10_000, 300_000), 300_000);
}

#[test]
fn harmonize_zero_strength_keeps_color_hue() {
    let c = color_of("#2266aa");
    let k = color_of("#ff0000");
    let out = harmonize(&c, &k, 0, 1_800_000);
    let (hc, _, _) = to_perceptual(&c);
    let (ho, _, _) = to_perceptual(&out);
    assert!((hc - ho).abs() <= 2_000, "hue moved from {hc} to {ho}");
}

#[test]
fn clamp_saturates_to_bounds() {
    assert_eq!(clamp_param(50_000, 10_000), clamp_param(10_000, 10_000));
    assert_eq!(clamp_param(-100_000, 1_800_000), clamp_param(0, 1_800_000));
    assert_eq!(clamp_param(7_000, 10_000), 7_000);
}

#[test]
fn optimal_size_never_upscales() {
    assert_eq!(calculate_optimal_size(10, 10, 100), (10, 10));
    assert_eq!(calculate_optimal_size(64, 64, 64), (64, 64));
    assert_eq!(calculate_optimal_size(1, 1, 1), (1, 1));
}

#[test]
fn optimal_size_scales_down_proportionally() {
    assert_eq!(calculate_optimal_size(100, 50, 10), (2, 1));
    assert_eq!(calculate_optimal_size(4000, 2000, 128), (8, 4));
}

#[test]
fn prepare_keeps_small_buffer() {
    let red = color_of("#ff0000");
    let buf = PixelBuffer { width: 2, height: 2, pixels: vec![red; 4] };
    let out = prepare_pixels(&buf, 64);
    assert_eq!(out.len(), 4);
    assert_eq!(out[0], red);
}

#[test]
fn prepare_downscales_large_buffer() {
    let red = color_of("#ff0000");
    let buf = PixelBuffer { width: 4, height: 4, pixels: vec![red; 16] };
    let out = prepare_pixels(&buf, 2);
    assert_eq!(out.len(), 1);
    for p in &out {
        assert!((p.red as i32 - 255).abs() <= 2 && (p.green as i32) <= 2 && (p.blue as i32) <= 2);
    }
}

#[test]
fn dominant_color_of_uniform_buffer() {
    let red = color_of("#ff0000");
    let out = dominant_color(&vec![red; 9]).expect("dominant");
    assert_eq!((out.red, out.green, out.blue), (255, 0, 0));
}

#[test]
fn dominant_color_rejects_empty() {
    assert_eq!(dominant_color(&Vec::new()), Err(Error::EmptyImage));
}

#[test]
fn scheme_from_name_accepts_all_nine() {
    let names = [
        ("monochrome", MaterialScheme::Monochrome),
        ("neutral", MaterialScheme::Neutral),
        ("tonal-spot", MaterialScheme::TonalSpot),
        ("vibrant", MaterialScheme::Vibrant),
        ("expressive", MaterialScheme::Expressive),
        ("fidelity", MaterialScheme::Fidelity),
        ("content", MaterialScheme::Content),
        ("rainbow", MaterialScheme::Rainbow),
        ("fruit-salad", MaterialScheme::FruitSalad),
    ];
    for (name, variant) in names {
        assert_eq!(MaterialScheme::from_name(&name.to_string()), Ok(variant));
    }
}

#[test]
fn scheme_from_name_rejects_unknown() {
    assert_eq!(
        MaterialScheme::from_name(&"pastel".to_string()),
        Err(Error::InvalidSchemeVariant)
    );
}

#[test]
fn scheme_generation_is_deterministic() {
    let c = color_of("#6750a4");
    let a = generate_scheme(&c, &MaterialScheme::TonalSpot);
    let b = generate_scheme(&c, &MaterialScheme::TonalSpot);
    assert_eq!(a.2, b.2);
    assert_eq!(a.0, b.0);
    assert_eq!(a.1, b.1);
    assert_eq!(a.0.len(), 49);
}

#[test]
fn palette_insert_and_get() {
    let mut p = Palette::new();
    p.insert("accent".to_string(), color_of("#112233"));
    assert_eq!(p.get(&"accent".to_string()), Some(color_of("#112233")));
    p.insert("accent".to_string(), color_of("#445566"));
    assert_eq!(p.get(&"accent".to_string()), Some(color_of("#445566")));
    assert_eq!(p.len(), 1);
    assert_eq!(p.get(&"missing".to_string()), None);
}

#[test]
fn compose_overwrites_caller_entry() {
    let mut p = Palette::new();
    p.insert("accent".to_string(), color_of("#112233"));
    p.insert("extra".to_string(), color_of("#777777"));
    let scheme = vec![("accent".to_string(), color_of("#445566"))];
    p.compose(&scheme);
    assert_eq!(p.get(&"accent".to_string()), Some(color_of("#445566")));
    assert_eq!(p.get(&"extra".to_string()), Some(color_of("#777777")));
    assert_eq!(p.len(), 2);
}

fn literal_args(hex: &str, harmony: i64) -> Args {
    Args::new(
        Palette::new(),
        false,
        None,
        64,
        Some(hex.to_string()),
        MaterialScheme::TonalSpot,
        harmony,
        1_800_000,
        0,
    )
}

#[test]
fn end_to_end_literal_color() {
    let p = generate_palette(literal_args("#6750A4", 0)).expect("palette");
    for role in ["primary", "on_primary", "surface", "background"] {
        let c = p.get(&role.to_string()).unwrap_or_else(|| panic!("missing {role}"));
        let hex = to_hex(&c);
        assert_eq!(hex.len(), 7);
        assert!(hex.starts_with('#'));
        assert!(hex[1..].chars().all(|ch| ch.is_ascii_hexdigit()));
    }
}

#[test]
fn pipeline_clamps_out_of_range_strength() {
    let mut a = literal_args("#6750A4", 50_000);
    let mut b = literal_args("#6750A4", 10_000);
    a.base_palette.insert("accent".to_string(), color_of("#112233"));
    b.base_palette.insert("accent".to_string(), color_of("#112233"));
    let pa = generate_palette(a).expect("palette");
    let pb = generate_palette(b).expect("palette");
    assert_eq!(
        pa.get(&"accent".to_string()),
        pb.get(&"accent".to_string())
    );
    assert_eq!(pa.get(&"primary".to_string()), pb.get(&"primary".to_string()));
}

#[test]
fn pipeline_image_and_literal_agree_on_uniform_red() {
    let red = color_of("#ff0000");
    let buf = PixelBuffer { width: 3, height: 3, pixels: vec![red; 9] };
    let from_image = generate_palette(Args::new(
        Palette::new(),
        false,
        Some(buf),
        64,
        None,
        MaterialScheme::TonalSpot,
        0,
        0,
        0,
    ))
    .expect("palette");
    let from_literal = generate_palette(literal_args("#ff0000", 0)).expect("palette");
    assert_eq!(
        from_image.get(&"primary".to_string()),
        from_literal.get(&"primary".to_string())
    );
}

#[test]
fn pipeline_empty_image_fails() {
    let args = Args::new(
        Palette::new(),
        false,
        Some(PixelBuffer { width: 0, height: 0, pixels: Vec::new() }),
        64,
        None,
        MaterialScheme::TonalSpot,
        0,
        0,
        0,
    );
    assert!(matches!(generate_palette(args), Err(Error::EmptyImage)));
}

#[test]
fn pipeline_missing_source_fails() {
    let args = Args::new(
        Palette::new(),
        false,
        None,
        64,
        None,
        MaterialScheme::TonalSpot,
        0,
        0,
        0,
    );
    assert!(matches!(generate_palette(args), Err(Error::MissingColorSource)));
}

#[test]
fn pipeline_invalid_literal_fails() {
    assert!(matches!(
        generate_palette(literal_args("zzz", 0)),
        Err(Error::InvalidColorFormat)
    ));
}

#[test]
fn blend_red_toward_blue_lands_on_shorter_arc() {
    let out = blend(&"#FF0000".to_string(), &"#0000FF".to_string(), 5_000).expect("blend");
    let again = blend(&"#FF0000".to_string(), &"#0000FF".to_string(), 5_000).expect("blend");
    assert_eq!(out, again);
    let (hue, _, _) = to_perceptual(&parse_hex(&out).expect("hex"));
    let (red_hue, _, _) = to_perceptual(&color_of("#ff0000"));
    let (blue_hue, _, _) = to_perceptual(&color_of("#0000ff"));
    assert!(
        hue > blue_hue && hue < red_hue + 3_600_000,
        "blend hue {hue} not between blue {blue_hue} and wrapped red {red_hue}"
    );
}

#[test]
fn blend_rejects_malformed_input() {
    assert_eq!(
        blend(&"red".to_string(), &"#0000FF".to_string(), 5_000),
        Err(Error::InvalidColorFormat)
    );
}

#[test]
fn boost_with_unit_multiplier_keeps_color() {
    let c = color_of("#2266aa");
    let out = boost_chroma_tone(&c, 10_000);
    assert!(
        (out.red as i32 - c.red as i32).abs() <= 1
            && (out.green as i32 - c.green as i32).abs() <= 1
            && (out.blue as i32 - c.blue as i32).abs() <= 1
    );
}

#[test]
fn fg_boost_direction_depends_on_mode() {
    let mut dark_args = literal_args("#6750A4", 0);
    dark_args.dark_mode = true;
    dark_args.fg_boost = 10_000;
    dark_args.base_palette.insert("accent".to_string(), color_of("#2266aa"));
    let mut light_args = literal_args("#6750A4", 0);
    light_args.fg_boost = 10_000;
    light_args.base_palette.insert("accent".to_string(), color_of("#2266aa"));
    let dark_accent = generate_palette(dark_args)
        .expect("palette")
        .get(&"accent".to_string())
        .expect("accent");
    let light_accent = generate_palette(light_args)
        .expect("palette")
        .get(&"accent".to_string())
        .expect("accent");
    let (_, _, dark_tone) = to_perceptual(&dark_accent);
    let (_, _, light_tone) = to_perceptual(&light_accent);
    assert!(
        dark_tone > light_tone,
        "boost should raise tone in dark mode ({dark_tone}) above light mode ({light_tone})"
    );
}
