use material_you_derive_palette::error::Error;
use material_you_derive_palette::utils::bug;
use material_you_derive_palette::wallpaper::{
    get, parse_u32_digits, strip_prefix_bytes, wallpaper_dims_ok, wallpaper_extension_ok,
    SessionType,
};

#[test]
fn detect_recognizes_desktops() {
    assert_eq!(SessionType::detect(&"KDE".to_string()), Ok(SessionType::Kde));
    assert_eq!(SessionType::detect(&"GNOME".to_string()), Ok(SessionType::Gnome));
    assert_eq!(SessionType::detect(&"Cinnamon".to_string()), Ok(SessionType::Cinnamon));
    assert_eq!(SessionType::detect(&"XFCE".to_string()), Ok(SessionType::Xfce));
    assert_eq!(SessionType::detect(&"COSMIC".to_string()), Ok(SessionType::Cosmic));
}

#[test]
fn detect_rejects_unknown_desktop() {
    assert_eq!(
        SessionType::detect(&"Sway".to_string()),
        Err(Error::UnsupportedDesktop)
    );
}

#[test]
fn fallback_resolver_is_unsupported() {
    assert_eq!(get(false), Err(Error::UnsupportedPlatform));
    assert_eq!(get(true), Err(Error::UnsupportedPlatform));
}

#[test]
fn strip_prefix_extracts_image_path() {
    let line: Vec<u8> = b"Image: /usr/share/wall".to_vec();
    let prefix: Vec<u8> = b"Image: ".to_vec();
    assert_eq!(
        strip_prefix_bytes(&line, &prefix),
        Some(b"/usr/share/wall".to_vec())
    );
    assert_eq!(strip_prefix_bytes(&b"Wallpaper: x".to_vec(), &prefix), None);
    assert_eq!(strip_prefix_bytes(&b"Ima".to_vec(), &prefix), None);
}

#[test]
fn strip_prefix_handles_file_uri() {
    let uri: Vec<u8> = b"file:///home/user/w.png".to_vec();
    let prefix: Vec<u8> = b"file://".to_vec();
    assert_eq!(
        strip_prefix_bytes(&uri, &prefix),
        Some(b"/home/user/w.png".to_vec())
    );
}

#[test]
fn parse_dimension_numbers() {
    assert_eq!(parse_u32_digits("1920"), Some(1920));
    assert_eq!(parse_u32_digits("0"), Some(0));
    assert_eq!(parse_u32_digits("4294967295"), Some(4294967295));
    assert_eq!(parse_u32_digits("4294967296"), None);
    assert_eq!(parse_u32_digits("99999999999"), None);
    assert_eq!(parse_u32_digits(""), None);
    assert_eq!(parse_u32_digits("12a4"), None);
    assert_eq!(parse_u32_digits("-5"), None);
}

#[test]
fn wallpaper_name_checks() {
    assert!(wallpaper_dims_ok("1920", "1080"));
    assert!(!wallpaper_dims_ok("0", "1080"));
    assert!(!wallpaper_dims_ok("1920", "tall"));
    assert!(wallpaper_extension_ok(&"jpg".to_string()));
    assert!(wallpaper_extension_ok(&"tiff".to_string()));
    assert!(!wallpaper_extension_ok(&"webp".to_string()));
}

#[test]
fn bug_message_carries_identifier() {
    assert_eq!(
        bug("3f2e"),
        "3f2e: This error should not happen, please report"
    );
}
