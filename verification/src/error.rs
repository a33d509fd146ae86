//! The error taxonomy of the palette derivation pipeline.
//!
//! Every failure is terminal for the invocation that raised it: the pipeline
//! fails fast and hands a single error back to the caller.

use vstd::prelude::*;

verus! {

/// Everything that can go wrong while deriving a palette.
#[derive(Clone, Copy, Debug, PartialEq, Eq, Structural)]
pub enum Error {
    /// A color string is not `#RRGGBB` or `#AARRGGBB`.
    InvalidColorFormat,
    /// A scheme variant name is not one of the nine recognized values.
    InvalidSchemeVariant,
    /// Neither an image nor a literal color was supplied.
    MissingColorSource,
    /// An image file could not be decoded.
    ImageDecodeError,
    /// An image file is in a format that is not recognized.
    UnsupportedFormat,
    /// A multi-frame image has no readable frame.
    EmptyFrame,
    /// A pixel buffer holds no pixels.
    EmptyImage,
    /// Scoring the quantized clusters left no surviving candidate.
    NoDominantColor,
    /// The wallpaper of the current desktop could not be resolved.
    WallpaperUnavailable,
    /// The current desktop environment is not recognized.
    UnsupportedDesktop,
    /// Wallpaper resolution is not available on this platform.
    UnsupportedPlatform,
}

} // verus!
