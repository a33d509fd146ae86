//! Derivation of a themed color palette from a base color or from the
//! dominant colors of an image, with hue harmonization of a caller-supplied
//! palette toward the derived key color.

pub mod acquire;
pub mod color;
pub mod error;
pub mod extract;
pub mod harmony;
pub mod hct;
pub mod palette;
pub mod pipeline;
pub mod scheme;
pub mod utils;
pub mod wallpaper;
