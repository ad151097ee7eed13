//! Pixel channel values, alpha and gamma modes, and conversion between
//! pixel formats.
//!
//! A channel stores one color component at a bit depth, read as a fraction
//! of its largest value. A pixel format fixes the bit depth, the alpha mode
//! (straight or premultiplied) and the gamma mode (linear or sRGB);
//! `Convert::convert` moves a pixel from one format to any other.
use vstd::prelude::*;

pub mod alpha;
pub mod channel;
pub mod format;
pub mod gamma;
pub mod gray;
pub mod mask;
pub mod rgb;
pub mod srgb;

pub use alpha::{AChannel, Opaque, Premultiplied, Straight, Translucent};
pub use channel::{Ch16, Ch8, Channel};
pub use format::{Convert, Format};
pub use gamma::{Linear, Srgb};
pub use gray::{Gray, Gray16, Gray8, GrayAlpha8, GrayAlpha8p, SGray16, SGray8};
pub use mask::{Mask, Mask16, Mask8};
pub use rgb::{
    Rgb, Rgb16, Rgb8, Rgba16, Rgba16p, Rgba8, Rgba8p, SRgb16, SRgb8, SRgba16, SRgba16p, SRgba8,
    SRgba8p,
};

verus! {

} // verus!
