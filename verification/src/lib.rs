//! Exact color conversions between RGB, hexadecimal strings, HSL, HSV, CMYK
//! and a legacy 16-color game-chat code dialect, plus derived operations:
//! luminance, light/dark classification, contrast selection, blending,
//! darkening and lightening, and nearest-match mapping onto the legacy
//! palette.
//!
//! All arithmetic is exact fixed-point integer arithmetic, so every result is
//! fully specified:
//! - channels are 8-bit integers `0..=255`;
//! - alpha and blend ratios are thousandths of unity, `0..=1000`;
//! - hues are tenths of a degree, `0..=3599`;
//! - saturation, lightness, value, CMYK components and darken/lighten
//!   percentages are tenths of a percent, `0..=1000`.
//!
//! Each rounded quantity is pinned to the spec functions of [`rounding`], so
//! the contracts state the produced value exactly; [`laws`] proves the
//! properties that relate several operations.

pub mod cmyk;
pub mod color;
pub mod display;
pub mod hex;
pub mod hsl;
pub mod hsv;
pub mod laws;
pub mod minecraft;
pub mod rounding;
pub mod shade;
pub mod spaces;
pub mod text;

pub use cmyk::Cmyk;
pub use color::ALPHA_OPAQUE;
pub use color::Color;
pub use color::ColorError;
pub use color::Rgb;
pub use hsl::Hsl;
pub use hsv::Hsv;
