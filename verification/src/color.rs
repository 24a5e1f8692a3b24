//! The `Color` value type, its companions, and the error taxonomy.
//!
//! A color owns three 8-bit channels `r`, `g`, `b` and an alpha channel `a`.
//! Alpha is an opacity stored in thousandths of full opacity, so it ranges
//! over `0..=1000`; every constructor clamps it into that range, which is the
//! one invariant of the type ([`Color::wf`]).  All other representations are
//! transient views produced by the conversion methods.
use vstd::prelude::*;

verus! {

/// Full opacity, in thousandths.
pub const ALPHA_OPAQUE: u16 = 1000;

/// A color: three 8-bit channels plus an alpha channel in thousandths.
#[derive(Clone, Copy, Debug, PartialEq, Eq, Structural)]
pub struct Color {
    pub r: u8,
    pub g: u8,
    pub b: u8,
    /// Opacity in thousandths of full opacity, `0..=1000`.
    pub a: u16,
}

/// A pure projection of the three stored channels.
#[derive(Clone, Copy, Debug, PartialEq, Eq, Structural)]
pub struct Rgb {
    pub r: u8,
    pub g: u8,
    pub b: u8,
}

/// One error kind per validation failure; no payload beyond the kind.
///
/// `InvalidRgbValue` is reserved: channels are 8-bit by construction, so no
/// constructor currently produces it.
#[derive(Clone, Copy, Debug, PartialEq, Eq, Structural)]
pub enum ColorError {
    InvalidHexFormat,
    InvalidHexLength,
    InvalidRgbValue,
    InvalidHslValue,
    InvalidHsvValue,
    InvalidCmykValue,
    InvalidMinecraftCode,
}

impl Color {
    /// The alpha invariant: every constructed color keeps `a` in `0..=1000`.
    pub open spec fn wf(self) -> bool {
        self.a <= 1000
    }
}

/// An integer clamped into the unit range `0..=1000` (thousandths).
pub open spec fn clamp_unit(a: int) -> int {
    if a < 0 {
        0
    } else if a > 1000 {
        1000
    } else {
        a
    }
}

impl Color {
    /// A fully opaque color from three channels.  Always succeeds.
    pub fn from_rgb(r: u8, g: u8, b: u8) -> (c: Color)
        ensures
            c == (Color { r, g, b, a: ALPHA_OPAQUE }),
            c.wf(),
    {
        Color { r, g, b, a: ALPHA_OPAQUE }
    }

    /// A color from three channels and an alpha in thousandths; alpha is
    /// clamped into `0..=1000`, never rejected.  Always succeeds.
    pub fn from_rgba(r: u8, g: u8, b: u8, a: i32) -> (c: Color)
        ensures
            c.r == r && c.g == g && c.b == b,
            c.a == clamp_unit(a as int),
            c.wf(),
    {
        let clamped: u16 = if a < 0 {
            0
        } else if a > 1000 {
            1000
        } else {
            a as u16
        };
        Color { r, g, b, a: clamped }
    }

    /// Projects the stored channels.
    pub fn to_rgb(&self) -> (rgb: Rgb)
        ensures
            rgb == (Rgb { r: self.r, g: self.g, b: self.b }),
    {
        Rgb { r: self.r, g: self.g, b: self.b }
    }

    /// Pure black, fully opaque.
    pub fn black() -> (c: Color)
        ensures
            c == (Color { r: 0u8, g: 0u8, b: 0u8, a: 1000u16 }),
    {
        Color { r: 0, g: 0, b: 0, a: 1000 }
    }

    /// Pure white, fully opaque.
    pub fn white() -> (c: Color)
        ensures
            c == (Color { r: 255u8, g: 255u8, b: 255u8, a: 1000u16 }),
    {
        Color { r: 255, g: 255, b: 255, a: 1000 }
    }

    /// Pure red, fully opaque.
    pub fn red() -> (c: Color)
        ensures
            c == (Color { r: 255u8, g: 0u8, b: 0u8, a: 1000u16 }),
    {
        Color { r: 255, g: 0, b: 0, a: 1000 }
    }

    /// Pure green, fully opaque.
    pub fn green() -> (c: Color)
        ensures
            c == (Color { r: 0u8, g: 255u8, b: 0u8, a: 1000u16 }),
    {
        Color { r: 0, g: 255, b: 0, a: 1000 }
    }

    /// Pure blue, fully opaque.
    pub fn blue() -> (c: Color)
        ensures
            c == (Color { r: 0u8, g: 0u8, b: 255u8, a: 1000u16 }),
    {
        Color { r: 0, g: 0, b: 255, a: 1000 }
    }

    /// Yellow, fully opaque.
    pub fn yellow() -> (c: Color)
        ensures
            c == (Color { r: 255u8, g: 255u8, b: 0u8, a: 1000u16 }),
    {
        Color { r: 255, g: 255, b: 0, a: 1000 }
    }

    /// Cyan, fully opaque.
    pub fn cyan() -> (c: Color)
        ensures
            c == (Color { r: 0u8, g: 255u8, b: 255u8, a: 1000u16 }),
    {
        Color { r: 0, g: 255, b: 255, a: 1000 }
    }

    /// Magenta, fully opaque.
    pub fn magenta() -> (c: Color)
        ensures
            c == (Color { r: 255u8, g: 0u8, b: 255u8, a: 1000u16 }),
    {
        Color { r: 255, g: 0, b: 255, a: 1000 }
    }
}

} // verus!
