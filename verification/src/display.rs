//! Textual forms of the representations.
//!
//! Each view type renders as its conventional functional notation, the
//! fixed-point components printed with one decimal place; a color's own
//! textual form is its hex string.  Each error kind carries a fixed
//! message.
use vstd::prelude::*;

verus! {

use vstd::string::StringExecFns;
use crate::cmyk::Cmyk;
use crate::color::Color;
use crate::color::ColorError;
use crate::color::Rgb;
use crate::hex::spec_to_hex;
use crate::hsl::Hsl;
use crate::hsv::Hsv;
use crate::text::dec_digit_char;
use crate::text::dec_digit_of;
use crate::text::dec_digits;
use crate::text::push_decimal;

/// A quantity in tenths, printed with one decimal place.
pub open spec fn tenths_chars(v: int) -> Seq<char>
    recommends
        v >= 0,
{
    dec_digits(v / 10) + seq!['.', dec_digit_char(v % 10)]
}

/// `rgb(R, G, B)`.
pub open spec fn spec_rgb_display(r: int, g: int, b: int) -> Seq<char> {
    "rgb("@ + dec_digits(r) + ", "@ + dec_digits(g) + ", "@ + dec_digits(b) + ")"@
}

/// `hsl(H.D°, S.D%, L.D%)`.
pub open spec fn spec_hsl_display(h: int, s: int, l: int) -> Seq<char> {
    "hsl("@ + tenths_chars(h) + "°, "@ + tenths_chars(s) + "%, "@ + tenths_chars(l) + "%)"@
}

/// `hsv(H.D°, S.D%, V.D%)`.
pub open spec fn spec_hsv_display(h: int, s: int, v: int) -> Seq<char> {
    "hsv("@ + tenths_chars(h) + "°, "@ + tenths_chars(s) + "%, "@ + tenths_chars(v) + "%)"@
}

/// `cmyk(C.D%, M.D%, Y.D%, K.D%)`.
pub open spec fn spec_cmyk_display(c: int, m: int, y: int, k: int) -> Seq<char> {
    "cmyk("@ + tenths_chars(c) + "%, "@ + tenths_chars(m) + "%, "@ + tenths_chars(y) + "%, "@
        + tenths_chars(k) + "%)"@
}

/// The fixed message of one error kind.
pub open spec fn spec_error_message(e: ColorError) -> Seq<char> {
    match e {
        ColorError::InvalidHexFormat => "Invalid hex color format"@,
        ColorError::InvalidHexLength => "Invalid hex color length"@,
        ColorError::InvalidRgbValue => "RGB values must be between 0 and 255"@,
        ColorError::InvalidHslValue => "Invalid HSL values"@,
        ColorError::InvalidHsvValue => "Invalid HSV values"@,
        ColorError::InvalidCmykValue => "CMYK values must be between 0 and 100"@,
        ColorError::InvalidMinecraftCode => "Invalid Minecraft color code"@,
    }
}

/// Appends a quantity in tenths with one decimal place.
fn push_tenths(out: &mut String, v: u32)
    ensures
        final(out)@ == old(out)@ + tenths_chars(v as int),
{
    push_decimal(out, v / 10);
    out.push('.');
    out.push(dec_digit_of(v % 10));
    assert(out@ =~= old(out)@ + tenths_chars(v as int));
}

impl Rgb {
    /// The `rgb(R, G, B)` form.
    pub fn display(&self) -> (res: String)
        ensures
            res@ == spec_rgb_display(self.r as int, self.g as int, self.b as int),
    {
        let mut out = String::new();
        out.append("rgb(");
        push_decimal(&mut out, self.r as u32);
        out.append(", ");
        push_decimal(&mut out, self.g as u32);
        out.append(", ");
        push_decimal(&mut out, self.b as u32);
        out.append(")");
        proof {
            assert(out@ =~= spec_rgb_display(self.r as int, self.g as int, self.b as int));
        }
        out
    }
}

impl Hsl {
    /// The `hsl(H.D°, S.D%, L.D%)` form.
    pub fn display(&self) -> (res: String)
        ensures
            res@ == spec_hsl_display(self.h as int, self.s as int, self.l as int),
    {
        let mut out = String::new();
        out.append("hsl(");
        push_tenths(&mut out, self.h as u32);
        out.append("°, ");
        push_tenths(&mut out, self.s as u32);
        out.append("%, ");
        push_tenths(&mut out, self.l as u32);
        out.append("%)");
        proof {
            assert(out@ =~= spec_hsl_display(self.h as int, self.s as int, self.l as int));
        }
        out
    }
}

impl Hsv {
    /// The `hsv(H.D°, S.D%, V.D%)` form.
    pub fn display(&self) -> (res: String)
        ensures
            res@ == spec_hsv_display(self.h as int, self.s as int, self.v as int),
    {
        let mut out = String::new();
        out.append("hsv(");
        push_tenths(&mut out, self.h as u32);
        out.append("°, ");
        push_tenths(&mut out, self.s as u32);
        out.append("%, ");
        push_tenths(&mut out, self.v as u32);
        out.append("%)");
        proof {
            assert(out@ =~= spec_hsv_display(self.h as int, self.s as int, self.v as int));
        }
        out
    }
}

impl Cmyk {
    /// The `cmyk(C.D%, M.D%, Y.D%, K.D%)` form.
    pub fn display(&self) -> (res: String)
        ensures
            res@ == spec_cmyk_display(
                self.c as int,
                self.m as int,
                self.y as int,
                self.k as int,
            ),
    {
        let mut out = String::new();
        out.append("cmyk(");
        push_tenths(&mut out, self.c as u32);
        out.append("%, ");
        push_tenths(&mut out, self.m as u32);
        out.append("%, ");
        push_tenths(&mut out, self.y as u32);
        out.append("%, ");
        push_tenths(&mut out, self.k as u32);
        out.append("%)");
        proof {
            assert(out@ =~= spec_cmyk_display(
                self.c as int,
                self.m as int,
                self.y as int,
                self.k as int,
            ));
        }
        out
    }
}

impl Color {
    /// A color's own textual form equals its hex string.
    pub fn display(&self) -> (res: String)
        ensures
            res@ == spec_to_hex(*self),
    {
        self.to_hex()
    }
}

impl ColorError {
    /// The fixed message of this error kind.
    pub fn message(&self) -> (res: String)
        ensures
            res@ == spec_error_message(*self),
    {
        match self {
            ColorError::InvalidHexFormat => "Invalid hex color format".to_owned(),
            ColorError::InvalidHexLength => "Invalid hex color length".to_owned(),
            ColorError::InvalidRgbValue => "RGB values must be between 0 and 255".to_owned(),
            ColorError::InvalidHslValue => "Invalid HSL values".to_owned(),
            ColorError::InvalidHsvValue => "Invalid HSV values".to_owned(),
            ColorError::InvalidCmykValue => "CMYK values must be between 0 and 100".to_owned(),
            ColorError::InvalidMinecraftCode => "Invalid Minecraft color code".to_owned(),
        }
    }
}

} // verus!
