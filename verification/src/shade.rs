//! Derived operations: luminance, light/dark classification, contrast
//! selection, linear blending, and darkening/lightening.
use vstd::prelude::*;

verus! {

use crate::color::Color;
use crate::color::clamp_unit;
use crate::rounding::round_half_up;
use crate::rounding::round_half_down;
use crate::rounding::lemma_rhu_le;
use crate::rounding::lemma_rhu_ge;
use crate::rounding::lemma_rhu_lt;
use crate::rounding::lemma_rhd_le;
use crate::rounding::lemma_rhd_ge;
use crate::rounding::div_round_half_up;
use crate::rounding::div_round_half_down;

/// The broadcast-standard weighted channel sum, over a denominator of
/// `255000`: luminance is `0.299 r + 0.587 g + 0.114 b` on channels
/// normalized to `0..=1`.
pub open spec fn luminance_num(c: Color) -> int {
    299 * c.r + 587 * c.g + 114 * c.b
}

/// Dark means the exact luminance lies strictly below one half.
pub open spec fn spec_is_dark(c: Color) -> bool {
    2 * luminance_num(c) < 255_000
}

/// One blended channel: the exact interpolation `a(1 - t) + bt` with the
/// ratio `t` in thousandths, rounded to the nearest integer, halves down.
pub open spec fn blend_channel(a: int, b: int, t: int) -> int {
    round_half_down(a * (1000 - t) + b * t, 1000)
}

/// The blend of two colors at a clamped ratio, channel by channel; alpha is
/// interpolated the same way in thousandths.
pub open spec fn spec_blend(c1: Color, c2: Color, t: int) -> Color {
    let tc = clamp_unit(t);
    Color {
        r: blend_channel(c1.r as int, c2.r as int, tc) as u8,
        g: blend_channel(c1.g as int, c2.g as int, tc) as u8,
        b: blend_channel(c1.b as int, c2.b as int, tc) as u8,
        a: blend_channel(c1.a as int, c2.a as int, tc) as u16,
    }
}

/// One darkened channel: scaled by `1 - p` with `p` in tenths of a percent,
/// rounded half up.
pub open spec fn darken_channel(v: int, p: int) -> int {
    round_half_up(v * (1000 - p), 1000)
}

/// One lightened channel: moved toward 255 by `(255 - v) * p`, rounded
/// half up.
pub open spec fn lighten_channel(v: int, p: int) -> int {
    round_half_up(1000 * v + (255 - v) * p, 1000)
}

/// The darkened color: every channel scaled by the clamped factor, alpha
/// unchanged.
pub open spec fn spec_darken(c: Color, p: int) -> Color {
    let pc = clamp_unit(p);
    Color {
        r: darken_channel(c.r as int, pc) as u8,
        g: darken_channel(c.g as int, pc) as u8,
        b: darken_channel(c.b as int, pc) as u8,
        a: c.a,
    }
}

/// The lightened color: every channel moved toward 255 by the clamped
/// fraction of its headroom, alpha unchanged.
pub open spec fn spec_lighten(c: Color, p: int) -> Color {
    let pc = clamp_unit(p);
    Color {
        r: lighten_channel(c.r as int, pc) as u8,
        g: lighten_channel(c.g as int, pc) as u8,
        b: lighten_channel(c.b as int, pc) as u8,
        a: c.a,
    }
}

/// A blended channel of two in-range inputs is in range: interpolation is a
/// convex combination.
pub proof fn lemma_blend_channel_range(a: int, b: int, t: int, hi: int)
    requires
        0 <= a <= hi,
        0 <= b <= hi,
        0 <= t <= 1000,
    ensures
        0 <= blend_channel(a, b, t) <= hi,
{
    assert(a * (1000 - t) + b * t <= hi * 1000) by (nonlinear_arith)
        requires
            0 <= a <= hi,
            0 <= b <= hi,
            0 <= t <= 1000,
    ;
    assert(0 <= a * (1000 - t) + b * t) by (nonlinear_arith)
        requires
            0 <= a,
            0 <= b,
            0 <= t <= 1000,
    ;
    lemma_rhd_le(a * (1000 - t) + b * t, 1000, hi);
    lemma_rhd_ge(a * (1000 - t) + b * t, 1000, 0);
}

/// Darkening never raises a channel; the precise threshold: the channel
/// drops exactly when the scaled decrease `v * p` exceeds half a unit.
pub proof fn lemma_darken_channel(v: int, p: int)
    requires
        0 <= v <= 255,
        0 <= p <= 1000,
    ensures
        0 <= darken_channel(v, p) <= v,
        v * p > 500 ==> darken_channel(v, p) < v,
        v * p <= 500 ==> darken_channel(v, p) == v,
{
    assert(0 <= v * (1000 - p) && v * (1000 - p) == 1000 * v - v * p && v * p >= 0)
        by (nonlinear_arith)
        requires
            0 <= v,
            0 <= p <= 1000,
    ;
    lemma_rhu_le(v * (1000 - p), 1000, v);
    lemma_rhu_ge(v * (1000 - p), 1000, 0);
    if v * p > 500 {
        lemma_rhu_lt(v * (1000 - p), 1000, v);
    } else {
        lemma_rhu_ge(v * (1000 - p), 1000, v);
    }
}

/// Lightening never lowers a channel; the precise threshold: the channel
/// rises exactly when the scaled headroom `(255 - v) * p` reaches half a
/// unit.
pub proof fn lemma_lighten_channel(v: int, p: int)
    requires
        0 <= v <= 255,
        0 <= p <= 1000,
    ensures
        v <= lighten_channel(v, p) <= 255,
        (255 - v) * p >= 500 ==> lighten_channel(v, p) > v,
        (255 - v) * p < 500 ==> lighten_channel(v, p) == v,
{
    assert((255 - v) * p >= 0 && 1000 * v + (255 - v) * p <= 255_000) by (nonlinear_arith)
        requires
            0 <= v <= 255,
            0 <= p <= 1000,
    ;
    lemma_rhu_le(1000 * v + (255 - v) * p, 1000, 255);
    lemma_rhu_ge(1000 * v + (255 - v) * p, 1000, v);
    if (255 - v) * p >= 500 {
        lemma_rhu_ge(1000 * v + (255 - v) * p, 1000, v + 1);
    } else {
        lemma_rhu_lt(1000 * v + (255 - v) * p, 1000, v + 1);
    }
}

/// One blended channel, executably.
fn blend_channel_of(a: u64, b: u64, t: u64, hi: u64) -> (res: u64)
    requires
        a <= hi,
        b <= hi,
        t <= 1000,
        hi <= 1000,
    ensures
        res == blend_channel(a as int, b as int, t as int),
        res <= hi,
{
    proof {
        lemma_blend_channel_range(a as int, b as int, t as int, hi as int);
        assert(a as int * (1000 - t as int) + b as int * t as int <= 2_000_000)
            by (nonlinear_arith)
            requires
                0 <= a as int <= 1000,
                0 <= b as int <= 1000,
                0 <= t as int <= 1000,
        ;
    }
    div_round_half_down(a * (1000 - t) + b * t, 1000)
}

/// One darkened channel, executably.
fn darken_channel_of(v: u8, p: u64) -> (res: u8)
    requires
        p <= 1000,
    ensures
        res as int == darken_channel(v as int, p as int),
{
    proof {
        lemma_darken_channel(v as int, p as int);
        assert(v as int * (1000 - p as int) <= 255_000) by (nonlinear_arith)
            requires
                0 <= v as int <= 255,
                0 <= 1000 - p as int <= 1000,
        ;
    }
    div_round_half_up((v as u64) * (1000 - p), 1000) as u8
}

/// One lightened channel, executably.
fn lighten_channel_of(v: u8, p: u64) -> (res: u8)
    requires
        p <= 1000,
    ensures
        res as int == lighten_channel(v as int, p as int),
{
    proof {
        lemma_lighten_channel(v as int, p as int);
        assert((255 - v as int) * p as int <= 255_000) by (nonlinear_arith)
            requires
                0 <= 255 - v as int <= 255,
                0 <= p as int <= 1000,
        ;
    }
    div_round_half_up(1000 * (v as u64) + (255 - (v as u64)) * p, 1000) as u8
}

impl Color {
    /// The luminance in thousandths: the weighted sum rescaled to
    /// `0..=1000` and rounded half up.
    pub fn luminance(&self) -> (lum: u32)
        ensures
            lum == round_half_up(luminance_num(*self), 255),
            lum <= 1000,
    {
        let num: u64 = 299 * (self.r as u64) + 587 * (self.g as u64) + 114 * (self.b as u64);
        proof {
            lemma_rhu_le(num as int, 255, 1000);
        }
        div_round_half_up(num, 255) as u32
    }

    /// Whether the exact luminance lies strictly below one half.
    pub fn is_dark(&self) -> (dark: bool)
        ensures
            dark == spec_is_dark(*self),
    {
        let num: u32 = 299 * (self.r as u32) + 587 * (self.g as u32) + 114 * (self.b as u32);
        num < 127_500
    }

    /// The complement of [`Color::is_dark`].
    pub fn is_light(&self) -> (light: bool)
        ensures
            light == !spec_is_dark(*self),
    {
        !self.is_dark()
    }

    /// Pure white for a dark color, pure black for a light one, always
    /// fully opaque.
    pub fn contrasting_text_color(&self) -> (res: Color)
        ensures
            res == (if spec_is_dark(*self) {
                Color { r: 255, g: 255, b: 255, a: 1000 }
            } else {
                Color { r: 0, g: 0, b: 0, a: 1000 }
            }),
            res.wf(),
    {
        if self.is_dark() {
            Color { r: 255, g: 255, b: 255, a: 1000 }
        } else {
            Color { r: 0, g: 0, b: 0, a: 1000 }
        }
    }

    /// The linear blend with `other` at `ratio` thousandths (clamped into
    /// `0..=1000`), exactly as [`spec_blend`] describes.
    pub fn blend(&self, other: &Color, ratio: i32) -> (res: Color)
        requires
            self.wf(),
            other.wf(),
        ensures
            res == spec_blend(*self, *other, ratio as int),
            res.wf(),
    {
        let t: u64 = if ratio < 0 {
            0
        } else if ratio > 1000 {
            1000
        } else {
            ratio as u64
        };
        let rr = blend_channel_of(self.r as u64, other.r as u64, t, 255);
        let gg = blend_channel_of(self.g as u64, other.g as u64, t, 255);
        let bb = blend_channel_of(self.b as u64, other.b as u64, t, 255);
        let aa = blend_channel_of(self.a as u64, other.a as u64, t, 1000);
        Color { r: rr as u8, g: gg as u8, b: bb as u8, a: aa as u16 }
    }

    /// The color darkened by `percentage` tenths of a percent (clamped into
    /// `0..=1000`), exactly as [`spec_darken`] describes; alpha unchanged.
    pub fn darken(&self, percentage: i32) -> (res: Color)
        ensures
            res == spec_darken(*self, percentage as int),
            res.a == self.a,
    {
        let p: u64 = if percentage < 0 {
            0
        } else if percentage > 1000 {
            1000
        } else {
            percentage as u64
        };
        let rr = darken_channel_of(self.r, p);
        let gg = darken_channel_of(self.g, p);
        let bb = darken_channel_of(self.b, p);
        Color { r: rr, g: gg, b: bb, a: self.a }
    }

    /// The color lightened by `percentage` tenths of a percent (clamped
    /// into `0..=1000`), exactly as [`spec_lighten`] describes; alpha
    /// unchanged.
    pub fn lighten(&self, percentage: i32) -> (res: Color)
        ensures
            res == spec_lighten(*self, percentage as int),
            res.a == self.a,
    {
        let p: u64 = if percentage < 0 {
            0
        } else if percentage > 1000 {
            1000
        } else {
            percentage as u64
        };
        let rr = lighten_channel_of(self.r, p);
        let gg = lighten_channel_of(self.g, p);
        let bb = lighten_channel_of(self.b, p);
        Color { r: rr, g: gg, b: bb, a: self.a }
    }
}

} // verus!
