//! HSV: hue in tenths of a degree, saturation and value in tenths of a
//! percent.
//!
//! Symmetric to HSL with chroma `c = v * s` and offset `m = v - c`.
use vstd::prelude::*;

verus! {

use crate::color::Color;
use crate::color::ColorError;
use crate::rounding::round_half_up;
use crate::rounding::lemma_rhu_le;
use crate::rounding::lemma_rhu_ge;
use crate::rounding::div_round_half_up;
use crate::spaces::max3;
use crate::spaces::min3;
use crate::spaces::max3_of;
use crate::spaces::min3_of;
use crate::spaces::hue_norm;
use crate::spaces::hue_of;
use crate::spaces::hue_rem;
use crate::spaces::hue_tenths;
use crate::spaces::sextant_weight;
use crate::spaces::sextant_rgb;
use crate::spaces::lemma_sextant_weight_bounds;
use vstd::arithmetic::div_mod::lemma_mod_division_less_than_divisor;

/// HSV components: `h` in tenths of a degree (`0..3600`), `s` and `v` in
/// tenths of a percent (`0..=1000`).
#[derive(Clone, Copy, Debug, PartialEq, Eq, Structural)]
pub struct Hsv {
    pub h: u16,
    pub s: u16,
    pub v: u16,
}

/// The HSV chroma numerator, over a denominator of one million.
pub open spec fn hsv_chroma_num(s: int, v: int) -> int {
    v * s
}

/// The HSV offset numerator `m = v - c`, over six hundred million.
pub open spec fn hsv_m_num(s: int, v: int) -> int {
    600_000 * v - 600 * hsv_chroma_num(s, v)
}

/// The three channels produced from HSV components, each the exact rational
/// channel value rounded half up into `0..=255`.
pub open spec fn spec_hsv_channels(h: int, s: int, v: int) -> (int, int, int) {
    let hn = hue_norm(h);
    let c = hsv_chroma_num(s, v);
    let x = c * sextant_weight(hn);
    let m = hsv_m_num(s, v);
    let p = sextant_rgb(hn, 600 * c, x);
    (
        round_half_up(255 * (p.0 + m), 600_000_000),
        round_half_up(255 * (p.1 + m), 600_000_000),
        round_half_up(255 * (p.2 + m), 600_000_000),
    )
}

/// What constructing from HSV yields: saturation or value outside
/// `0..=1000` is rejected; any hue is accepted and reduced into `0..3600`.
pub open spec fn spec_from_hsv(h: int, s: int, v: int) -> Result<Color, ColorError> {
    if 0 <= s <= 1000 && 0 <= v <= 1000 {
        let ch = spec_hsv_channels(h, s, v);
        Ok(Color { r: ch.0 as u8, g: ch.1 as u8, b: ch.2 as u8, a: 1000 })
    } else {
        Err(ColorError::InvalidHsvValue)
    }
}

/// Bounds of the HSV numerators.
pub proof fn lemma_hsv_nums(s: int, v: int)
    requires
        0 <= s <= 1000,
        0 <= v <= 1000,
    ensures
        0 <= hsv_chroma_num(s, v) <= 1_000_000,
        600 * hsv_chroma_num(s, v) <= 600_000 * v,
        600 * hsv_chroma_num(s, v) + hsv_m_num(s, v) <= 600_000_000,
{
    assert(0 <= v * s <= 1_000_000 && 600 * (v * s) <= 600_000 * v) by (nonlinear_arith)
        requires
            0 <= s <= 1000,
            0 <= v <= 1000,
    ;
}

/// One channel bound, as for HSL.
proof fn lemma_channel_range(p: int, m: int)
    requires
        0 <= p,
        0 <= m,
        p + m <= 600_000_000,
    ensures
        0 <= round_half_up(255 * (p + m), 600_000_000) <= 255,
{
    lemma_rhu_ge(255 * (p + m), 600_000_000, 0);
    lemma_rhu_le(255 * (p + m), 600_000_000, 255);
}

/// Channels produced from in-range HSV components are bytes.
pub proof fn lemma_hsv_channels_in_range(h: int, s: int, v: int)
    requires
        0 <= s <= 1000,
        0 <= v <= 1000,
    ensures
        0 <= spec_hsv_channels(h, s, v).0 <= 255,
        0 <= spec_hsv_channels(h, s, v).1 <= 255,
        0 <= spec_hsv_channels(h, s, v).2 <= 255,
{
    lemma_hsv_nums(s, v);
    let hn = hue_norm(h);
    lemma_mod_division_less_than_divisor(h, 3600);
    lemma_sextant_weight_bounds(hn);
    let c = hsv_chroma_num(s, v);
    let w = sextant_weight(hn);
    assert(0 <= c * w <= 600 * c) by (nonlinear_arith)
        requires
            0 <= c,
            0 <= w <= 600,
    ;
    let m = hsv_m_num(s, v);
    let p = sextant_rgb(hn, 600 * c, c * w);
    lemma_channel_range(p.0, m);
    lemma_channel_range(p.1, m);
    lemma_channel_range(p.2, m);
}

impl Color {
    /// A color from HSV components, exactly as [`spec_from_hsv`] describes:
    /// `h` in tenths of a degree (any value; reduced into `0..3600`), `s`
    /// and `v` in tenths of a percent, rejected outside `0..=1000` with
    /// `InvalidHsvValue`.
    pub fn from_hsv(h: i32, s: i32, v: i32) -> (res: Result<Color, ColorError>)
        ensures
            res == spec_from_hsv(h as int, s as int, v as int),
            res matches Ok(c) ==> c.wf(),
    {
        if s < 0 || s > 1000 || v < 0 || v > 1000 {
            return Err(ColorError::InvalidHsvValue);
        }
        let hn = hue_rem(h);
        let su = s as u64;
        let vu = v as u64;
        proof {
            assert(vu as int * su as int <= 1_000_000) by (nonlinear_arith)
                requires
                    0 <= su as int <= 1000,
                    0 <= vu as int <= 1000,
            ;
        }
        let c: u64 = vu * su;
        proof {
            assert(c as int == hsv_chroma_num(s as int, v as int));
            lemma_hsv_nums(s as int, v as int);
            lemma_sextant_weight_bounds(hn as int);
        }
        let hm: u64 = (hn as u64) % 1200;
        let w: u64 = if hm >= 600 {
            1200 - hm
        } else {
            hm
        };
        proof {
            assert(w as int == sextant_weight(hn as int));
            assert(c as int * w as int <= 600_000_000) by (nonlinear_arith)
                requires
                    0 <= c as int <= 1_000_000,
                    0 <= w as int <= 600,
            ;
        }
        let x: u64 = c * w;
        let cc: u64 = 600 * c;
        let m: u64 = 600_000 * vu - 600 * c;
        let (pr, pg, pb): (u64, u64, u64) = if hn < 600 {
            (cc, x, 0)
        } else if hn < 1200 {
            (x, cc, 0)
        } else if hn < 1800 {
            (0, cc, x)
        } else if hn < 2400 {
            (0, x, cc)
        } else if hn < 3000 {
            (x, 0, cc)
        } else {
            (cc, 0, x)
        };
        proof {
            lemma_hsv_channels_in_range(h as int, s as int, v as int);
        }
        let rr = div_round_half_up(255 * (pr + m), 600_000_000);
        let gg = div_round_half_up(255 * (pg + m), 600_000_000);
        let bb = div_round_half_up(255 * (pb + m), 600_000_000);
        Ok(Color { r: rr as u8, g: gg as u8, b: bb as u8, a: 1000 })
    }

    /// The HSV view of the stored channels: value from the maximum,
    /// saturation as spread over maximum, hue by the sextant formula; an
    /// achromatic color reports hue and saturation zero.
    pub fn to_hsv(&self) -> (res: Hsv)
        ensures
            (res.h as int, res.s as int, res.v as int) == spec_to_hsv(
                self.r as int,
                self.g as int,
                self.b as int,
            ),
            res.h < 3600,
            res.s <= 1000,
            res.v <= 1000,
    {
        let mx = max3_of(self.r, self.g, self.b);
        let mn = min3_of(self.r, self.g, self.b);
        let d: u64 = (mx - mn) as u64;
        proof {
            lemma_rhu_le(1000 * mx as int, 255, 1000);
        }
        let vt = div_round_half_up(1000 * (mx as u64), 255);
        if d == 0 {
            Hsv { h: 0, s: 0, v: vt as u16 }
        } else {
            proof {
                lemma_rhu_le(1000 * d as int, mx as int, 1000);
            }
            let st = div_round_half_up(1000 * d, mx as u64);
            let ht = hue_tenths(self.r, self.g, self.b, mx, d);
            Hsv { h: ht as u16, s: st as u16, v: vt as u16 }
        }
    }
}

/// The HSV view of three channels.
pub open spec fn spec_to_hsv(r: int, g: int, b: int) -> (int, int, int) {
    let mx = max3(r, g, b);
    let mn = min3(r, g, b);
    let d = mx - mn;
    let v = round_half_up(1000 * mx, 255);
    if d == 0 {
        (0, 0, v)
    } else {
        (hue_of(r, g, b, mx, d), round_half_up(1000 * d, mx), v)
    }
}

} // verus!
