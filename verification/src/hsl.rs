//! HSL: hue in tenths of a degree, saturation and lightness in tenths of a
//! percent.
//!
//! Construction evaluates the standard piecewise formula exactly: with
//! `s`, `l` rescaled to thousandths, the chroma is
//! `(1000 - |2l - 1000|) * s` over a denominator of one million, the middle
//! channel carries the chroma scaled by the sextant weight, and the offset
//! `m = l - c/2` lifts all three; each channel is then scaled to `0..=255`
//! and rounded half up.
use vstd::prelude::*;

verus! {

use vstd::math::abs;
use crate::color::Color;
use crate::color::ColorError;
use crate::rounding::round_half_up;
use crate::rounding::lemma_rhu_le;
use crate::rounding::lemma_rhu_ge;
use crate::rounding::div_round_half_up;
use crate::spaces::max3;
use crate::spaces::min3;
use crate::spaces::max3_of;
use crate::spaces::min3_of;
use crate::spaces::hue_norm;
use crate::spaces::hue_of;
use crate::spaces::hue_rem;
use crate::spaces::hue_tenths;
use crate::spaces::sextant_weight;
use crate::spaces::sextant_rgb;
use crate::spaces::lemma_sextant_weight_bounds;
use vstd::arithmetic::div_mod::lemma_mod_division_less_than_divisor;

/// HSL components: `h` in tenths of a degree (`0..3600`), `s` and `l` in
/// tenths of a percent (`0..=1000`).
#[derive(Clone, Copy, Debug, PartialEq, Eq, Structural)]
pub struct Hsl {
    pub h: u16,
    pub s: u16,
    pub l: u16,
}

/// The HSL chroma numerator, over a denominator of one million.
pub open spec fn hsl_chroma_num(s: int, l: int) -> int {
    (1000 - abs(2 * l - 1000)) * s
}

/// The HSL offset numerator `m = l - c/2`, over six hundred million.
pub open spec fn hsl_m_num(s: int, l: int) -> int {
    600_000 * l - 300 * hsl_chroma_num(s, l)
}

/// The three channels produced from HSL components, each the exact rational
/// channel value rounded half up into `0..=255`.
pub open spec fn spec_hsl_channels(h: int, s: int, l: int) -> (int, int, int) {
    let hn = hue_norm(h);
    let c = hsl_chroma_num(s, l);
    let x = c * sextant_weight(hn);
    let m = hsl_m_num(s, l);
    let p = sextant_rgb(hn, 600 * c, x);
    (
        round_half_up(255 * (p.0 + m), 600_000_000),
        round_half_up(255 * (p.1 + m), 600_000_000),
        round_half_up(255 * (p.2 + m), 600_000_000),
    )
}

/// What constructing from HSL yields: saturation or lightness outside
/// `0..=1000` is rejected; any hue is accepted and reduced into `0..3600`.
pub open spec fn spec_from_hsl(h: int, s: int, l: int) -> Result<Color, ColorError> {
    if 0 <= s <= 1000 && 0 <= l <= 1000 {
        let ch = spec_hsl_channels(h, s, l);
        Ok(Color { r: ch.0 as u8, g: ch.1 as u8, b: ch.2 as u8, a: 1000 })
    } else {
        Err(ColorError::InvalidHslValue)
    }
}

/// Bounds of the HSL numerators: the chroma fits its denominator, the
/// offset is non-negative, and chroma plus offset never exceeds one.
pub proof fn lemma_hsl_nums(s: int, l: int)
    requires
        0 <= s <= 1000,
        0 <= l <= 1000,
    ensures
        0 <= hsl_chroma_num(s, l) <= 1_000_000,
        300 * hsl_chroma_num(s, l) <= 600_000 * l,
        600 * hsl_chroma_num(s, l) + hsl_m_num(s, l) <= 600_000_000,
{
    let f = 1000 - abs(2 * l - 1000);
    assert(0 <= f <= 1000 && f <= 2 * l && f <= 2000 - 2 * l);
    assert(0 <= f * s <= 1_000_000) by (nonlinear_arith)
        requires
            0 <= f <= 1000,
            0 <= s <= 1000,
    ;
    assert(f * s <= 2000 * l) by (nonlinear_arith)
        requires
            0 <= s <= 1000,
            0 <= l <= 1000,
            0 <= f,
            f <= 2 * l,
            f <= 2000 - 2 * l,
    ;
    assert(f * s <= 2_000_000 - 2000 * l) by (nonlinear_arith)
        requires
            0 <= s <= 1000,
            0 <= l <= 1000,
            0 <= f,
            f <= 2 * l,
            f <= 2000 - 2 * l,
    ;
}

/// One channel bound: a sextant numerator plus the offset, rescaled and
/// rounded, stays a byte.
proof fn lemma_channel_range(p: int, m: int)
    requires
        0 <= p,
        0 <= m,
        p + m <= 600_000_000,
    ensures
        0 <= round_half_up(255 * (p + m), 600_000_000) <= 255,
{
    lemma_rhu_ge(255 * (p + m), 600_000_000, 0);
    lemma_rhu_le(255 * (p + m), 600_000_000, 255);
}

/// Channels produced from in-range HSL components are bytes.
pub proof fn lemma_hsl_channels_in_range(h: int, s: int, l: int)
    requires
        0 <= s <= 1000,
        0 <= l <= 1000,
    ensures
        0 <= spec_hsl_channels(h, s, l).0 <= 255,
        0 <= spec_hsl_channels(h, s, l).1 <= 255,
        0 <= spec_hsl_channels(h, s, l).2 <= 255,
{
    lemma_hsl_nums(s, l);
    let hn = hue_norm(h);
    lemma_mod_division_less_than_divisor(h, 3600);
    lemma_sextant_weight_bounds(hn);
    let c = hsl_chroma_num(s, l);
    let w = sextant_weight(hn);
    assert(0 <= c * w <= 600 * c) by (nonlinear_arith)
        requires
            0 <= c,
            0 <= w <= 600,
    ;
    let m = hsl_m_num(s, l);
    let p = sextant_rgb(hn, 600 * c, c * w);
    lemma_channel_range(p.0, m);
    lemma_channel_range(p.1, m);
    lemma_channel_range(p.2, m);
}

impl Color {
    /// A color from HSL components, exactly as [`spec_from_hsl`] describes:
    /// `h` in tenths of a degree (any value; reduced into `0..3600`), `s`
    /// and `l` in tenths of a percent, rejected outside `0..=1000` with
    /// `InvalidHslValue`.
    pub fn from_hsl(h: i32, s: i32, l: i32) -> (res: Result<Color, ColorError>)
        ensures
            res == spec_from_hsl(h as int, s as int, l as int),
            res matches Ok(c) ==> c.wf(),
    {
        if s < 0 || s > 1000 || l < 0 || l > 1000 {
            return Err(ColorError::InvalidHslValue);
        }
        let hn = hue_rem(h);
        let su = s as u64;
        let lu = l as u64;
        let dabs: u64 = if 2 * lu >= 1000 {
            2 * lu - 1000
        } else {
            1000 - 2 * lu
        };
        proof {
            assert((1000 - dabs as int) * su as int <= 1_000_000) by (nonlinear_arith)
                requires
                    0 <= dabs as int <= 1000,
                    0 <= su as int <= 1000,
            ;
        }
        let c: u64 = (1000 - dabs) * su;
        proof {
            assert(c as int == hsl_chroma_num(s as int, l as int));
            lemma_hsl_nums(s as int, l as int);
            lemma_sextant_weight_bounds(hn as int);
        }
        let hm: u64 = (hn as u64) % 1200;
        let w: u64 = if hm >= 600 {
            1200 - hm
        } else {
            hm
        };
        proof {
            assert(w as int == sextant_weight(hn as int));
            assert(c as int * w as int <= 600_000_000) by (nonlinear_arith)
                requires
                    0 <= c as int <= 1_000_000,
                    0 <= w as int <= 600,
            ;
        }
        let x: u64 = c * w;
        let cc: u64 = 600 * c;
        let m: u64 = 600_000 * lu - 300 * c;
        let (pr, pg, pb): (u64, u64, u64) = if hn < 600 {
            (cc, x, 0)
        } else if hn < 1200 {
            (x, cc, 0)
        } else if hn < 1800 {
            (0, cc, x)
        } else if hn < 2400 {
            (0, x, cc)
        } else if hn < 3000 {
            (x, 0, cc)
        } else {
            (cc, 0, x)
        };
        proof {
            lemma_hsl_channels_in_range(h as int, s as int, l as int);
        }
        let rr = div_round_half_up(255 * (pr + m), 600_000_000);
        let gg = div_round_half_up(255 * (pg + m), 600_000_000);
        let bb = div_round_half_up(255 * (pb + m), 600_000_000);
        Ok(Color { r: rr as u8, g: gg as u8, b: bb as u8, a: 1000 })
    }

    /// The HSL view of the stored channels: lightness from the channel
    /// midrange, saturation over the smaller of the two denominators, hue
    /// by the sextant formula; an achromatic color reports hue and
    /// saturation zero.
    pub fn to_hsl(&self) -> (res: Hsl)
        ensures
            (res.h as int, res.s as int, res.l as int) == spec_to_hsl(
                self.r as int,
                self.g as int,
                self.b as int,
            ),
            res.h < 3600,
            res.s <= 1000,
            res.l <= 1000,
    {
        let mx = max3_of(self.r, self.g, self.b);
        let mn = min3_of(self.r, self.g, self.b);
        let d: u64 = (mx - mn) as u64;
        let sum: u64 = mx as u64 + mn as u64;
        proof {
            lemma_rhu_le(1000 * sum as int, 510, 1000);
        }
        let lt = div_round_half_up(1000 * sum, 510);
        if d == 0 {
            Hsl { h: 0, s: 0, l: lt as u16 }
        } else {
            let st = if sum < 255 {
                proof {
                    lemma_rhu_le(1000 * d as int, sum as int, 1000);
                }
                div_round_half_up(1000 * d, sum)
            } else {
                proof {
                    lemma_rhu_le(1000 * d as int, 510 - sum as int, 1000);
                }
                div_round_half_up(1000 * d, 510 - sum)
            };
            let ht = hue_tenths(self.r, self.g, self.b, mx, d);
            Hsl { h: ht as u16, s: st as u16, l: lt as u16 }
        }
    }
}

/// The HSL view of three channels.
pub open spec fn spec_to_hsl(r: int, g: int, b: int) -> (int, int, int) {
    let mx = max3(r, g, b);
    let mn = min3(r, g, b);
    let d = mx - mn;
    let l = round_half_up(1000 * (mx + mn), 510);
    if d == 0 {
        (0, 0, l)
    } else {
        let s = if mx + mn < 255 {
            round_half_up(1000 * d, mx + mn)
        } else {
            round_half_up(1000 * d, 510 - (mx + mn))
        };
        (hue_of(r, g, b, mx, d), s, l)
    }
}

} // verus!
