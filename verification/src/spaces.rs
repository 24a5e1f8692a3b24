//! Machinery shared by the HSL, HSV and CMYK conversions.
//!
//! Hues are tenths of a degree.  A hue entering a constructor is first
//! reduced into `0..3600` (negative inputs are normalized into that range,
//! so `-600` names the same hue as `3000`).  The hue circle then splits into
//! six sextants of 600 tenths each; within a sextant the middle channel
//! carries the chroma scaled by a tent-shaped weight.
use vstd::prelude::*;

verus! {

use vstd::arithmetic::div_mod::lemma_fundamental_div_mod;
use vstd::arithmetic::div_mod::lemma_fundamental_div_mod_converse;
use vstd::arithmetic::div_mod::lemma_mod_division_less_than_divisor;
use vstd::math::abs;
use crate::rounding::round_half_up;
use crate::rounding::lemma_rhu_le;
use crate::rounding::lemma_rhu_lt;
use crate::rounding::div_round_half_up;

/// The largest of three channels.
pub open spec fn max3(a: int, b: int, c: int) -> int {
    if a >= b && a >= c {
        a
    } else if b >= c {
        b
    } else {
        c
    }
}

/// The smallest of three channels.
pub open spec fn min3(a: int, b: int, c: int) -> int {
    if a <= b && a <= c {
        a
    } else if b <= c {
        b
    } else {
        c
    }
}

/// A hue reduced into `0..3600` tenths of a degree.
pub open spec fn hue_norm(h: int) -> int {
    h % 3600
}

/// The tent-shaped sextant weight, in `0..=600`: how much of the chroma the
/// middle channel of the sextant carries at hue `h`.
pub open spec fn sextant_weight(h: int) -> int
    recommends
        0 <= h < 3600,
{
    600 - abs((h % 1200) - 600)
}

/// Distributes the chroma numerator `c` and its weighted companion `x`
/// (both over a common denominator) onto the three channels of the sextant
/// that `h` falls in.
pub open spec fn sextant_rgb(h: int, c: int, x: int) -> (int, int, int)
    recommends
        0 <= h < 3600,
{
    if h < 600 {
        (c, x, 0)
    } else if h < 1200 {
        (x, c, 0)
    } else if h < 1800 {
        (0, c, x)
    } else if h < 2400 {
        (0, x, c)
    } else if h < 3000 {
        (x, 0, c)
    } else {
        (c, 0, x)
    }
}

/// The hue of a color, in tenths of a degree, from its channels, their
/// maximum and the spread `d = max - min`; the channel holding the maximum
/// is found by testing red, then green, then blue.
pub open spec fn hue_of(r: int, g: int, b: int, mx: int, d: int) -> int
    recommends
        d > 0,
{
    if mx == r {
        if g >= b {
            round_half_up(600 * (g - b), d)
        } else {
            round_half_up(600 * (g + 6 * d - b), d)
        }
    } else if mx == g {
        round_half_up(600 * (b + 2 * d - r), d)
    } else {
        round_half_up(600 * (r + 4 * d - g), d)
    }
}

/// Reduces a hue into `0..3600` tenths of a degree, executably.
pub(crate) fn hue_rem(h: i32) -> (hn: u16)
    ensures
        hn as int == hue_norm(h as int),
        hn < 3600,
{
    proof {
        lemma_mod_division_less_than_divisor(h as int, 3600);
    }
    if h >= 0 {
        ((h as u32) % 3600) as u16
    } else {
        let neg: u64 = (-(h as i64)) as u64;
        let k = (neg % 3600) as u16;
        proof {
            let n = neg as int;
            lemma_fundamental_div_mod(n, 3600);
            lemma_mod_division_less_than_divisor(n, 3600);
            let q = n / 3600;
            let r = n % 3600;
            if r == 0 {
                lemma_fundamental_div_mod_converse(h as int, 3600, -q, 0);
            } else {
                lemma_fundamental_div_mod_converse(h as int, 3600, -q - 1, 3600 - r);
            }
        }
        if k == 0 {
            0
        } else {
            3600 - k
        }
    }
}

/// The largest of three channels, executably.
pub(crate) fn max3_of(a: u8, b: u8, c: u8) -> (m: u8)
    ensures
        m as int == max3(a as int, b as int, c as int),
{
    if a >= b && a >= c {
        a
    } else if b >= c {
        b
    } else {
        c
    }
}

/// The smallest of three channels, executably.
pub(crate) fn min3_of(a: u8, b: u8, c: u8) -> (m: u8)
    ensures
        m as int == min3(a as int, b as int, c as int),
{
    if a <= b && a <= c {
        a
    } else if b <= c {
        b
    } else {
        c
    }
}

/// The hue of a color with spread `d > 0`, executably; always below 3600.
pub(crate) fn hue_tenths(r: u8, g: u8, b: u8, mx: u8, d: u64) -> (h: u64)
    requires
        mx as int == max3(r as int, g as int, b as int),
        d == mx as int - min3(r as int, g as int, b as int),
        d >= 1,
    ensures
        h == hue_of(r as int, g as int, b as int, mx as int, d as int),
        h < 3600,
{
    let ru = r as u64;
    let gu = g as u64;
    let bu = b as u64;
    if mx == r {
        if g >= b {
            let num = 600 * (gu - bu);
            proof {
                lemma_rhu_le(num as int, d as int, 600);
            }
            div_round_half_up(num, d)
        } else {
            let num = 600 * (gu + 6 * d - bu);
            proof {
                lemma_rhu_lt(num as int, d as int, 3600);
            }
            div_round_half_up(num, d)
        }
    } else if mx == g {
        let num = 600 * (bu + 2 * d - ru);
        proof {
            lemma_rhu_le(num as int, d as int, 1800);
        }
        div_round_half_up(num, d)
    } else {
        let num = 600 * (ru + 4 * d - gu);
        proof {
            lemma_rhu_le(num as int, d as int, 3000);
        }
        div_round_half_up(num, d)
    }
}

/// Sextant weights never leave `0..=600`.
pub proof fn lemma_sextant_weight_bounds(h: int)
    ensures
        0 <= sextant_weight(h) <= 600,
{
    lemma_mod_division_less_than_divisor(h, 1200);
}

} // verus!
