//! CMYK: four components in tenths of a percent.
//!
//! Construction rescales each component to thousandths and evaluates
//! `channel = 255 * (1 - component) * (1 - k)` exactly, rounding half up.
//! The reverse view takes `k` from the largest channel and, when that is
//! zero (pure black, `k` exactly one), forces the other components to zero.
use vstd::prelude::*;

verus! {

use crate::color::Color;
use crate::color::ColorError;
use crate::rounding::round_half_up;
use crate::rounding::lemma_rhu_le;
use crate::rounding::lemma_rhu_ge;
use crate::rounding::div_round_half_up;
use crate::spaces::max3;
use crate::spaces::max3_of;

/// CMYK components, each in tenths of a percent (`0..=1000`).
#[derive(Clone, Copy, Debug, PartialEq, Eq, Structural)]
pub struct Cmyk {
    pub c: u16,
    pub m: u16,
    pub y: u16,
    pub k: u16,
}

/// One channel produced from a CMYK component and the key, both in tenths
/// of a percent: the exact rational value rounded half up into `0..=255`.
pub open spec fn cmyk_channel(cv: int, k: int) -> int {
    round_half_up(255 * ((1000 - cv) * (1000 - k)), 1_000_000)
}

/// What constructing from CMYK yields: any component outside `0..=1000` is
/// rejected with `InvalidCmykValue`.
pub open spec fn spec_from_cmyk(c: int, m: int, y: int, k: int) -> Result<Color, ColorError> {
    if 0 <= c <= 1000 && 0 <= m <= 1000 && 0 <= y <= 1000 && 0 <= k <= 1000 {
        Ok(
            Color {
                r: cmyk_channel(c, k) as u8,
                g: cmyk_channel(m, k) as u8,
                b: cmyk_channel(y, k) as u8,
                a: 1000,
            },
        )
    } else {
        Err(ColorError::InvalidCmykValue)
    }
}

/// Channels produced from in-range CMYK components are bytes.
pub proof fn lemma_cmyk_channel_in_range(cv: int, k: int)
    requires
        0 <= cv <= 1000,
        0 <= k <= 1000,
    ensures
        0 <= cmyk_channel(cv, k) <= 255,
{
    assert(0 <= (1000 - cv) * (1000 - k) <= 1_000_000) by (nonlinear_arith)
        requires
            0 <= cv <= 1000,
            0 <= k <= 1000,
    ;
    lemma_rhu_ge(255 * ((1000 - cv) * (1000 - k)), 1_000_000, 0);
    lemma_rhu_le(255 * ((1000 - cv) * (1000 - k)), 1_000_000, 255);
}

/// One CMYK channel, executably.
fn cmyk_channel_of(cv: u64, k: u64) -> (ch: u8)
    requires
        cv <= 1000,
        k <= 1000,
    ensures
        ch as int == cmyk_channel(cv as int, k as int),
{
    proof {
        lemma_cmyk_channel_in_range(cv as int, k as int);
        assert((1000 - cv as int) * (1000 - k as int) <= 1_000_000) by (nonlinear_arith)
            requires
                0 <= cv as int <= 1000,
                0 <= k as int <= 1000,
        ;
    }
    let q = div_round_half_up(255 * ((1000 - cv) * (1000 - k)), 1_000_000);
    q as u8
}

impl Color {
    /// A color from CMYK components in tenths of a percent, exactly as
    /// [`spec_from_cmyk`] describes; each component outside `0..=1000` is
    /// rejected with `InvalidCmykValue`.
    pub fn from_cmyk(c: i32, m: i32, y: i32, k: i32) -> (res: Result<Color, ColorError>)
        ensures
            res == spec_from_cmyk(c as int, m as int, y as int, k as int),
            res matches Ok(col) ==> col.wf(),
    {
        if c < 0 || c > 1000 || m < 0 || m > 1000 || y < 0 || y > 1000 || k < 0 || k > 1000 {
            return Err(ColorError::InvalidCmykValue);
        }
        let rr = cmyk_channel_of(c as u64, k as u64);
        let gg = cmyk_channel_of(m as u64, k as u64);
        let bb = cmyk_channel_of(y as u64, k as u64);
        Ok(Color { r: rr, g: gg, b: bb, a: 1000 })
    }

    /// The CMYK view of the stored channels: the key from the largest
    /// channel, the components over the remaining headroom; pure black
    /// reports `(0, 0, 0, 1000)`.
    pub fn to_cmyk(&self) -> (res: Cmyk)
        ensures
            (res.c as int, res.m as int, res.y as int, res.k as int) == spec_to_cmyk(
                self.r as int,
                self.g as int,
                self.b as int,
            ),
            res.c <= 1000,
            res.m <= 1000,
            res.y <= 1000,
            res.k <= 1000,
    {
        let mx = max3_of(self.r, self.g, self.b);
        if mx == 0 {
            Cmyk { c: 0, m: 0, y: 0, k: 1000 }
        } else {
            let mu = mx as u64;
            proof {
                lemma_rhu_le(1000 * (mx as int - self.r as int), mx as int, 1000);
                lemma_rhu_le(1000 * (mx as int - self.g as int), mx as int, 1000);
                lemma_rhu_le(1000 * (mx as int - self.b as int), mx as int, 1000);
                lemma_rhu_le(1000 * (255 - mx as int), 255, 1000);
            }
            let ct = div_round_half_up(1000 * (mu - self.r as u64), mu);
            let mt = div_round_half_up(1000 * (mu - self.g as u64), mu);
            let yt = div_round_half_up(1000 * (mu - self.b as u64), mu);
            let kt = div_round_half_up(1000 * (255 - mu), 255);
            Cmyk { c: ct as u16, m: mt as u16, y: yt as u16, k: kt as u16 }
        }
    }
}

/// The CMYK view of three channels.
pub open spec fn spec_to_cmyk(r: int, g: int, b: int) -> (int, int, int, int) {
    let mx = max3(r, g, b);
    if mx == 0 {
        (0, 0, 0, 1000)
    } else {
        (
            round_half_up(1000 * (mx - r), mx),
            round_half_up(1000 * (mx - g), mx),
            round_half_up(1000 * (mx - b), mx),
            round_half_up(1000 * (255 - mx), 255),
        )
    }
}

} // verus!
