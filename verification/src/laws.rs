//! Crate-wide laws: properties that relate several operations, stated over
//! the same spec functions the operations' contracts use.
use vstd::prelude::*;

verus! {

use crate::color::Color;
use crate::color::clamp_unit;
use crate::hex::all_hex;
use crate::hex::hex_digit_char;
use crate::hex::hex_triple;
use crate::hex::lemma_hex_digit_round_trip;
use crate::hex::spec_from_hex;
use crate::hex::spec_to_hex;
use crate::hex::strip_hash;
use crate::rounding::lemma_rhd_exact;
use crate::shade::lemma_darken_channel;
use crate::shade::lemma_lighten_channel;
use crate::shade::spec_blend;
use crate::shade::spec_darken;
use crate::shade::spec_lighten;

/// Round-trip: the hex string of any fully opaque RGB triple parses back
/// to the very same color.
pub proof fn lemma_hex_round_trip(r: u8, g: u8, b: u8)
    ensures
        spec_from_hex(spec_to_hex(Color { r, g, b, a: 1000u16 })) == Ok::<
            Color,
            crate::color::ColorError,
        >(Color { r, g, b, a: 1000u16 }),
{
    let c = Color { r, g, b, a: 1000u16 };
    let s0 = spec_to_hex(c);
    let t = hex_triple(r as int, g as int, b as int);
    assert(t =~= seq![
        hex_digit_char(r as int / 16),
        hex_digit_char(r as int % 16),
        hex_digit_char(g as int / 16),
        hex_digit_char(g as int % 16),
        hex_digit_char(b as int / 16),
        hex_digit_char(b as int % 16),
    ]);
    assert(s0[0] == '#');
    assert(strip_hash(s0) =~= t);
    lemma_hex_digit_round_trip(r as int / 16);
    lemma_hex_digit_round_trip(r as int % 16);
    lemma_hex_digit_round_trip(g as int / 16);
    lemma_hex_digit_round_trip(g as int % 16);
    lemma_hex_digit_round_trip(b as int / 16);
    lemma_hex_digit_round_trip(b as int % 16);
    assert(all_hex(t));
    assert(16 * (r as int / 16) + r as int % 16 == r as int);
    assert(16 * (g as int / 16) + g as int % 16 == g as int);
    assert(16 * (b as int / 16) + b as int % 16 == b as int);
}

/// Blend boundary: at ratio zero the blend reproduces the first color
/// exactly, alpha included.
pub proof fn lemma_blend_identity_at_zero(c1: Color, c2: Color)
    requires
        c1.wf(),
    ensures
        spec_blend(c1, c2, 0) == c1,
{
    lemma_rhd_exact(c1.r as int, 1000);
    lemma_rhd_exact(c1.g as int, 1000);
    lemma_rhd_exact(c1.b as int, 1000);
    lemma_rhd_exact(c1.a as int, 1000);
    assert(c1.r as int * (1000 - 0) == c1.r as int * 1000 && c1.g as int * (1000 - 0) == c1.g
        as int * 1000 && c1.b as int * (1000 - 0) == c1.b as int * 1000 && c1.a as int * (1000 - 0)
        == c1.a as int * 1000) by (nonlinear_arith);
    assert(c2.r as int * 0 == 0 && c2.g as int * 0 == 0 && c2.b as int * 0 == 0 && c2.a as int * 0
        == 0) by (nonlinear_arith);
    assert(spec_blend(c1, c2, 0).r == c1.r);
    assert(spec_blend(c1, c2, 0).g == c1.g);
    assert(spec_blend(c1, c2, 0).b == c1.b);
    assert(spec_blend(c1, c2, 0).a == c1.a);
}

/// Blend boundary: at ratio one the blend reproduces the second color
/// exactly, alpha included.
pub proof fn lemma_blend_identity_at_one(c1: Color, c2: Color)
    requires
        c2.wf(),
    ensures
        spec_blend(c1, c2, 1000) == c2,
{
    lemma_rhd_exact(c2.r as int, 1000);
    lemma_rhd_exact(c2.g as int, 1000);
    lemma_rhd_exact(c2.b as int, 1000);
    lemma_rhd_exact(c2.a as int, 1000);
    assert(c1.r as int * (1000 - 1000) == 0 && c1.g as int * (1000 - 1000) == 0 && c1.b as int * (
    1000 - 1000) == 0 && c1.a as int * (1000 - 1000) == 0) by (nonlinear_arith);
    assert(spec_blend(c1, c2, 1000).r == c2.r);
    assert(spec_blend(c1, c2, 1000).g == c2.g);
    assert(spec_blend(c1, c2, 1000).b == c2.b);
    assert(spec_blend(c1, c2, 1000).a == c2.a);
}

/// Darkening monotonicity: no channel ever rises, and a channel drops
/// exactly when its scaled decrease exceeds half a channel unit — so it
/// always drops strictly once `v * p > 500` for the clamped percentage
/// `p` in tenths.
pub proof fn lemma_darken_monotone(c: Color, p: int)
    ensures
        spec_darken(c, p).r <= c.r,
        spec_darken(c, p).g <= c.g,
        spec_darken(c, p).b <= c.b,
        c.r as int * clamp_unit(p) > 500 ==> spec_darken(c, p).r < c.r,
        c.g as int * clamp_unit(p) > 500 ==> spec_darken(c, p).g < c.g,
        c.b as int * clamp_unit(p) > 500 ==> spec_darken(c, p).b < c.b,
        c.r as int * clamp_unit(p) <= 500 ==> spec_darken(c, p).r == c.r,
        c.g as int * clamp_unit(p) <= 500 ==> spec_darken(c, p).g == c.g,
        c.b as int * clamp_unit(p) <= 500 ==> spec_darken(c, p).b == c.b,
{
    lemma_darken_channel(c.r as int, clamp_unit(p));
    lemma_darken_channel(c.g as int, clamp_unit(p));
    lemma_darken_channel(c.b as int, clamp_unit(p));
}

/// Lightening monotonicity: no channel ever drops, and a channel rises
/// exactly when its scaled headroom reaches half a channel unit — so it
/// always rises strictly once `(255 - v) * p >= 500` for the clamped
/// percentage `p` in tenths.
pub proof fn lemma_lighten_monotone(c: Color, p: int)
    ensures
        spec_lighten(c, p).r >= c.r,
        spec_lighten(c, p).g >= c.g,
        spec_lighten(c, p).b >= c.b,
        (255 - c.r as int) * clamp_unit(p) >= 500 ==> spec_lighten(c, p).r > c.r,
        (255 - c.g as int) * clamp_unit(p) >= 500 ==> spec_lighten(c, p).g > c.g,
        (255 - c.b as int) * clamp_unit(p) >= 500 ==> spec_lighten(c, p).b > c.b,
        (255 - c.r as int) * clamp_unit(p) < 500 ==> spec_lighten(c, p).r == c.r,
        (255 - c.g as int) * clamp_unit(p) < 500 ==> spec_lighten(c, p).g == c.g,
        (255 - c.b as int) * clamp_unit(p) < 500 ==> spec_lighten(c, p).b == c.b,
{
    lemma_lighten_channel(c.r as int, clamp_unit(p));
    lemma_lighten_channel(c.g as int, clamp_unit(p));
    lemma_lighten_channel(c.b as int, clamp_unit(p));
}

} // verus!
