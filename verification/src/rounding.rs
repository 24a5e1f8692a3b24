//! Rounded integer division.
//!
//! Every fractional quantity in this crate is an exact rational `num / den`
//! with non-negative numerator and positive denominator.  Converting such a
//! value to an integer channel or percentage rounds it to the nearest
//! integer; the two spec functions here fix the two tie-breaking rules the
//! crate uses, and the lemmas relate the rounded value to linear bounds on
//! `num` so that callers never need nonlinear reasoning of their own.
use vstd::prelude::*;

verus! {

use vstd::arithmetic::div_mod::lemma_div_is_ordered;
use vstd::arithmetic::div_mod::lemma_fundamental_div_mod_converse;

/// Nearest integer to `num / den`; a half rounds up.
pub open spec fn round_half_up(num: int, den: int) -> int
    recommends
        den > 0,
{
    (2 * num + den) / (2 * den)
}

/// Nearest integer to `num / den`; a half rounds down.
pub open spec fn round_half_down(num: int, den: int) -> int
    recommends
        den > 0,
{
    (2 * num + den - 1) / (2 * den)
}

/// `round_half_up(num, den) < bound` as soon as `num / den < bound - 1/2`.
pub proof fn lemma_rhu_lt(num: int, den: int, bound: int)
    requires
        den > 0,
        0 <= num,
        2 * num + den < 2 * bound * den,
    ensures
        round_half_up(num, den) < bound,
{
    assert((bound - 1) * (2 * den) + (2 * den - 1) == 2 * bound * den - 1) by (nonlinear_arith);
    lemma_fundamental_div_mod_converse(2 * bound * den - 1, 2 * den, bound - 1, 2 * den - 1);
    lemma_div_is_ordered(2 * num + den, 2 * bound * den - 1, 2 * den);
}

/// `round_half_up(num, den) >= bound` as soon as `num / den >= bound - 1/2`.
pub proof fn lemma_rhu_ge(num: int, den: int, bound: int)
    requires
        den > 0,
        2 * num + den >= 2 * bound * den,
    ensures
        round_half_up(num, den) >= bound,
{
    assert(bound * (2 * den) + 0 == 2 * bound * den) by (nonlinear_arith);
    lemma_fundamental_div_mod_converse(2 * bound * den, 2 * den, bound, 0);
    lemma_div_is_ordered(2 * bound * den, 2 * num + den, 2 * den);
}

/// `round_half_up(num, den) <= bound` as soon as `num <= bound * den`.
pub proof fn lemma_rhu_le(num: int, den: int, bound: int)
    requires
        den > 0,
        0 <= num,
        num <= bound * den,
    ensures
        round_half_up(num, den) <= bound,
{
    assert(2 * num + den < 2 * (bound + 1) * den) by (nonlinear_arith)
        requires
            den > 0,
            num <= bound * den,
    ;
    lemma_rhu_lt(num, den, bound + 1);
}

/// Rounding is the identity on exact multiples of the denominator.
pub proof fn lemma_rhu_exact(k: int, den: int)
    requires
        den > 0,
        0 <= k,
    ensures
        round_half_up(k * den, den) == k,
{
    assert(2 * (k * den) + den >= 2 * k * den) by (nonlinear_arith)
        requires
            den > 0,
    ;
    lemma_rhu_ge(k * den, den, k);
    assert(2 * (k * den) + den < 2 * (k + 1) * den) by (nonlinear_arith)
        requires
            den > 0,
    ;
    lemma_rhu_lt(k * den, den, k + 1);
}

/// `round_half_down(num, den) < bound` as soon as `num / den <= bound - 1/2`.
pub proof fn lemma_rhd_lt(num: int, den: int, bound: int)
    requires
        den > 0,
        0 <= num,
        2 * num + den <= 2 * bound * den,
    ensures
        round_half_down(num, den) < bound,
{
    assert((bound - 1) * (2 * den) + (2 * den - 1) == 2 * bound * den - 1) by (nonlinear_arith);
    lemma_fundamental_div_mod_converse(2 * bound * den - 1, 2 * den, bound - 1, 2 * den - 1);
    lemma_div_is_ordered(2 * num + den - 1, 2 * bound * den - 1, 2 * den);
}

/// `round_half_down(num, den) >= bound` as soon as `num / den > bound - 1/2`.
pub proof fn lemma_rhd_ge(num: int, den: int, bound: int)
    requires
        den > 0,
        2 * num + den > 2 * bound * den,
    ensures
        round_half_down(num, den) >= bound,
{
    assert(bound * (2 * den) + 0 == 2 * bound * den) by (nonlinear_arith);
    lemma_fundamental_div_mod_converse(2 * bound * den, 2 * den, bound, 0);
    lemma_div_is_ordered(2 * bound * den, 2 * num + den - 1, 2 * den);
}

/// `round_half_down(num, den) <= bound` as soon as `num <= bound * den`.
pub proof fn lemma_rhd_le(num: int, den: int, bound: int)
    requires
        den > 0,
        0 <= num,
        num <= bound * den,
    ensures
        round_half_down(num, den) <= bound,
{
    assert(2 * num + den <= 2 * (bound + 1) * den) by (nonlinear_arith)
        requires
            den > 0,
            num <= bound * den,
    ;
    lemma_rhd_lt(num, den, bound + 1);
}

/// Rounding down at a half is also the identity on exact multiples.
pub proof fn lemma_rhd_exact(k: int, den: int)
    requires
        den > 0,
        0 <= k,
    ensures
        round_half_down(k * den, den) == k,
{
    assert(2 * (k * den) + den > 2 * k * den) by (nonlinear_arith)
        requires
            den > 0,
    ;
    lemma_rhd_ge(k * den, den, k);
    assert(2 * (k * den) + den <= 2 * (k + 1) * den) by (nonlinear_arith)
        requires
            den > 0,
    ;
    lemma_rhd_lt(k * den, den, k + 1);
}

/// Executable rounded division, halves up.
pub(crate) fn div_round_half_up(num: u64, den: u64) -> (q: u64)
    requires
        1 <= den <= 0x1000_0000_0000_0000,
        num <= 0x1000_0000_0000_0000,
    ensures
        q == round_half_up(num as int, den as int),
{
    (2 * num + den) / (2 * den)
}

/// Executable rounded division, halves down.
pub(crate) fn div_round_half_down(num: u64, den: u64) -> (q: u64)
    requires
        1 <= den <= 0x1000_0000_0000_0000,
        num <= 0x1000_0000_0000_0000,
    ensures
        q == round_half_down(num as int, den as int),
{
    (2 * num + den - 1) / (2 * den)
}

} // verus!
