//! Half-up rounding of rational values.
//!
//! The final step of an AQI computation rounds a fractional AQI to the
//! nearest whole number, with ties going away from zero. The fractional AQI
//! is always a ratio of two machine integers here, so the rounding is done
//! exactly on the numerator and denominator.

use vstd::arithmetic::div_mod::{
    lemma_div_is_ordered, lemma_div_multiples_vanish, lemma_div_multiples_vanish_fancy,
    lemma_fundamental_div_mod, lemma_mod_bound,
};
use vstd::prelude::*;

verus! {

/// Half-up rounding of the rational number `numerator / denominator`: the
/// nearest integer, with a tie going to the larger integer.
pub open spec fn round_half_up(numerator: int, denominator: int) -> int {
    (2 * numerator + denominator) / (2 * denominator)
}

/// Half-up rounding equals the truncated quotient, plus one exactly when
/// the remainder is at least half of the divisor.
pub proof fn lemma_round_half_up_parts(numerator: int, denominator: int)
    requires
        denominator > 0,
    ensures
        round_half_up(numerator, denominator) == numerator / denominator + if 2 * (numerator
            % denominator) >= denominator {
            1int
        } else {
            0int
        },
{
    let q = numerator / denominator;
    let r = numerator % denominator;
    lemma_fundamental_div_mod(numerator, denominator);
    lemma_mod_bound(numerator, denominator);
    assert((2 * denominator) * q == 2 * (denominator * q)) by (nonlinear_arith);
    if 2 * r >= denominator {
        assert((2 * denominator) * (q + 1) == 2 * (denominator * q) + 2 * denominator)
            by (nonlinear_arith);
        assert(2 * numerator + denominator == (2 * denominator) * (q + 1) + (2 * r - denominator));
        lemma_div_multiples_vanish_fancy(q + 1, 2 * r - denominator, 2 * denominator);
    } else {
        assert(2 * numerator + denominator == (2 * denominator) * q + (2 * r + denominator));
        lemma_div_multiples_vanish_fancy(q, 2 * r + denominator, 2 * denominator);
    }
}

/// Half-up rounding never decreases when the numerator grows and the
/// denominator stays fixed.
pub proof fn lemma_round_half_up_monotonic(n1: int, n2: int, denominator: int)
    requires
        denominator > 0,
        n1 <= n2,
    ensures
        round_half_up(n1, denominator) <= round_half_up(n2, denominator),
{
    lemma_div_is_ordered(2 * n1 + denominator, 2 * n2 + denominator, 2 * denominator);
}

/// A ratio bounded by two integers rounds to a value between those two
/// integers.
pub proof fn lemma_round_half_up_in_range(numerator: int, denominator: int, lo: int, hi: int)
    requires
        denominator > 0,
        lo * denominator <= numerator,
        numerator <= hi * denominator,
    ensures
        lo <= round_half_up(numerator, denominator) <= hi,
{
    assert((2 * denominator) * lo == 2 * (lo * denominator)) by (nonlinear_arith);
    assert((2 * denominator) * hi == 2 * (hi * denominator)) by (nonlinear_arith);
    lemma_div_multiples_vanish_fancy(lo, denominator, 2 * denominator);
    lemma_div_is_ordered(
        (2 * denominator) * lo + denominator,
        2 * numerator + denominator,
        2 * denominator,
    );
    lemma_div_multiples_vanish_fancy(hi, denominator, 2 * denominator);
    lemma_div_is_ordered(
        2 * numerator + denominator,
        (2 * denominator) * hi + denominator,
        2 * denominator,
    );
}

/// A ratio that is exactly halfway between two whole numbers — `whole` plus
/// one half — rounds up, to `whole + 1`.
pub proof fn lemma_round_half_up_tie(numerator: int, denominator: int, whole: int)
    requires
        denominator > 0,
        2 * numerator == (2 * whole + 1) * denominator,
    ensures
        round_half_up(numerator, denominator) == whole + 1,
{
    assert((2 * whole + 1) * denominator + denominator == (2 * denominator) * (whole + 1))
        by (nonlinear_arith);
    lemma_div_multiples_vanish(whole + 1, 2 * denominator);
}

/// Rounds `numerator / denominator` to the nearest whole number, a tie
/// going up.
pub fn round(numerator: u64, denominator: u64) -> (r: u64)
    requires
        denominator > 0,
        2 * numerator + 2 * denominator <= u64::MAX,
    ensures
        r == round_half_up(numerator as int, denominator as int),
{
    (2 * numerator + denominator) / (2 * denominator)
}

/// Rounds `numerator / denominator` exactly as [`round`] does, without ever
/// forming a value larger than the numerator: the quotient is bumped by one
/// when the remainder reaches half the divisor. This is the path for hosts
/// whose arithmetic cannot widen the numerator.
pub fn round_fallback(numerator: u64, denominator: u64) -> (r: u64)
    requires
        denominator > 0,
        numerator < u64::MAX,
    ensures
        r == round_half_up(numerator as int, denominator as int),
{
    let quotient = numerator / denominator;
    let remainder = numerator % denominator;
    proof {
        lemma_round_half_up_parts(numerator as int, denominator as int);
        lemma_fundamental_div_mod(numerator as int, denominator as int);
        lemma_mod_bound(numerator as int, denominator as int);
        assert(denominator * quotient <= numerator) by (nonlinear_arith)
            requires
                numerator == denominator * quotient + remainder,
                remainder >= 0,
        ;
        assert(quotient <= numerator) by (nonlinear_arith)
            requires
                denominator * quotient <= numerator,
                denominator >= 1,
                quotient >= 0,
                numerator >= 0,
        ;
    }
    if remainder >= denominator - remainder {
        quotient + 1
    } else {
        quotient
    }
}

} // verus!
