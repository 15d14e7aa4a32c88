//! The fixed-point arithmetic the engine is built on: the integer square
//! root behind share issuance, the scaled-rate formula behind fees and tax,
//! and the proportional-redemption formula.

use vstd::arithmetic::div_mod::{
    lemma_div_is_ordered, lemma_div_multiples_vanish, lemma_div_pos_is_pos,
};
use vstd::arithmetic::mul::{lemma_mul_inequality, lemma_mul_nonnegative};
use vstd::prelude::*;

use crate::constants::PRECISION_U128;

verus! {

/// `r` is the integer square root of `n`, rounded down.
pub open spec fn is_sqrt_floor(n: int, r: int) -> bool {
    &&& 0 <= r
    &&& r * r <= n
    &&& n < (r + 1) * (r + 1)
}

/// `amount` scaled by the fixed-point rate `rate`, rounded down:
/// the LP-fee, referral-fee and tax formula.
pub open spec fn scaled_amount(amount: int, rate: int) -> int {
    (amount * rate) / (PRECISION_U128 as int)
}

/// The share of `reserve` that `lp` share-tokens redeem when `liquidity`
/// share-tokens are outstanding, rounded down.
pub open spec fn redeem_amount(lp: int, reserve: int, liquidity: int) -> int
    recommends
        liquidity > 0,
{
    (lp * reserve) / liquidity
}

/// Relies on `num::integer::Roots::sqrt` for `u128`: it returns the
/// truncated principal square root, the `r` with `r² ≤ n < (r+1)²`
/// (it panics only on a negative receiver, which `u128` never is).
#[verifier::external_body]
pub(crate) fn sqrt_u128(n: u128) -> (r: u128)
    ensures
        is_sqrt_floor(n as int, r as int),
{
    num::integer::Roots::sqrt(&n)
}

/// A number has exactly one integer square root rounded down.
pub proof fn lemma_sqrt_floor_unique(n: int, r1: int, r2: int)
    requires
        is_sqrt_floor(n, r1),
        is_sqrt_floor(n, r2),
    ensures
        r1 == r2,
{
    assert(r1 == r2) by (nonlinear_arith)
        requires
            0 <= r1,
            0 <= r2,
            r1 * r1 <= n,
            n < (r1 + 1) * (r1 + 1),
            r2 * r2 <= n,
            n < (r2 + 1) * (r2 + 1),
    ;
}

/// The integer square root of a positive number is positive.
pub proof fn lemma_sqrt_floor_pos(n: int, r: int)
    requires
        is_sqrt_floor(n, r),
        n >= 1,
    ensures
        r >= 1,
{
    assert(r >= 1) by (nonlinear_arith)
        requires
            0 <= r,
            n < (r + 1) * (r + 1),
            n >= 1,
    ;
}

/// Redeeming never pays out more than the reserve, and redeeming every
/// outstanding share pays out the whole reserve: depositing and then
/// redeeming all shares returns at most what was deposited.
pub proof fn lemma_redeem_round_trip(lp: int, reserve: int, liquidity: int)
    requires
        0 < lp <= liquidity,
        0 <= reserve,
    ensures
        0 <= redeem_amount(lp, reserve, liquidity) <= reserve,
        lp == liquidity ==> redeem_amount(lp, reserve, liquidity) == reserve,
{
    lemma_mul_nonnegative(lp, reserve);
    lemma_div_pos_is_pos(lp * reserve, liquidity);
    lemma_mul_inequality(lp, liquidity, reserve);
    lemma_div_is_ordered(lp * reserve, liquidity * reserve, liquidity);
    lemma_div_multiples_vanish(reserve, liquidity);
}

/// The first deposit's round trip: a deposit of `a` and `b` issues
/// `lp = ⌊√(a·b)⌋ > 0` shares, and redeeming all `lp` of them against the
/// deposited reserves returns exactly `(a, b)` — never more than was
/// deposited, with rounding the only possible loss on partial redemptions.
pub proof fn lemma_issue_then_redeem_all(a: u64, b: u64, lp: u64)
    requires
        a > 0,
        b > 0,
        is_sqrt_floor(a as int * b as int, lp as int),
    ensures
        lp > 0,
        redeem_amount(lp as int, a as int, lp as int) == a,
        redeem_amount(lp as int, b as int, lp as int) == b,
{
    assert(a as int * b as int >= 1) by (nonlinear_arith)
        requires
            a >= 1,
            b >= 1,
    ;
    lemma_sqrt_floor_pos(a as int * b as int, lp as int);
    lemma_redeem_round_trip(lp as int, a as int, lp as int);
    lemma_redeem_round_trip(lp as int, b as int, lp as int);
}

} // verus!
