//! The per-market pool record and its pricing arithmetic.

use vstd::prelude::*;

use crate::address::Address;
use crate::constants::{MAXIMUM_FEE, PRECISION_U128};
use crate::math::{is_sqrt_floor, lemma_sqrt_floor_unique, redeem_amount, scaled_amount, sqrt_u128};

verus! {

/// Lifecycle state of a pool.
///
/// `Canceled` is declared but intentionally reserved: no operation in this
/// design drives a pool there.
#[derive(Clone, Copy, Debug, PartialEq, Eq, Structural)]
pub enum PoolState {
    Uninitialized,
    Initialized,
    Paused,
    Canceled,
}

impl Default for PoolState {
    /// A pool record starts out uninitialized.
    fn default() -> (r: Self)
        ensures
            r is Uninitialized,
    {
        PoolState::Uninitialized
    }
}

/// One trading pair: reserves bookkeeping, fee rates and lifecycle state
/// for a market between asset `mint_a` and asset `mint_b`.
///
/// The custody balances themselves live with the ledger; the record keeps
/// only what pricing needs: the fee amounts accrued but not yet distributed
/// (`lp_fees_mint_a`, `lp_fees_mint_b`), which are held out of the reserves
/// every price is computed against.
#[derive(Clone, Copy, Debug, PartialEq, Eq, Structural)]
pub struct Pool {
    /// Identity allowed to administer this pool.
    pub authority: Address,
    /// The pool-share token type.
    pub lp_mint: Address,
    /// The first traded asset type.
    pub mint_a: Address,
    /// The second traded asset type.
    pub mint_b: Address,
    /// Referral-fee rate, a fixed-point numerator over `PRECISION_U128`.
    /// Stored and bounded, but consumed by no computation in this design.
    pub referral_fee: u64,
    /// LP-fee rate, a fixed-point numerator over `PRECISION_U128`.
    pub lp_fee: u64,
    /// The platform-config record this pool pays its tax under.
    pub tax: Address,
    /// Lifecycle state.
    pub state: PoolState,
    /// LP fees accrued in asset A, owed to liquidity providers.
    pub lp_fees_mint_a: u64,
    /// LP fees accrued in asset B, owed to liquidity providers.
    pub lp_fees_mint_b: u64,
    /// Timestamp of creation.
    pub created_at: i64,
    /// Timestamp of the last mutating operation that records one.
    pub updated_at: i64,
}

impl Pool {
    /// Both fee rates are within the protocol bound. Established by
    /// `initialize` and preserved by every operation.
    pub open spec fn wf(self) -> bool {
        &&& self.lp_fee <= MAXIMUM_FEE
        &&& self.referral_fee <= MAXIMUM_FEE
    }

    /// The direction of a trade against this pool, if the pair matches:
    /// `Some(true)` for A to B, `Some(false)` for B to A, `None` otherwise.
    pub open spec fn direction_spec(self, bid_mint: Address, ask_mint: Address) -> Option<bool> {
        if bid_mint == self.mint_a && ask_mint == self.mint_b {
            Some(true)
        } else if bid_mint == self.mint_b && ask_mint == self.mint_a {
            Some(false)
        } else {
            None
        }
    }

    /// The pool is active: swaps are allowed.
    pub fn is_active(&self) -> (r: bool)
        ensures
            r == (self.state is Initialized),
    {
        self.state == PoolState::Initialized
    }

    /// The pool is paused.
    pub fn is_paused(&self) -> (r: bool)
        ensures
            r == (self.state is Paused),
    {
        self.state == PoolState::Paused
    }

    /// The number of share tokens a deposit of `a` and `b` issues:
    /// the integer square root of the product `a·b`, rounded down.
    ///
    /// The 128-bit intermediate product of two 64-bit amounts cannot
    /// overflow and its root fits back into 64 bits, so the calculation
    /// succeeds on every input.
    pub fn calc_liquidity(a: u64, b: u64) -> (r: Option<u64>)
        ensures
            r matches Some(lp) && is_sqrt_floor(a as int * b as int, lp as int),
    {
        proof {
            assert((a as int) * (b as int) <= (u64::MAX as int) * (u64::MAX as int))
                by (nonlinear_arith)
                requires
                    a <= u64::MAX,
                    b <= u64::MAX,
            ;
        }
        let product: u128 = (a as u128) * (b as u128);
        let root: u128 = sqrt_u128(product);
        proof {
            assert(root <= u64::MAX) by (nonlinear_arith)
                requires
                    (root as int) * (root as int) <= product as int,
                    product <= u128::MAX,
                    root >= 0,
            ;
        }
        Some(root as u64)
    }

    /// The amount of an asset that burning `lp` share tokens redeems, when
    /// `reserve` of the asset backs `liquidity` outstanding share tokens:
    /// `lp · reserve / liquidity`, rounded down. `None` when the 128-bit
    /// intermediate product overflows, when no share tokens are outstanding,
    /// or when the result does not fit in 64 bits.
    pub fn hydrate_liquidity(lp: u64, reserve: u128, liquidity: u64) -> (r: Option<u64>)
        ensures
            r == (if lp as int * reserve as int > u128::MAX as int {
                None::<u64>
            } else if liquidity == 0 {
                None::<u64>
            } else if redeem_amount(lp as int, reserve as int, liquidity as int)
                > u64::MAX as int {
                None::<u64>
            } else {
                Some(redeem_amount(lp as int, reserve as int, liquidity as int) as u64)
            }),
    {
        let product: u128 = match (lp as u128).checked_mul(reserve) {
            Some(p) => p,
            None => {
                return None;
            },
        };
        let quotient: u128 = match product.checked_div(liquidity as u128) {
            Some(q) => q,
            None => {
                return None;
            },
        };
        if quotient > u64::MAX as u128 {
            None
        } else {
            Some(quotient as u64)
        }
    }

    /// The trade direction for a pair of asset types: `Some(true)` when the
    /// pair is (A, B), `Some(false)` when it is (B, A), `None` when the pair
    /// does not match this pool.
    pub fn detect_direction(&self, bid_mint: Address, ask_mint: Address) -> (r: Option<bool>)
        ensures
            r == self.direction_spec(bid_mint, ask_mint),
    {
        if bid_mint == self.mint_a && ask_mint == self.mint_b {
            return Some(true);
        }
        if bid_mint == self.mint_b && ask_mint == self.mint_a {
            return Some(false);
        }
        None
    }

    /// The LP fee withheld from a bid of `bid_amount`:
    /// `bid_amount · lp_fee / PRECISION_U128`, rounded down. `None` only
    /// when the result does not fit in 64 bits, which a rate within
    /// `MAXIMUM_FEE` rules out; within that bound the fee never exceeds
    /// the amount.
    pub fn calc_fee(&self, bid_amount: u64) -> (r: Option<u64>)
        ensures
            r == (if scaled_amount(bid_amount as int, self.lp_fee as int) > u64::MAX as int {
                None::<u64>
            } else {
                Some(scaled_amount(bid_amount as int, self.lp_fee as int) as u64)
            }),
            self.lp_fee <= MAXIMUM_FEE ==> (r matches Some(f) && f <= bid_amount),
    {
        scale_by_rate(bid_amount, self.lp_fee)
    }

    /// The referral share of the LP-fee rate:
    /// `lp_fee · referral_fee / PRECISION_U128`, rounded down. Stored for
    /// future use; no operation in this design consumes it.
    pub fn calc_referral_fee(&self) -> (r: Option<u64>)
        ensures
            r == (if scaled_amount(self.lp_fee as int, self.referral_fee as int)
                > u64::MAX as int {
                None::<u64>
            } else {
                Some(scaled_amount(self.lp_fee as int, self.referral_fee as int) as u64)
            }),
            self.referral_fee <= MAXIMUM_FEE ==> (r matches Some(f) && f <= self.lp_fee),
    {
        scale_by_rate(self.lp_fee, self.referral_fee)
    }

    /// The effective reserves: the custody balances of the two assets with
    /// each side's accrued LP fees held out. The caller answers for the
    /// accounting invariant that a custody balance never falls below the
    /// fees accrued on its side.
    pub fn vault_amount_without_fee(&self, vault_0: u128, vault_1: u128) -> (r: (u128, u128))
        requires
            vault_0 >= self.lp_fees_mint_a,
            vault_1 >= self.lp_fees_mint_b,
        ensures
            r.0 == vault_0 - self.lp_fees_mint_a,
            r.1 == vault_1 - self.lp_fees_mint_b,
    {
        (vault_0 - self.lp_fees_mint_a as u128, vault_1 - self.lp_fees_mint_b as u128)
    }
}

/// Shares issued for a first deposit are a function of the product of the
/// two amounts alone, so issuance is symmetric in the deposited amounts.
pub proof fn lemma_calc_liquidity_symmetric(a: u64, b: u64, lp_ab: u64, lp_ba: u64)
    requires
        is_sqrt_floor(a as int * b as int, lp_ab as int),
        is_sqrt_floor(b as int * a as int, lp_ba as int),
    ensures
        lp_ab == lp_ba,
{
    lemma_sqrt_floor_unique(a as int * b as int, lp_ab as int, lp_ba as int);
}

/// `amount · rate / PRECISION_U128`, rounded down, `None` when the result
/// does not fit in 64 bits. When `rate` is at most `MAXIMUM_FEE` (which
/// equals the fixed-point denominator) the result always fits and is at
/// most `amount`.
pub(crate) fn scale_by_rate(amount: u64, rate: u64) -> (r: Option<u64>)
    ensures
        r == (if scaled_amount(amount as int, rate as int) > u64::MAX as int {
            None::<u64>
        } else {
            Some(scaled_amount(amount as int, rate as int) as u64)
        }),
        rate <= MAXIMUM_FEE ==> (r matches Some(f) && f <= amount),
{
    proof {
        assert((amount as int) * (rate as int) <= (u64::MAX as int) * (u64::MAX as int))
            by (nonlinear_arith)
            requires
                amount <= u64::MAX,
                rate <= u64::MAX,
        ;
        assert(0 <= (amount as int) * (rate as int)) by (nonlinear_arith)
            requires
                amount >= 0,
                rate >= 0,
        ;
        if rate <= MAXIMUM_FEE {
            lemma_scaled_within_rate_bound(amount as int, rate as int);
        }
    }
    let product: u128 = (amount as u128) * (rate as u128);
    let quotient: u128 = product / PRECISION_U128;
    proof {
        vstd::arithmetic::div_mod::lemma_div_pos_is_pos(
            (amount as int) * (rate as int),
            PRECISION_U128 as int,
        );
    }
    if quotient > u64::MAX as u128 {
        None
    } else {
        Some(quotient as u64)
    }
}

/// A rate within the fixed-point denominator scales an amount to at most
/// the amount itself.
proof fn lemma_scaled_within_rate_bound(amount: int, rate: int)
    requires
        0 <= amount,
        0 <= rate <= PRECISION_U128,
    ensures
        0 <= scaled_amount(amount, rate) <= amount,
{
    vstd::arithmetic::mul::lemma_mul_nonnegative(amount, rate);
    vstd::arithmetic::div_mod::lemma_div_pos_is_pos(amount * rate, PRECISION_U128 as int);
    vstd::arithmetic::mul::lemma_mul_inequality(rate, PRECISION_U128 as int, amount);
    assert(amount * rate == rate * amount) by (nonlinear_arith);
    assert(PRECISION_U128 as int * amount == amount * PRECISION_U128 as int)
        by (nonlinear_arith);
    vstd::arithmetic::div_mod::lemma_div_is_ordered(
        amount * rate,
        amount * (PRECISION_U128 as int),
        PRECISION_U128 as int,
    );
    vstd::arithmetic::div_mod::lemma_div_multiples_vanish(amount, PRECISION_U128 as int);
    assert(amount * (PRECISION_U128 as int) == (PRECISION_U128 as int) * amount)
        by (nonlinear_arith);
}

} // verus!
