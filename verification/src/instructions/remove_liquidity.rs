//! Redeeming share tokens for the pool's assets.

use vstd::prelude::*;

use crate::address::Address;
use crate::errors::ErrorCode;
use crate::math::redeem_amount;
use crate::pool::Pool;

verus! {

/// Audit record of a successful redemption.
#[derive(Clone, Copy, Debug, PartialEq, Eq, Structural)]
pub struct RemoveLiquidityEvent {
    pub authority: Address,
    pub pool: Address,
    pub a: u64,
    pub b: u64,
    pub lp: u64,
}

/// The custody movements a redemption requests, in order: `burn_lp` share
/// tokens burned from the caller, then `withdraw_a` of asset A and
/// `withdraw_b` of asset B from the pool's treasuries to the caller,
/// signed by the pool's delegated custody authority.
#[derive(Clone, Copy, Debug, PartialEq, Eq, Structural)]
pub struct RemoveLiquidityEffects {
    pub burn_lp: u64,
    pub withdraw_a: u64,
    pub withdraw_b: u64,
    pub event: RemoveLiquidityEvent,
}

/// Context of a redemption: the signer, the pool account, and what the
/// ledger read for the call: the two treasury balances and the share
/// token's outstanding supply.
#[derive(Clone, Copy, Debug, PartialEq, Eq, Structural)]
pub struct RemoveLiquidity {
    /// The signer of the call.
    pub authority: Address,
    /// The pool record's own ledger address.
    pub pool_key: Address,
    /// Custody balance of asset A.
    pub treasury_a_amount: u64,
    /// Custody balance of asset B.
    pub treasury_b_amount: u64,
    /// Outstanding share-token supply, read before the burn.
    pub lp_supply: u64,
}

impl RemoveLiquidity {
    /// The effective reserve of asset A: the treasury balance with the
    /// accrued fees of that side held out.
    pub open spec fn reserve_a_spec(self, pool: Pool) -> int {
        self.treasury_a_amount - pool.lp_fees_mint_a
    }

    /// The effective reserve of asset B.
    pub open spec fn reserve_b_spec(self, pool: Pool) -> int {
        self.treasury_b_amount - pool.lp_fees_mint_b
    }

    /// The redemption's arithmetic goes through: the effective reserves
    /// are not negative, share tokens are outstanding, and both payouts
    /// fit in 64 bits.
    pub open spec fn arithmetic_ok(self, pool: Pool, lp: u64) -> bool {
        &&& self.reserve_a_spec(pool) >= 0
        &&& self.reserve_b_spec(pool) >= 0
        &&& self.lp_supply > 0
        &&& redeem_amount(lp as int, self.reserve_a_spec(pool), self.lp_supply as int)
            <= u64::MAX as int
        &&& redeem_amount(lp as int, self.reserve_b_spec(pool), self.lp_supply as int)
            <= u64::MAX as int
    }

    /// Burn `lp` share tokens and pay out each asset's effective reserve
    /// in proportion to the outstanding supply, rounded down. `lp` must be
    /// positive; every arithmetic failure, including an effective reserve
    /// that would come out negative, aborts with `Overflow`.
    pub fn invoke(&self, pool: &Pool, lp: u64) -> (r: Result<RemoveLiquidityEffects, ErrorCode>)
        ensures
            lp == 0 ==> r == Err::<RemoveLiquidityEffects, ErrorCode>(ErrorCode::InvalidParams),
            lp != 0 && !self.arithmetic_ok(*pool, lp) ==> r == Err::<
                RemoveLiquidityEffects,
                ErrorCode,
            >(ErrorCode::Overflow),
            lp != 0 && self.arithmetic_ok(*pool, lp) ==> {
                &&& r matches Ok(eff)
                &&& eff.burn_lp == lp
                &&& eff.withdraw_a == redeem_amount(
                    lp as int,
                    self.reserve_a_spec(*pool),
                    self.lp_supply as int,
                )
                &&& eff.withdraw_b == redeem_amount(
                    lp as int,
                    self.reserve_b_spec(*pool),
                    self.lp_supply as int,
                )
                &&& eff.event == (RemoveLiquidityEvent {
                    authority: self.authority,
                    pool: self.pool_key,
                    a: eff.withdraw_a,
                    b: eff.withdraw_b,
                    lp,
                })
            },
    {
        if lp == 0 {
            return Err(ErrorCode::InvalidParams);
        }
        if self.treasury_a_amount < pool.lp_fees_mint_a
            || self.treasury_b_amount < pool.lp_fees_mint_b {
            return Err(ErrorCode::Overflow);
        }

        let (reserve_a, reserve_b) = pool.vault_amount_without_fee(
            self.treasury_a_amount as u128,
            self.treasury_b_amount as u128,
        );

        proof {
            assert((lp as int) * (reserve_a as int) <= (u64::MAX as int) * (u64::MAX as int)
                && (lp as int) * (reserve_b as int) <= (u64::MAX as int) * (u64::MAX as int))
                by (nonlinear_arith)
                requires
                    lp <= u64::MAX,
                    0 <= reserve_a <= u64::MAX,
                    0 <= reserve_b <= u64::MAX,
            ;
        }

        let a: u64 = match Pool::hydrate_liquidity(lp, reserve_a, self.lp_supply) {
            Some(a) => a,
            None => {
                return Err(ErrorCode::Overflow);
            },
        };
        let b: u64 = match Pool::hydrate_liquidity(lp, reserve_b, self.lp_supply) {
            Some(b) => b,
            None => {
                return Err(ErrorCode::Overflow);
            },
        };

        Ok(RemoveLiquidityEffects {
            burn_lp: lp,
            withdraw_a: a,
            withdraw_b: b,
            event: RemoveLiquidityEvent {
                authority: self.authority,
                pool: self.pool_key,
                a,
                b,
                lp,
            },
        })
    }
}

} // verus!
