//! Sweeping accrued LP fees to designated recipients.

use vstd::prelude::*;

use crate::address::Address;
use crate::errors::ErrorCode;
use crate::pool::Pool;

verus! {

/// The custody transfers a fee distribution requests: `transfer_a` of
/// asset A and `transfer_b` of asset B, each from the pool's treasury to
/// the designated recipient, signed by the pool's delegated custody
/// authority.
#[derive(Clone, Copy, Debug, PartialEq, Eq, Structural)]
pub struct DistributeLpFeeEffects {
    pub transfer_a: u64,
    pub transfer_b: u64,
}

/// Context of a fee distribution: the signer, the configured protocol
/// admin identity, and the pool account the call names.
#[derive(Clone, Copy, Debug, PartialEq, Eq, Structural)]
pub struct DistributeLpFee {
    /// The signer of the call.
    pub owner: Address,
    /// The protocol admin identity, injected at deployment.
    pub admin: Address,
    /// The pool record's own ledger address.
    pub pool_key: Address,
}

impl DistributeLpFee {
    /// Sweep up to `amount_a_requested` of asset A's and
    /// `amount_b_requested` of asset B's accrued LP fees out of the pool.
    /// Only the pool authority or the protocol admin may. Each request is
    /// clamped to what is accrued, never rejected for exceeding it, and
    /// the accrued counters never fall below zero.
    pub fn invoke(
        &self,
        pool: &mut Pool,
        amount_a_requested: u64,
        amount_b_requested: u64,
    ) -> (r: Result<DistributeLpFeeEffects, ErrorCode>)
        ensures
            old(pool).wf() ==> final(pool).wf(),
            self.owner != old(pool).authority && self.owner != self.admin ==> r == Err::<
                DistributeLpFeeEffects,
                ErrorCode,
            >(ErrorCode::Unauthorized),
            r is Err ==> *final(pool) == *old(pool),
            self.owner == old(pool).authority || self.owner == self.admin ==> {
                &&& r matches Ok(eff)
                &&& eff.transfer_a == (if amount_a_requested <= old(pool).lp_fees_mint_a {
                    amount_a_requested
                } else {
                    old(pool).lp_fees_mint_a
                })
                &&& eff.transfer_b == (if amount_b_requested <= old(pool).lp_fees_mint_b {
                    amount_b_requested
                } else {
                    old(pool).lp_fees_mint_b
                })
                &&& *final(pool) == (Pool {
                    lp_fees_mint_a: (old(pool).lp_fees_mint_a - eff.transfer_a) as u64,
                    lp_fees_mint_b: (old(pool).lp_fees_mint_b - eff.transfer_b) as u64,
                    ..*old(pool)
                })
            },
    {
        if self.owner != pool.authority && self.owner != self.admin {
            return Err(ErrorCode::Unauthorized);
        }

        let amount_a: u64 = if amount_a_requested <= pool.lp_fees_mint_a {
            amount_a_requested
        } else {
            pool.lp_fees_mint_a
        };
        let amount_b: u64 = if amount_b_requested <= pool.lp_fees_mint_b {
            amount_b_requested
        } else {
            pool.lp_fees_mint_b
        };

        pool.lp_fees_mint_a = pool.lp_fees_mint_a - amount_a;
        pool.lp_fees_mint_b = pool.lp_fees_mint_b - amount_b;

        Ok(DistributeLpFeeEffects { transfer_a: amount_a, transfer_b: amount_b })
    }
}

} // verus!
