//! Depositing liquidity into an existing pool.

use vstd::prelude::*;

use crate::address::Address;
use crate::errors::ErrorCode;
use crate::math::is_sqrt_floor;
use crate::pool::Pool;

verus! {

/// Audit record of a successful deposit.
#[derive(Clone, Copy, Debug, PartialEq, Eq, Structural)]
pub struct AddLiquidityEvent {
    pub authority: Address,
    pub pool: Address,
    pub a: u64,
    pub b: u64,
    pub lp: u64,
}

/// The custody movements a deposit requests, in order: `deposit_a` of
/// asset A and `deposit_b` of asset B from the caller into the pool's
/// treasuries, then `lp_minted` share tokens minted to the caller by the
/// pool's delegated custody authority.
#[derive(Clone, Copy, Debug, PartialEq, Eq, Structural)]
pub struct AddLiquidityEffects {
    pub deposit_a: u64,
    pub deposit_b: u64,
    pub lp_minted: u64,
    pub event: AddLiquidityEvent,
}

/// Context of a deposit: the signer and the pool account it names. The
/// ledger has already checked that the named asset accounts belong to
/// this pool.
#[derive(Clone, Copy, Debug, PartialEq, Eq, Structural)]
pub struct AddLiquidity {
    /// The signer of the call.
    pub authority: Address,
    /// The pool record's own ledger address.
    pub pool_key: Address,
}

impl AddLiquidity {
    /// Deposit `a` of asset A and `b` of asset B and issue
    /// `⌊√(a·b)⌋` share tokens in return. Both amounts must be positive.
    ///
    /// This design issues by the same square-root formula as the first
    /// deposit, regardless of the pool's existing reserves and share
    /// supply; it does not issue proportionally to the reserves.
    pub fn invoke(&self, a: u64, b: u64) -> (r: Result<AddLiquidityEffects, ErrorCode>)
        ensures
            a == 0 || b == 0 ==> r == Err::<AddLiquidityEffects, ErrorCode>(
                ErrorCode::InvalidParams,
            ),
            a > 0 && b > 0 ==> {
                &&& r matches Ok(eff)
                &&& eff.deposit_a == a
                &&& eff.deposit_b == b
                &&& is_sqrt_floor(a as int * b as int, eff.lp_minted as int)
                &&& eff.event == (AddLiquidityEvent {
                    authority: self.authority,
                    pool: self.pool_key,
                    a,
                    b,
                    lp: eff.lp_minted,
                })
            },
    {
        if a == 0 || b == 0 {
            return Err(ErrorCode::InvalidParams);
        }

        let lp: u64 = match Pool::calc_liquidity(a, b) {
            Some(lp) => lp,
            None => {
                return Err(ErrorCode::Overflow);
            },
        };

        Ok(AddLiquidityEffects {
            deposit_a: a,
            deposit_b: b,
            lp_minted: lp,
            event: AddLiquidityEvent {
                authority: self.authority,
                pool: self.pool_key,
                a,
                b,
                lp,
            },
        })
    }
}

} // verus!
