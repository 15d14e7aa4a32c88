//! Creating a pool with its first deposit.

use vstd::prelude::*;

use crate::address::Address;
use crate::constants::{CUSTOMED_FEE_BOUND, MAXIMUM_FEE};
use crate::errors::ErrorCode;
use crate::math::is_sqrt_floor;
use crate::pool::{Pool, PoolState};

verus! {

/// Audit record of a successful pool creation.
#[derive(Clone, Copy, Debug, PartialEq, Eq, Structural)]
pub struct InitializeEvent {
    pub authority: Address,
    pub pool: Address,
    pub mint_a: Address,
    pub mint_b: Address,
    pub lp_mint: Address,
    pub a: u64,
    pub b: u64,
    pub lp: u64,
    pub referral_fee: u64,
    pub lp_fee: u64,
    pub tax: Address,
    pub created_at: i64,
}

/// The movements a pool creation requests, in order: `custom_fee_payment`
/// native-currency units from the caller to the fee receiver (zero when no
/// custom rate was asked for), `deposit_a` and `deposit_b` from the caller
/// into the fresh treasuries, then `lp_minted` share tokens minted to the
/// caller by the pool's delegated custody authority.
#[derive(Clone, Copy, Debug, PartialEq, Eq, Structural)]
pub struct InitializeEffects {
    pub custom_fee_payment: u64,
    pub deposit_a: u64,
    pub deposit_b: u64,
    pub lp_minted: u64,
    pub event: InitializeEvent,
}

/// Context of a pool creation: the payer and the fresh accounts the
/// ledger resolved for it.
#[derive(Clone, Copy, Debug, PartialEq, Eq, Structural)]
pub struct Initialize {
    /// The payer; it becomes the pool authority.
    pub authority: Address,
    /// The fresh pool record's own ledger address.
    pub pool_key: Address,
    /// The platform-config record the pool pays its tax under.
    pub platform_config: Address,
    /// The first traded asset type.
    pub mint_a: Address,
    /// The second traded asset type.
    pub mint_b: Address,
    /// The fresh pool-share token type.
    pub lp_mint: Address,
}

impl Initialize {
    /// The caller-supplied values pass validation: distinct asset types,
    /// positive deposits, both rates within `MAXIMUM_FEE`, and a nonzero
    /// side payment whenever the LP-fee rate is above the custom-fee
    /// bound.
    pub open spec fn params_ok(
        self,
        a: u64,
        b: u64,
        referral_fee: u64,
        sol_amount_for_custom_fee: u64,
        lp_fee: u64,
    ) -> bool {
        &&& self.mint_a != self.mint_b
        &&& a > 0
        &&& b > 0
        &&& lp_fee <= MAXIMUM_FEE
        &&& referral_fee <= MAXIMUM_FEE
        &&& (lp_fee > CUSTOMED_FEE_BOUND ==> sol_amount_for_custom_fee > 0)
    }

    /// The pool record a successful creation writes.
    pub open spec fn created_pool_spec(
        self,
        referral_fee: u64,
        lp_fee: u64,
        now: i64,
    ) -> Pool {
        Pool {
            authority: self.authority,
            lp_mint: self.lp_mint,
            mint_a: self.mint_a,
            mint_b: self.mint_b,
            referral_fee,
            lp_fee,
            tax: self.platform_config,
            state: PoolState::Initialized,
            lp_fees_mint_a: 0,
            lp_fees_mint_b: 0,
            created_at: now,
            updated_at: now,
        }
    }

    /// Create the pool, take the first deposit of `a` and `b`, and issue
    /// `⌊√(a·b)⌋` share tokens. An LP-fee rate above `CUSTOMED_FEE_BOUND`
    /// is charged the one-time side payment of `sol_amount_for_custom_fee`
    /// native-currency units, which must then be nonzero. `now` is the
    /// ledger clock's current timestamp.
    pub fn invoke(
        &self,
        a: u64,
        b: u64,
        referral_fee: u64,
        sol_amount_for_custom_fee: u64,
        lp_fee: u64,
        now: i64,
    ) -> (r: Result<(Pool, InitializeEffects), ErrorCode>)
        ensures
            !self.params_ok(a, b, referral_fee, sol_amount_for_custom_fee, lp_fee) ==> r
                == Err::<(Pool, InitializeEffects), ErrorCode>(ErrorCode::InvalidParams),
            self.params_ok(a, b, referral_fee, sol_amount_for_custom_fee, lp_fee) ==> {
                &&& r matches Ok((pool, eff))
                &&& pool == self.created_pool_spec(referral_fee, lp_fee, now)
                &&& pool.wf()
                &&& eff.custom_fee_payment == (if lp_fee > CUSTOMED_FEE_BOUND {
                    sol_amount_for_custom_fee
                } else {
                    0
                })
                &&& eff.deposit_a == a
                &&& eff.deposit_b == b
                &&& is_sqrt_floor(a as int * b as int, eff.lp_minted as int)
                &&& eff.event == (InitializeEvent {
                    authority: self.authority,
                    pool: self.pool_key,
                    mint_a: self.mint_a,
                    mint_b: self.mint_b,
                    lp_mint: self.lp_mint,
                    a,
                    b,
                    lp: eff.lp_minted,
                    referral_fee,
                    lp_fee,
                    tax: self.platform_config,
                    created_at: now,
                })
            },
    {
        if self.mint_a == self.mint_b {
            return Err(ErrorCode::InvalidParams);
        }
        if a == 0 || b == 0 {
            return Err(ErrorCode::InvalidParams);
        }
        if lp_fee > MAXIMUM_FEE {
            return Err(ErrorCode::InvalidParams);
        }
        if referral_fee > MAXIMUM_FEE {
            return Err(ErrorCode::InvalidParams);
        }

        let custom_fee_payment: u64 = if lp_fee > CUSTOMED_FEE_BOUND {
            if sol_amount_for_custom_fee == 0 {
                return Err(ErrorCode::InvalidParams);
            }
            sol_amount_for_custom_fee
        } else {
            0
        };

        let lp: u64 = match Pool::calc_liquidity(a, b) {
            Some(lp) => lp,
            None => {
                return Err(ErrorCode::Overflow);
            },
        };

        let pool = Pool {
            authority: self.authority,
            lp_mint: self.lp_mint,
            mint_a: self.mint_a,
            mint_b: self.mint_b,
            referral_fee,
            lp_fee,
            tax: self.platform_config,
            state: PoolState::Initialized,
            lp_fees_mint_a: 0,
            lp_fees_mint_b: 0,
            created_at: now,
            updated_at: now,
        };

        Ok((
            pool,
            InitializeEffects {
                custom_fee_payment,
                deposit_a: a,
                deposit_b: b,
                lp_minted: lp,
                event: InitializeEvent {
                    authority: self.authority,
                    pool: self.pool_key,
                    mint_a: self.mint_a,
                    mint_b: self.mint_b,
                    lp_mint: self.lp_mint,
                    a,
                    b,
                    lp,
                    referral_fee,
                    lp_fee,
                    tax: self.platform_config,
                    created_at: now,
                },
            },
        ))
    }
}

} // verus!
