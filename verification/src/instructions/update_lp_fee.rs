//! Updating a pool's LP-fee rate.

use vstd::prelude::*;

use crate::address::Address;
use crate::constants::MAXIMUM_FEE;
use crate::errors::ErrorCode;
use crate::pool::Pool;

verus! {

/// Audit record of a successful LP-fee update.
#[derive(Clone, Copy, Debug, PartialEq, Eq, Structural)]
pub struct UpdateLPFeeEvent {
    pub authority: Address,
    pub pool: Address,
    pub lp_fee: u64,
    pub updated_at: i64,
}

/// Context of an LP-fee update: the signer and the pool account it names.
#[derive(Clone, Copy, Debug, PartialEq, Eq, Structural)]
pub struct UpdateLPFee {
    /// The signer of the call.
    pub authority: Address,
    /// The pool record's own ledger address.
    pub pool_key: Address,
}

impl UpdateLPFee {
    /// Set `pool`'s LP-fee rate to `lp_fee`. Only the pool authority may,
    /// and the rate is bounded by `MAXIMUM_FEE`. `now` is the ledger
    /// clock's current timestamp.
    pub fn invoke(&self, pool: &mut Pool, lp_fee: u64, now: i64) -> (r: Result<
        UpdateLPFeeEvent,
        ErrorCode,
    >)
        ensures
            old(pool).wf() ==> final(pool).wf(),
            self.authority != old(pool).authority ==> r == Err::<UpdateLPFeeEvent, ErrorCode>(
                ErrorCode::Unauthorized,
            ),
            self.authority == old(pool).authority && lp_fee > MAXIMUM_FEE ==> r == Err::<
                UpdateLPFeeEvent,
                ErrorCode,
            >(ErrorCode::InvalidParams),
            r is Err ==> *final(pool) == *old(pool),
            self.authority == old(pool).authority && lp_fee <= MAXIMUM_FEE ==> {
                &&& *final(pool) == (Pool { lp_fee, updated_at: now, ..*old(pool) })
                &&& r == Ok::<UpdateLPFeeEvent, ErrorCode>(UpdateLPFeeEvent {
                    authority: self.authority,
                    pool: self.pool_key,
                    lp_fee,
                    updated_at: now,
                })
            },
    {
        if self.authority != pool.authority {
            return Err(ErrorCode::Unauthorized);
        }
        if lp_fee > MAXIMUM_FEE {
            return Err(ErrorCode::InvalidParams);
        }

        pool.lp_fee = lp_fee;
        pool.updated_at = now;

        Ok(UpdateLPFeeEvent {
            authority: self.authority,
            pool: self.pool_key,
            lp_fee,
            updated_at: now,
        })
    }
}

} // verus!
