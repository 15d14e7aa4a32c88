//! Updating a pool's referral-fee rate.

use vstd::prelude::*;

use crate::address::Address;
use crate::constants::MAXIMUM_FEE;
use crate::errors::ErrorCode;
use crate::pool::Pool;

verus! {

/// Audit record of a successful referral-fee update.
#[derive(Clone, Copy, Debug, PartialEq, Eq, Structural)]
pub struct UpdateReferralFeeEvent {
    pub authority: Address,
    pub pool: Address,
    pub referral_fee: u64,
    pub updated_at: i64,
}

/// Context of a referral-fee update: the signer and the pool account it
/// names.
#[derive(Clone, Copy, Debug, PartialEq, Eq, Structural)]
pub struct UpdateReferralFee {
    /// The signer of the call.
    pub authority: Address,
    /// The pool record's own ledger address.
    pub pool_key: Address,
}

impl UpdateReferralFee {
    /// Set `pool`'s referral-fee rate to `referral_fee`. Only the pool
    /// authority may, and the rate is bounded by `MAXIMUM_FEE`. `now` is
    /// the ledger clock's current timestamp.
    pub fn invoke(&self, pool: &mut Pool, referral_fee: u64, now: i64) -> (r: Result<
        UpdateReferralFeeEvent,
        ErrorCode,
    >)
        ensures
            old(pool).wf() ==> final(pool).wf(),
            self.authority != old(pool).authority ==> r == Err::<
                UpdateReferralFeeEvent,
                ErrorCode,
            >(ErrorCode::Unauthorized),
            self.authority == old(pool).authority && referral_fee > MAXIMUM_FEE ==> r == Err::<
                UpdateReferralFeeEvent,
                ErrorCode,
            >(ErrorCode::InvalidParams),
            r is Err ==> *final(pool) == *old(pool),
            self.authority == old(pool).authority && referral_fee <= MAXIMUM_FEE ==> {
                &&& *final(pool) == (Pool { referral_fee, updated_at: now, ..*old(pool) })
                &&& r == Ok::<UpdateReferralFeeEvent, ErrorCode>(UpdateReferralFeeEvent {
                    authority: self.authority,
                    pool: self.pool_key,
                    referral_fee,
                    updated_at: now,
                })
            },
    {
        if self.authority != pool.authority {
            return Err(ErrorCode::Unauthorized);
        }
        if referral_fee > MAXIMUM_FEE {
            return Err(ErrorCode::InvalidParams);
        }

        pool.referral_fee = referral_fee;
        pool.updated_at = now;

        Ok(UpdateReferralFeeEvent {
            authority: self.authority,
            pool: self.pool_key,
            referral_fee,
            updated_at: now,
        })
    }
}

} // verus!
