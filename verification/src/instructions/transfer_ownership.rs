//! Reassigning a pool's authority.

use vstd::prelude::*;

use crate::address::Address;
use crate::errors::ErrorCode;
use crate::pool::Pool;

verus! {

/// Audit record of a successful ownership transfer.
#[derive(Clone, Copy, Debug, PartialEq, Eq, Structural)]
pub struct TransferOwnershipEvent {
    pub authority: Address,
    pub new_owner: Address,
    pub pool: Address,
    pub updated_at: i64,
}

/// Context of a transfer-ownership call: the signer and the pool account
/// it names.
#[derive(Clone, Copy, Debug, PartialEq, Eq, Structural)]
pub struct TransferOwnership {
    /// The signer of the call.
    pub authority: Address,
    /// The pool record's own ledger address.
    pub pool_key: Address,
}

impl TransferOwnership {
    /// Hand `pool` to `new_owner`. Only the current pool authority may;
    /// the reassignment itself is unconditional. `now` is the ledger
    /// clock's current timestamp.
    pub fn invoke(&self, pool: &mut Pool, new_owner: Address, now: i64) -> (r: Result<
        TransferOwnershipEvent,
        ErrorCode,
    >)
        ensures
            old(pool).wf() ==> final(pool).wf(),
            self.authority != old(pool).authority ==> r == Err::<
                TransferOwnershipEvent,
                ErrorCode,
            >(ErrorCode::Unauthorized),
            r is Err ==> *final(pool) == *old(pool),
            self.authority == old(pool).authority ==> {
                &&& *final(pool) == (Pool {
                    authority: new_owner,
                    updated_at: now,
                    ..*old(pool)
                })
                &&& r == Ok::<TransferOwnershipEvent, ErrorCode>(TransferOwnershipEvent {
                    authority: self.authority,
                    new_owner,
                    pool: self.pool_key,
                    updated_at: now,
                })
            },
    {
        if self.authority != pool.authority {
            return Err(ErrorCode::Unauthorized);
        }

        pool.authority = new_owner;
        pool.updated_at = now;

        Ok(TransferOwnershipEvent {
            authority: self.authority,
            new_owner,
            pool: self.pool_key,
            updated_at: now,
        })
    }
}

} // verus!
