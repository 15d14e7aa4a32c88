//! Resuming a paused pool.

use vstd::prelude::*;

use crate::address::Address;
use crate::errors::ErrorCode;
use crate::pool::{Pool, PoolState};

verus! {

/// Audit record of a successful resume.
#[derive(Clone, Copy, Debug, PartialEq, Eq, Structural)]
pub struct ResumeEvent {
    pub authority: Address,
    pub pool: Address,
    pub updated_at: i64,
}

/// Context of a resume call: the signer and the pool account it names.
#[derive(Clone, Copy, Debug, PartialEq, Eq, Structural)]
pub struct Resume {
    /// The signer of the call.
    pub authority: Address,
    /// The pool record's own ledger address.
    pub pool_key: Address,
}

impl Resume {
    /// Resume `pool`. Only the pool authority may; only a paused pool can
    /// be resumed. `now` is the ledger clock's current timestamp.
    pub fn invoke(&self, pool: &mut Pool, now: i64) -> (r: Result<ResumeEvent, ErrorCode>)
        ensures
            old(pool).wf() ==> final(pool).wf(),
            self.authority != old(pool).authority ==> r == Err::<ResumeEvent, ErrorCode>(
                ErrorCode::Unauthorized,
            ),
            self.authority == old(pool).authority && !(old(pool).state is Paused)
                ==> r == Err::<ResumeEvent, ErrorCode>(ErrorCode::InvalidState),
            r is Err ==> *final(pool) == *old(pool),
            self.authority == old(pool).authority && old(pool).state is Paused ==> {
                &&& *final(pool) == (Pool {
                    state: PoolState::Initialized,
                    updated_at: now,
                    ..*old(pool)
                })
                &&& r == Ok::<ResumeEvent, ErrorCode>(ResumeEvent {
                    authority: self.authority,
                    pool: self.pool_key,
                    updated_at: now,
                })
            },
    {
        if self.authority != pool.authority {
            return Err(ErrorCode::Unauthorized);
        }
        if pool.state != PoolState::Paused {
            return Err(ErrorCode::InvalidState);
        }

        pool.state = PoolState::Initialized;
        pool.updated_at = now;

        Ok(ResumeEvent { authority: self.authority, pool: self.pool_key, updated_at: now })
    }
}

} // verus!
