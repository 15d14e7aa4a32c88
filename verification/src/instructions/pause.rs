//! Pausing an active pool.

use vstd::prelude::*;

use crate::address::Address;
use crate::errors::ErrorCode;
use crate::pool::{Pool, PoolState};

verus! {

/// Audit record of a successful pause.
#[derive(Clone, Copy, Debug, PartialEq, Eq, Structural)]
pub struct PauseEvent {
    pub authority: Address,
    pub pool: Address,
    pub updated_at: i64,
}

/// Context of a pause call: the signer and the pool account it names.
#[derive(Clone, Copy, Debug, PartialEq, Eq, Structural)]
pub struct Pause {
    /// The signer of the call.
    pub authority: Address,
    /// The pool record's own ledger address.
    pub pool_key: Address,
}

impl Pause {
    /// Pause `pool`. Only the pool authority may; only an initialized pool
    /// can be paused. `now` is the ledger clock's current timestamp.
    pub fn invoke(&self, pool: &mut Pool, now: i64) -> (r: Result<PauseEvent, ErrorCode>)
        ensures
            old(pool).wf() ==> final(pool).wf(),
            self.authority != old(pool).authority ==> r == Err::<PauseEvent, ErrorCode>(
                ErrorCode::Unauthorized,
            ),
            self.authority == old(pool).authority && !(old(pool).state is Initialized)
                ==> r == Err::<PauseEvent, ErrorCode>(ErrorCode::InvalidState),
            r is Err ==> *final(pool) == *old(pool),
            self.authority == old(pool).authority && old(pool).state is Initialized ==> {
                &&& *final(pool) == (Pool {
                    state: PoolState::Paused,
                    updated_at: now,
                    ..*old(pool)
                })
                &&& r == Ok::<PauseEvent, ErrorCode>(PauseEvent {
                    authority: self.authority,
                    pool: self.pool_key,
                    updated_at: now,
                })
            },
    {
        if self.authority != pool.authority {
            return Err(ErrorCode::Unauthorized);
        }
        if pool.state != PoolState::Initialized {
            return Err(ErrorCode::InvalidState);
        }

        pool.state = PoolState::Paused;
        pool.updated_at = now;

        Ok(PauseEvent { authority: self.authority, pool: self.pool_key, updated_at: now })
    }
}

} // verus!
