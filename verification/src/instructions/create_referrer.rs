//! Recording a referral relationship.

use vstd::prelude::*;

use crate::address::Address;
use crate::errors::ErrorCode;
use crate::referer::Referrer;

verus! {

/// Audit record of a recorded referral.
#[derive(Clone, Copy, Debug, PartialEq, Eq, Structural)]
pub struct CreateReferrerEvent {
    pub owner: Address,
    pub referee: Address,
}

/// Context of a create-referrer call: the signer and the pool account it
/// names.
#[derive(Clone, Copy, Debug, PartialEq, Eq, Structural)]
pub struct CreateReferrer {
    /// The signer of the call; it becomes the referee.
    pub authority: Address,
    /// The pool record's own ledger address. Named by the call but not
    /// persisted into the record in this design.
    pub pool_key: Address,
}

impl CreateReferrer {
    /// Record that `referer_address` referred the caller. Always succeeds;
    /// nothing consumes the record beyond its existence.
    pub fn invoke(&self, referer_address: Address) -> (r: Result<
        (Referrer, CreateReferrerEvent),
        ErrorCode,
    >)
        ensures
            r == Ok::<(Referrer, CreateReferrerEvent), ErrorCode>(
                (
                    Referrer {
                        owner: referer_address,
                        referee: self.authority,
                        pool: Address::zero_spec(),
                    },
                    CreateReferrerEvent { owner: referer_address, referee: self.authority },
                ),
            ),
    {
        let referrer = Referrer {
            owner: referer_address,
            referee: self.authority,
            pool: Address::zero(),
        };

        Ok((referrer, CreateReferrerEvent { owner: referer_address, referee: self.authority }))
    }
}

} // verus!
