//! Creating the protocol tax record.

use vstd::prelude::*;

use crate::address::Address;
use crate::errors::ErrorCode;
use crate::platform_config::PlatformConfig;

verus! {

/// Context of a create-platform-config call: the signer and the configured
/// protocol admin identity.
#[derive(Clone, Copy, Debug, PartialEq, Eq, Structural)]
pub struct CreatePlatformConfig {
    /// The signer of the call.
    pub owner: Address,
    /// The protocol admin identity, injected at deployment.
    pub admin: Address,
}

impl CreatePlatformConfig {
    /// Create the protocol tax record with rate `tax`. Only the protocol
    /// admin may. `now` is the ledger clock's current timestamp.
    pub fn invoke(&self, tax: u64, now: i64) -> (r: Result<PlatformConfig, ErrorCode>)
        ensures
            self.owner != self.admin ==> r == Err::<PlatformConfig, ErrorCode>(
                ErrorCode::Unauthorized,
            ),
            self.owner == self.admin ==> r == Ok::<PlatformConfig, ErrorCode>(
                PlatformConfig { tax, created_at: now, updated_at: now },
            ),
    {
        if self.owner != self.admin {
            return Err(ErrorCode::Unauthorized);
        }

        Ok(PlatformConfig { tax, created_at: now, updated_at: now })
    }
}

} // verus!
