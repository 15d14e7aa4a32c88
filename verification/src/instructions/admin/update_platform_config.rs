//! Rewriting the protocol tax record.

use vstd::prelude::*;

use crate::address::Address;
use crate::errors::ErrorCode;
use crate::platform_config::PlatformConfig;

verus! {

/// Context of an update-platform-config call: the signer and the
/// configured protocol admin identity.
#[derive(Clone, Copy, Debug, PartialEq, Eq, Structural)]
pub struct UpdatePlatformConfig {
    /// The signer of the call.
    pub owner: Address,
    /// The protocol admin identity, injected at deployment.
    pub admin: Address,
}

impl UpdatePlatformConfig {
    /// Set the protocol tax rate to `tax`, leaving the timestamps as they
    /// are. Only the protocol admin may.
    pub fn invoke(&self, platform_config: &mut PlatformConfig, tax: u64) -> (r: Result<
        (),
        ErrorCode,
    >)
        ensures
            self.owner != self.admin ==> r == Err::<(), ErrorCode>(ErrorCode::Unauthorized)
                && *final(platform_config) == *old(platform_config),
            self.owner == self.admin ==> r == Ok::<(), ErrorCode>(()) && *final(platform_config)
                == (PlatformConfig { tax, ..*old(platform_config) }),
    {
        if self.owner != self.admin {
            return Err(ErrorCode::Unauthorized);
        }

        platform_config.tax = tax;

        Ok(())
    }
}

} // verus!
