//! Updating the protocol tax rate.

use vstd::prelude::*;

use crate::address::Address;
use crate::constants::MAXIMUM_FEE;
use crate::errors::ErrorCode;
use crate::platform_config::PlatformConfig;

verus! {

/// Audit record of a successful tax update.
#[derive(Clone, Copy, Debug, PartialEq, Eq, Structural)]
pub struct UpdateTaxEvent {
    pub authority: Address,
    pub new_tax: u64,
    pub platform_config: Address,
    pub updated_at: i64,
}

/// Context of a tax update: the signer, the configured protocol admin
/// identity, and the platform-config account the call names.
#[derive(Clone, Copy, Debug, PartialEq, Eq, Structural)]
pub struct UpdateTax {
    /// The signer of the call.
    pub authority: Address,
    /// The protocol admin identity, injected at deployment.
    pub admin: Address,
    /// The platform-config record's own ledger address.
    pub platform_config_key: Address,
}

impl UpdateTax {
    /// Set the protocol tax rate to `tax`. Only the protocol admin may,
    /// and the rate is bounded by `MAXIMUM_FEE`. `now` is the ledger
    /// clock's current timestamp.
    pub fn invoke(&self, platform_config: &mut PlatformConfig, tax: u64, now: i64) -> (r: Result<
        UpdateTaxEvent,
        ErrorCode,
    >)
        ensures
            self.authority != self.admin ==> r == Err::<UpdateTaxEvent, ErrorCode>(
                ErrorCode::Unauthorized,
            ),
            self.authority == self.admin && tax > MAXIMUM_FEE ==> r == Err::<
                UpdateTaxEvent,
                ErrorCode,
            >(ErrorCode::InvalidParams),
            r is Err ==> *final(platform_config) == *old(platform_config),
            self.authority == self.admin && tax <= MAXIMUM_FEE ==> {
                &&& *final(platform_config) == (PlatformConfig {
                    tax,
                    updated_at: now,
                    ..*old(platform_config)
                })
                &&& r == Ok::<UpdateTaxEvent, ErrorCode>(UpdateTaxEvent {
                    authority: self.authority,
                    new_tax: tax,
                    platform_config: self.platform_config_key,
                    updated_at: now,
                })
            },
    {
        if self.authority != self.admin {
            return Err(ErrorCode::Unauthorized);
        }
        if tax > MAXIMUM_FEE {
            return Err(ErrorCode::InvalidParams);
        }

        platform_config.tax = tax;
        platform_config.updated_at = now;

        Ok(UpdateTaxEvent {
            authority: self.authority,
            new_tax: tax,
            platform_config: self.platform_config_key,
            updated_at: now,
        })
    }
}

} // verus!
