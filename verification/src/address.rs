//! Identities on the hosting ledger.
//!
//! The ledger addresses accounts by an opaque 32-byte key. The engine never
//! looks inside one; it only compares them, so a key is modelled here as two
//! 128-bit halves. The code that talks to the ledger converts its own key
//! type to and from this one.

use vstd::prelude::*;

verus! {

/// A 32-byte ledger identity: an account, a signer, an asset type.
#[derive(Clone, Copy, Debug, PartialEq, Eq, Hash, Structural)]
pub struct Address {
    /// Most significant 16 bytes of the key.
    pub hi: u128,
    /// Least significant 16 bytes of the key.
    pub lo: u128,
}

impl Address {
    /// The all-zero identity, the value a freshly created ledger record
    /// carries in any key field that no operation has assigned.
    pub fn zero() -> (r: Address)
        ensures
            r == Address::zero_spec(),
    {
        Address { hi: 0, lo: 0 }
    }

    /// The all-zero identity.
    pub open spec fn zero_spec() -> Address {
        Address { hi: 0, lo: 0 }
    }
}

} // verus!
