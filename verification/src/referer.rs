//! The referral relationship record.

use vstd::prelude::*;

use crate::address::Address;

verus! {

/// A pure relationship record: `owner` referred `referee`. No computation
/// in this design derives anything from it beyond its existence.
#[derive(Clone, Copy, Debug, PartialEq, Eq, Structural)]
pub struct Referrer {
    /// The referring identity.
    pub owner: Address,
    /// The referred identity.
    pub referee: Address,
    /// The pool the referral conceptually belongs to. No operation in this
    /// design assigns it, so it keeps the all-zero value a fresh ledger
    /// record carries.
    pub pool: Address,
}

} // verus!
