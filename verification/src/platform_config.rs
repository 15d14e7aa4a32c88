//! The protocol-wide tax record.

use vstd::prelude::*;

use crate::constants::MAXIMUM_FEE;
use crate::math::scaled_amount;

verus! {

/// The singleton protocol tax-rate record, administered by the protocol
/// admin and referenced by every pool that pays tax under it.
#[derive(Clone, Copy, Debug, PartialEq, Eq, Structural)]
pub struct PlatformConfig {
    /// Protocol tax rate, a fixed-point numerator over `PRECISION_U128`.
    pub tax: u64,
    /// Timestamp of creation.
    pub created_at: i64,
    /// Timestamp of the last tax update that records one.
    pub updated_at: i64,
}

impl PlatformConfig {
    /// The protocol tax withheld from a bid of `bid_amount`:
    /// `bid_amount · tax / PRECISION_U128`, rounded down. `None` only when
    /// the result does not fit in 64 bits, which a rate within
    /// `MAXIMUM_FEE` rules out; within that bound the tax never exceeds
    /// the amount.
    pub fn calc_tax(&self, bid_amount: u64) -> (r: Option<u64>)
        ensures
            r == (if scaled_amount(bid_amount as int, self.tax as int) > u64::MAX as int {
                None::<u64>
            } else {
                Some(scaled_amount(bid_amount as int, self.tax as int) as u64)
            }),
            self.tax <= MAXIMUM_FEE ==> (r matches Some(t) && t <= bid_amount),
    {
        crate::pool::scale_by_rate(bid_amount, self.tax)
    }
}

} // verus!
