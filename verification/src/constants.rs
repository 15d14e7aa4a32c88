//! Fixed-point scale and fee bounds shared by the whole engine.

use vstd::prelude::*;

verus! {

/// Denominator of every fixed-point rate in the engine: a rate `r` stands for
/// the fraction `r / PRECISION_U128`.
pub const PRECISION_U128: u128 = 1000000000;

/// Decimals of the pool-share token's unit.
pub const LP_MINT_DECIMALS: u8 = 6;

/// Upper bound on every caller-supplied fee or tax rate, equal to the
/// fixed-point denominator (a rate of 100%).
pub const MAXIMUM_FEE: u64 = 1000000000;

/// LP-fee rates above this bound are treated as custom rates: setting one at
/// pool creation requires a one-time side payment to the fee receiver.
pub const CUSTOMED_FEE_BOUND: u64 = 50000000;

} // verus!
