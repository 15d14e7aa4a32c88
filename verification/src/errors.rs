//! Error kinds of the engine. Every failure aborts the whole operation:
//! an operation that returns an error leaves every record it was handed
//! unchanged and requests no balance movement.

use vstd::prelude::*;

verus! {

/// Why an operation was rejected.
#[derive(Clone, Copy, Debug, PartialEq, Eq, Structural)]
pub enum ErrorCode {
    /// Arithmetic over- or underflow, or a narrowing that does not fit.
    Overflow,
    /// The caller fails an identity or ownership check.
    Unauthorized,
    /// A caller-supplied value is malformed or out of bounds.
    InvalidParams,
    /// The operation is not valid in the pool's current lifecycle state.
    InvalidState,
    /// The asset pair does not match the pool's configuration.
    UnmatchPool,
    /// Reserved: no operation in this design reports it.
    SwapFailed,
    /// The price moved beyond the caller's tolerance.
    LargeSlippage,
    /// Reserved: no operation in this design reports it.
    InvalidPlatformConfig,
    /// Reserved: no operation in this design reports it.
    InvalidReferer,
}

} // verus!
