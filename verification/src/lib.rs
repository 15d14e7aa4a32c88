//! Pool accounting and pricing engine for a two-asset constant-product
//! automated market maker.
//!
//! The engine holds per-market [`pool::Pool`] records and a protocol-wide
//! [`platform_config::PlatformConfig`] tax record, prices swaps against the
//! constant-product curve, issues and redeems pool-share tokens, and keeps the
//! accrued-fee bookkeeping. Every operation is a single atomic state
//! transition: it validates its preconditions, performs the fixed-point
//! arithmetic, mutates the records it was handed, and describes the balance
//! movements it wants the hosting ledger's token-custody service to perform.
//! The ledger itself (account storage, transfers, signatures, the clock) stays
//! outside: operations take the balances and the current timestamp as plain
//! arguments and return the requested transfers as plain values.

pub mod address;
pub mod constants;
pub mod errors;
pub mod instructions;
pub mod math;
pub mod platform_config;
pub mod pool;
pub mod referer;
