//! The engine's operations, one module per instruction.
//!
//! Each operation is the compute half of one atomic ledger instruction: a
//! context struct holds the identities and custody balances the hosting
//! ledger resolved for the call, `invoke` validates the preconditions,
//! performs the arithmetic, mutates the records it was handed, and returns
//! the balance movements the ledger's token-custody service must perform.
//! On any error nothing is mutated and nothing is requested.

pub mod add_liquidity;
pub mod admin;
pub mod create_referrer;
pub mod initialize;
pub mod pause;
pub mod remove_liquidity;
pub mod resume;
pub mod swap;
pub mod transfer_ownership;
pub mod update_lp_fee;
pub mod update_referral_fee;
pub mod update_tax;
