//! Operations gated on the protocol admin or the pool authority.

pub mod create_platform_config;
pub mod distribute_lp_fee;
pub mod update_platform_config;
