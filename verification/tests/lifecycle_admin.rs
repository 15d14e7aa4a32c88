use shield_dex_pg::address::Address;
use shield_dex_pg::constants::{CUSTOMED_FEE_BOUND, MAXIMUM_FEE};
use shield_dex_pg::errors::ErrorCode;
use shield_dex_pg::instructions::admin::create_platform_config::CreatePlatformConfig;
use shield_dex_pg::instructions::admin::distribute_lp_fee::DistributeLpFee;
use shield_dex_pg::instructions::admin::update_platform_config::UpdatePlatformConfig;
use shield_dex_pg::instructions::create_referrer::CreateReferrer;
use shield_dex_pg::instructions::initialize::Initialize;
use shield_dex_pg::instructions::pause::Pause;
use shield_dex_pg::instructions::resume::Resume;
use shield_dex_pg::instructions::transfer_ownership::TransferOwnership;
use shield_dex_pg::instructions::update_lp_fee::UpdateLPFee;
use shield_dex_pg::instructions::update_referral_fee::UpdateReferralFee;
use shield_dex_pg::instructions::update_tax::UpdateTax;
use shield_dex_pg::platform_config::PlatformConfig;
use shield_dex_pg::pool::{Pool, PoolState};

fn addr(n: u128) -> Address {
    Address { hi: n, lo: n.wrapping_mul(31) }
}

fn sample_initialize() -> Initialize {
    Initialize {
        authority: addr(1),
        pool_key: addr(2),
        platform_config: addr(3),
        mint_a: addr(4),
        mint_b: addr(5),
        lp_mint: addr(6),
    }
}

fn initialized_pool() -> Pool {
    let (pool, _) = sample_initialize().invoke(1_000, 1_000, 0, 0, 3_000_000, 50).unwrap();
    pool
}

#[test]
fn initialize_writes_the_pool_record() {
    let init = sample_initialize();
    let (pool, eff) = init.invoke(1_000, 4_000, 7, 0, 3_000_000, 50).unwrap();
    assert_eq!(pool.authority, addr(1));
    assert_eq!(pool.lp_mint, addr(6));
    assert_eq!(pool.mint_a, addr(4));
    assert_eq!(pool.mint_b, addr(5));
    assert_eq!(pool.referral_fee, 7);
    assert_eq!(pool.lp_fee, 3_000_000);
    assert_eq!(pool.tax, addr(3));
    assert_eq!(pool.state, PoolState::Initialized);
    assert_eq!(pool.lp_fees_mint_a, 0);
    assert_eq!(pool.lp_fees_mint_b, 0);
    assert_eq!(pool.created_at, 50);
    assert_eq!(pool.updated_at, 50);
    assert_eq!(eff.custom_fee_payment, 0);
    assert_eq!(eff.lp_minted, 2_000);
    assert_eq!(eff.event.created_at, 50);
}

#[test]
fn initialize_same_mints_fails_invalid_params() {
    let mut init = sample_initialize();
    init.mint_b = init.mint_a;
    assert_eq!(
        init.invoke(1_000, 1_000, 0, 0, 0, 0).unwrap_err(),
        ErrorCode::InvalidParams
    );
}

#[test]
fn initialize_zero_deposit_fails_invalid_params() {
    let init = sample_initialize();
    assert_eq!(init.invoke(0, 1_000, 0, 0, 0, 0).unwrap_err(), ErrorCode::InvalidParams);
    assert_eq!(init.invoke(1_000, 0, 0, 0, 0, 0).unwrap_err(), ErrorCode::InvalidParams);
}

#[test]
fn initialize_fee_above_maximum_fails_invalid_params() {
    let init = sample_initialize();
    assert_eq!(
        init.invoke(1_000, 1_000, 0, 1, MAXIMUM_FEE + 1, 0).unwrap_err(),
        ErrorCode::InvalidParams
    );
    assert_eq!(
        init.invoke(1_000, 1_000, MAXIMUM_FEE + 1, 0, 0, 0).unwrap_err(),
        ErrorCode::InvalidParams
    );
}

#[test]
fn initialize_custom_fee_needs_nonzero_payment() {
    let init = sample_initialize();
    // Above the custom-fee bound with no side payment: rejected.
    assert_eq!(
        init.invoke(1_000, 1_000, 0, 0, CUSTOMED_FEE_BOUND + 1, 0).unwrap_err(),
        ErrorCode::InvalidParams
    );
    // With a payment the pool is created and the payment is charged.
    let (pool, eff) = init.invoke(1_000, 1_000, 0, 123, CUSTOMED_FEE_BOUND + 1, 0).unwrap();
    assert_eq!(eff.custom_fee_payment, 123);
    assert_eq!(pool.lp_fee, CUSTOMED_FEE_BOUND + 1);
    // At the bound no payment is owed.
    let (_, eff) = init.invoke(1_000, 1_000, 0, 0, CUSTOMED_FEE_BOUND, 0).unwrap();
    assert_eq!(eff.custom_fee_payment, 0);
}

#[test]
fn pause_then_resume() {
    let mut pool = initialized_pool();
    let pause = Pause { authority: addr(1), pool_key: addr(2) };
    let event = pause.invoke(&mut pool, 60).unwrap();
    assert_eq!(pool.state, PoolState::Paused);
    assert_eq!(pool.updated_at, 60);
    assert_eq!(event.updated_at, 60);
    assert!(pool.is_paused());
    assert!(!pool.is_active());

    let resume = Resume { authority: addr(1), pool_key: addr(2) };
    let event = resume.invoke(&mut pool, 70).unwrap();
    assert_eq!(pool.state, PoolState::Initialized);
    assert_eq!(pool.updated_at, 70);
    assert_eq!(event.updated_at, 70);
    assert!(pool.is_active());
}

#[test]
fn pause_from_paused_fails_invalid_state() {
    let mut pool = initialized_pool();
    pool.state = PoolState::Paused;
    let snapshot = pool;
    let pause = Pause { authority: addr(1), pool_key: addr(2) };
    assert_eq!(pause.invoke(&mut pool, 60).unwrap_err(), ErrorCode::InvalidState);
    assert_eq!(pool, snapshot);
}

#[test]
fn resume_from_initialized_fails_invalid_state() {
    let mut pool = initialized_pool();
    let snapshot = pool;
    let resume = Resume { authority: addr(1), pool_key: addr(2) };
    assert_eq!(resume.invoke(&mut pool, 60).unwrap_err(), ErrorCode::InvalidState);
    assert_eq!(pool, snapshot);
}

#[test]
fn pause_by_stranger_fails_unauthorized() {
    let mut pool = initialized_pool();
    let pause = Pause { authority: addr(8), pool_key: addr(2) };
    assert_eq!(pause.invoke(&mut pool, 60).unwrap_err(), ErrorCode::Unauthorized);
    let resume = Resume { authority: addr(8), pool_key: addr(2) };
    assert_eq!(resume.invoke(&mut pool, 60).unwrap_err(), ErrorCode::Unauthorized);
}

#[test]
fn transfer_ownership_reassigns_authority() {
    let mut pool = initialized_pool();
    let ctx = TransferOwnership { authority: addr(1), pool_key: addr(2) };
    let event = ctx.invoke(&mut pool, addr(9), 80).unwrap();
    assert_eq!(pool.authority, addr(9));
    assert_eq!(pool.updated_at, 80);
    assert_eq!(event.new_owner, addr(9));

    // The old owner is now a stranger.
    let again = TransferOwnership { authority: addr(1), pool_key: addr(2) };
    assert_eq!(again.invoke(&mut pool, addr(1), 90).unwrap_err(), ErrorCode::Unauthorized);
}

#[test]
fn update_lp_fee_bounds_and_sets() {
    let mut pool = initialized_pool();
    let ctx = UpdateLPFee { authority: addr(1), pool_key: addr(2) };
    let event = ctx.invoke(&mut pool, 5_000_000, 90).unwrap();
    assert_eq!(pool.lp_fee, 5_000_000);
    assert_eq!(pool.updated_at, 90);
    assert_eq!(event.lp_fee, 5_000_000);

    assert_eq!(
        ctx.invoke(&mut pool, MAXIMUM_FEE + 1, 95).unwrap_err(),
        ErrorCode::InvalidParams
    );
    assert_eq!(pool.lp_fee, 5_000_000);

    let stranger = UpdateLPFee { authority: addr(8), pool_key: addr(2) };
    assert_eq!(stranger.invoke(&mut pool, 1, 99).unwrap_err(), ErrorCode::Unauthorized);
}

#[test]
fn update_referral_fee_bounds_and_sets() {
    let mut pool = initialized_pool();
    let ctx = UpdateReferralFee { authority: addr(1), pool_key: addr(2) };
    let event = ctx.invoke(&mut pool, 123, 91).unwrap();
    assert_eq!(pool.referral_fee, 123);
    assert_eq!(event.referral_fee, 123);
    assert_eq!(
        ctx.invoke(&mut pool, MAXIMUM_FEE + 1, 92).unwrap_err(),
        ErrorCode::InvalidParams
    );
}

#[test]
fn platform_config_admin_gates() {
    let admin = addr(100);
    let create = CreatePlatformConfig { owner: admin, admin };
    let mut cfg = create.invoke(20_000_000, 10).unwrap();
    assert_eq!(cfg.tax, 20_000_000);
    assert_eq!(cfg.created_at, 10);
    assert_eq!(cfg.updated_at, 10);

    let stranger_create = CreatePlatformConfig { owner: addr(8), admin };
    assert_eq!(stranger_create.invoke(1, 10).unwrap_err(), ErrorCode::Unauthorized);

    let update = UpdatePlatformConfig { owner: admin, admin };
    update.invoke(&mut cfg, 30_000_000).unwrap();
    assert_eq!(cfg.tax, 30_000_000);
    // This rewrite leaves the timestamps as they are.
    assert_eq!(cfg.updated_at, 10);

    let stranger_update = UpdatePlatformConfig { owner: addr(8), admin };
    assert_eq!(stranger_update.invoke(&mut cfg, 1).unwrap_err(), ErrorCode::Unauthorized);
    assert_eq!(cfg.tax, 30_000_000);
}

#[test]
fn update_tax_bounds_and_stamps() {
    let admin = addr(100);
    let mut cfg = PlatformConfig { tax: 0, created_at: 10, updated_at: 10 };
    let ctx = UpdateTax { authority: admin, admin, platform_config_key: addr(3) };
    let event = ctx.invoke(&mut cfg, 40_000_000, 20).unwrap();
    assert_eq!(cfg.tax, 40_000_000);
    assert_eq!(cfg.updated_at, 20);
    assert_eq!(event.new_tax, 40_000_000);

    assert_eq!(
        ctx.invoke(&mut cfg, MAXIMUM_FEE + 1, 30).unwrap_err(),
        ErrorCode::InvalidParams
    );
    let stranger = UpdateTax { authority: addr(8), admin, platform_config_key: addr(3) };
    assert_eq!(stranger.invoke(&mut cfg, 1, 30).unwrap_err(), ErrorCode::Unauthorized);
}

#[test]
fn distribute_clamps_to_accrued() {
    let admin = addr(100);
    let mut pool = initialized_pool();
    pool.lp_fees_mint_a = 30;
    pool.lp_fees_mint_b = 7;
    let ctx = DistributeLpFee { owner: addr(1), admin, pool_key: addr(2) };
    // Requesting more than accrued clamps, never fails.
    let eff = ctx.invoke(&mut pool, 100, 3).unwrap();
    assert_eq!(eff.transfer_a, 30);
    assert_eq!(eff.transfer_b, 3);
    assert_eq!(pool.lp_fees_mint_a, 0);
    assert_eq!(pool.lp_fees_mint_b, 4);

    // A second sweep of an emptied side transfers nothing and still
    // succeeds.
    let eff = ctx.invoke(&mut pool, 100, 100).unwrap();
    assert_eq!(eff.transfer_a, 0);
    assert_eq!(eff.transfer_b, 4);
    assert_eq!(pool.lp_fees_mint_b, 0);
}

#[test]
fn distribute_allows_admin_and_rejects_strangers() {
    let admin = addr(100);
    let mut pool = initialized_pool();
    pool.lp_fees_mint_a = 5;
    let by_admin = DistributeLpFee { owner: admin, admin, pool_key: addr(2) };
    let eff = by_admin.invoke(&mut pool, 5, 0).unwrap();
    assert_eq!(eff.transfer_a, 5);

    let snapshot = pool;
    let stranger = DistributeLpFee { owner: addr(8), admin, pool_key: addr(2) };
    assert_eq!(stranger.invoke(&mut pool, 1, 1).unwrap_err(), ErrorCode::Unauthorized);
    assert_eq!(pool, snapshot);
}

#[test]
fn create_referrer_records_the_relationship() {
    let ctx = CreateReferrer { authority: addr(11), pool_key: addr(2) };
    let (record, event) = ctx.invoke(addr(12)).unwrap();
    assert_eq!(record.owner, addr(12));
    assert_eq!(record.referee, addr(11));
    assert_eq!(record.pool, Address { hi: 0, lo: 0 });
    assert_eq!(event.owner, addr(12));
    assert_eq!(event.referee, addr(11));
}

#[test]
fn pool_state_defaults_to_uninitialized() {
    assert_eq!(PoolState::default(), PoolState::Uninitialized);
}

#[test]
fn calc_fee_and_tax_exact() {
    let pool = initialized_pool();
    // 10_000 * 3_000_000 / 10^9 = 30
    assert_eq!(pool.calc_fee(10_000), Some(30));
    // rounds down: 999 * 3_000_000 / 10^9 = 2.997 -> 2
    assert_eq!(pool.calc_fee(999), Some(2));
    let cfg = PlatformConfig { tax: 1_000_000, created_at: 0, updated_at: 0 };
    assert_eq!(cfg.calc_tax(10_000), Some(10));
    assert_eq!(cfg.calc_tax(0), Some(0));
}

#[test]
fn calc_referral_fee_exact() {
    let mut pool = initialized_pool();
    pool.lp_fee = 3_000_000;
    pool.referral_fee = 500_000_000;
    // 3_000_000 * 500_000_000 / 10^9 = 1_500_000
    assert_eq!(pool.calc_referral_fee(), Some(1_500_000));
}

#[test]
fn vault_amount_without_fee_subtracts_each_side() {
    let mut pool = initialized_pool();
    pool.lp_fees_mint_a = 10;
    pool.lp_fees_mint_b = 20;
    assert_eq!(pool.vault_amount_without_fee(110, 220), (100, 200));
}

#[test]
fn detect_direction_all_cases() {
    let pool = initialized_pool();
    assert_eq!(pool.detect_direction(addr(4), addr(5)), Some(true));
    assert_eq!(pool.detect_direction(addr(5), addr(4)), Some(false));
    assert_eq!(pool.detect_direction(addr(4), addr(7)), None);
    assert_eq!(pool.detect_direction(addr(7), addr(5)), None);
}
