use shield_dex_pg::address::Address;
use shield_dex_pg::errors::ErrorCode;
use shield_dex_pg::instructions::add_liquidity::AddLiquidity;
use shield_dex_pg::instructions::initialize::Initialize;
use shield_dex_pg::instructions::remove_liquidity::RemoveLiquidity;
use shield_dex_pg::pool::{Pool, PoolState};

fn addr(n: u128) -> Address {
    Address { hi: n, lo: n.wrapping_mul(31) }
}

fn sample_initialize() -> Initialize {
    Initialize {
        authority: addr(1),
        pool_key: addr(2),
        platform_config: addr(3),
        mint_a: addr(4),
        mint_b: addr(5),
        lp_mint: addr(6),
    }
}

#[test]
fn calc_liquidity_exact_square() {
    assert_eq!(Pool::calc_liquidity(4, 9), Some(6));
    assert_eq!(Pool::calc_liquidity(1_000_000, 1_000_000), Some(1_000_000));
}

#[test]
fn calc_liquidity_rounds_down() {
    // floor(sqrt(2 * 3)) = floor(2.449...) = 2
    assert_eq!(Pool::calc_liquidity(2, 3), Some(2));
    // floor(sqrt(10^6 * 10^6 + something)) stays at the root below
    assert_eq!(Pool::calc_liquidity(1_000_001, 1_000_000), Some(1_000_000));
}

#[test]
fn calc_liquidity_symmetric() {
    assert_eq!(Pool::calc_liquidity(123_456, 789_012), Pool::calc_liquidity(789_012, 123_456));
    assert_eq!(Pool::calc_liquidity(7, 11), Pool::calc_liquidity(11, 7));
}

#[test]
fn calc_liquidity_largest_inputs() {
    // sqrt((2^64-1)^2) = 2^64-1: the narrowing back to 64 bits always fits.
    assert_eq!(Pool::calc_liquidity(u64::MAX, u64::MAX), Some(u64::MAX));
    assert_eq!(Pool::calc_liquidity(u64::MAX, 1), Some(4_294_967_295));
}

#[test]
fn hydrate_liquidity_exact() {
    // 500 * 10_000 / 1_000 = 5_000
    assert_eq!(Pool::hydrate_liquidity(500, 10_000, 1_000), Some(5_000));
    // rounding down: 1 * 5 / 2 = 2
    assert_eq!(Pool::hydrate_liquidity(1, 5, 2), Some(2));
}

#[test]
fn hydrate_liquidity_zero_supply_fails() {
    assert_eq!(Pool::hydrate_liquidity(5, 100, 0), None);
}

#[test]
fn hydrate_liquidity_narrowing_fails() {
    // u64::MAX * u64::MAX / 1 does not fit back into 64 bits.
    assert_eq!(Pool::hydrate_liquidity(u64::MAX, u64::MAX as u128, 1), None);
}

#[test]
fn hydrate_liquidity_product_overflow_fails() {
    // lp * reserve overflows 128 bits when the reserve itself is u128::MAX.
    assert_eq!(Pool::hydrate_liquidity(2, u128::MAX, 10), None);
}

#[test]
fn add_liquidity_issues_sqrt_of_product() {
    let ctx = AddLiquidity { authority: addr(1), pool_key: addr(2) };
    let eff = ctx.invoke(1_000, 4_000).unwrap();
    assert_eq!(eff.deposit_a, 1_000);
    assert_eq!(eff.deposit_b, 4_000);
    assert_eq!(eff.lp_minted, 2_000);
    assert_eq!(eff.event.lp, 2_000);
    assert_eq!(eff.event.a, 1_000);
    assert_eq!(eff.event.b, 4_000);
    assert_eq!(eff.event.authority, addr(1));
    assert_eq!(eff.event.pool, addr(2));
}

#[test]
fn add_liquidity_rejects_zero_amounts() {
    let ctx = AddLiquidity { authority: addr(1), pool_key: addr(2) };
    assert_eq!(ctx.invoke(0, 5).unwrap_err(), ErrorCode::InvalidParams);
    assert_eq!(ctx.invoke(5, 0).unwrap_err(), ErrorCode::InvalidParams);
    assert_eq!(ctx.invoke(0, 0).unwrap_err(), ErrorCode::InvalidParams);
}

#[test]
fn issue_then_redeem_all_returns_deposit() {
    // First deposit issues lp = floor(sqrt(1000 * 4000)) = 2000 shares.
    let init = sample_initialize();
    let (pool, eff) = init.invoke(1_000, 4_000, 0, 0, 3_000_000, 77).unwrap();
    assert_eq!(eff.lp_minted, 2_000);

    // Redeeming all 2000 outstanding shares against the deposited reserves
    // returns exactly what went in: the round trip never pays out more.
    let remove = RemoveLiquidity {
        authority: addr(1),
        pool_key: addr(2),
        treasury_a_amount: 1_000,
        treasury_b_amount: 4_000,
        lp_supply: eff.lp_minted,
    };
    let out = remove.invoke(&pool, eff.lp_minted).unwrap();
    assert_eq!(out.burn_lp, 2_000);
    assert_eq!(out.withdraw_a, 1_000);
    assert_eq!(out.withdraw_b, 4_000);
}

#[test]
fn partial_redeem_loses_only_rounding() {
    let pool = Pool {
        authority: addr(1),
        lp_mint: addr(6),
        mint_a: addr(4),
        mint_b: addr(5),
        referral_fee: 0,
        lp_fee: 0,
        tax: addr(3),
        state: PoolState::Initialized,
        lp_fees_mint_a: 0,
        lp_fees_mint_b: 0,
        created_at: 0,
        updated_at: 0,
    };
    let remove = RemoveLiquidity {
        authority: addr(1),
        pool_key: addr(2),
        treasury_a_amount: 1_000,
        treasury_b_amount: 4_001,
        lp_supply: 2_000,
    };
    // 3 * 1000 / 2000 = 1 (rounded down), 3 * 4001 / 2000 = 6 (rounded down)
    let out = remove.invoke(&pool, 3).unwrap();
    assert_eq!(out.withdraw_a, 1);
    assert_eq!(out.withdraw_b, 6);
}

#[test]
fn remove_liquidity_rejects_zero_shares() {
    let init = sample_initialize();
    let (pool, _) = init.invoke(10, 10, 0, 0, 0, 0).unwrap();
    let remove = RemoveLiquidity {
        authority: addr(1),
        pool_key: addr(2),
        treasury_a_amount: 10,
        treasury_b_amount: 10,
        lp_supply: 10,
    };
    assert_eq!(remove.invoke(&pool, 0).unwrap_err(), ErrorCode::InvalidParams);
}

#[test]
fn remove_liquidity_redeems_against_effective_reserves() {
    // Accrued fees are held out of the reserves a redemption is priced on.
    let init = sample_initialize();
    let (mut pool, _) = init.invoke(1_000, 1_000, 0, 0, 0, 0).unwrap();
    pool.lp_fees_mint_a = 100;
    pool.lp_fees_mint_b = 300;
    let remove = RemoveLiquidity {
        authority: addr(1),
        pool_key: addr(2),
        treasury_a_amount: 1_100,
        treasury_b_amount: 1_300,
        lp_supply: 1_000,
    };
    let out = remove.invoke(&pool, 500).unwrap();
    // 500 * (1100-100) / 1000 = 500, 500 * (1300-300) / 1000 = 500
    assert_eq!(out.withdraw_a, 500);
    assert_eq!(out.withdraw_b, 500);
}

#[test]
fn remove_liquidity_overflow_when_fees_exceed_balance() {
    let init = sample_initialize();
    let (mut pool, _) = init.invoke(1_000, 1_000, 0, 0, 0, 0).unwrap();
    pool.lp_fees_mint_a = 2_000;
    let remove = RemoveLiquidity {
        authority: addr(1),
        pool_key: addr(2),
        treasury_a_amount: 1_000,
        treasury_b_amount: 1_000,
        lp_supply: 1_000,
    };
    assert_eq!(remove.invoke(&pool, 10).unwrap_err(), ErrorCode::Overflow);
}

#[test]
fn remove_liquidity_overflow_when_payout_does_not_fit() {
    let init = sample_initialize();
    let (pool, _) = init.invoke(1_000, 1_000, 0, 0, 0, 0).unwrap();
    let remove = RemoveLiquidity {
        authority: addr(1),
        pool_key: addr(2),
        treasury_a_amount: u64::MAX,
        treasury_b_amount: u64::MAX,
        lp_supply: 1,
    };
    assert_eq!(remove.invoke(&pool, u64::MAX).unwrap_err(), ErrorCode::Overflow);
}

#[test]
fn remove_liquidity_overflow_when_no_supply() {
    let init = sample_initialize();
    let (pool, _) = init.invoke(1_000, 1_000, 0, 0, 0, 0).unwrap();
    let remove = RemoveLiquidity {
        authority: addr(1),
        pool_key: addr(2),
        treasury_a_amount: 1_000,
        treasury_b_amount: 1_000,
        lp_supply: 0,
    };
    assert_eq!(remove.invoke(&pool, 10).unwrap_err(), ErrorCode::Overflow);
}
