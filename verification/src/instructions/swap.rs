//! Pricing and executing a trade against the constant-product curve.

use vstd::arithmetic::div_mod::{lemma_div_is_ordered, lemma_div_multiples_vanish};
use vstd::arithmetic::mul::lemma_mul_inequality;
use vstd::prelude::*;

use crate::address::Address;
use crate::errors::ErrorCode;
use crate::math::scaled_amount;
use crate::platform_config::PlatformConfig;
use crate::pool::Pool;

verus! {

/// Audit record of a successful swap.
#[derive(Clone, Copy, Debug, PartialEq, Eq, Structural)]
pub struct SwapEvent {
    pub authority: Address,
    pub pool: Address,
    pub bid_mint: Address,
    pub ask_mint: Address,
    pub bid_amount: u64,
    pub ask_amount: u64,
}

/// The custody movements a swap requests, in order: `bid_transfer` (the
/// bid minus the tax) from the trader into the bid-side treasury,
/// `ask_amount` from the ask-side treasury to the trader signed by the
/// pool's delegated custody authority, and `tax_transfer` from the trader
/// to the protocol's tax recipient. `fee` is what the pool withheld from
/// the bid and accrued for its liquidity providers.
#[derive(Clone, Copy, Debug, PartialEq, Eq, Structural)]
pub struct SwapEffects {
    pub bid_transfer: u64,
    pub ask_amount: u64,
    pub tax_transfer: u64,
    pub fee: u64,
    pub event: SwapEvent,
}

/// Context of a swap: the trader, the pool account, the asset types of
/// the trade, and the two treasury balances the ledger read for the call.
#[derive(Clone, Copy, Debug, PartialEq, Eq, Structural)]
pub struct Swap {
    /// The trader signing the call.
    pub authority: Address,
    /// The pool record's own ledger address.
    pub pool_key: Address,
    /// The asset type the trader pays.
    pub bid_mint: Address,
    /// The asset type the trader receives.
    pub ask_mint: Address,
    /// Custody balance of the bid-side treasury.
    pub bid_treasury_amount: u64,
    /// Custody balance of the ask-side treasury.
    pub ask_treasury_amount: u64,
}

impl Swap {
    /// The LP fee withheld from the bid.
    pub open spec fn fee_spec(self, pool: Pool, bid_amount: u64) -> int {
        scaled_amount(bid_amount as int, pool.lp_fee as int)
    }

    /// The protocol tax withheld from the bid.
    pub open spec fn tax_spec(self, cfg: PlatformConfig, bid_amount: u64) -> int {
        scaled_amount(bid_amount as int, cfg.tax as int)
    }

    /// The bid net of fee and tax, the amount that actually moves the
    /// curve.
    pub open spec fn net_bid_spec(self, pool: Pool, cfg: PlatformConfig, bid_amount: u64) -> int {
        bid_amount - self.fee_spec(pool, bid_amount) - self.tax_spec(cfg, bid_amount)
    }

    /// The accrued LP fees held out of the bid-side treasury, by trade
    /// direction.
    pub open spec fn bid_fees_spec(self, pool: Pool) -> int
        recommends
            self.direction_spec(pool) is Some,
    {
        if self.direction_spec(pool) == Some(true) {
            pool.lp_fees_mint_a as int
        } else {
            pool.lp_fees_mint_b as int
        }
    }

    /// The accrued LP fees held out of the ask-side treasury.
    pub open spec fn ask_fees_spec(self, pool: Pool) -> int
        recommends
            self.direction_spec(pool) is Some,
    {
        if self.direction_spec(pool) == Some(true) {
            pool.lp_fees_mint_b as int
        } else {
            pool.lp_fees_mint_a as int
        }
    }

    /// The trade direction against `pool`.
    pub open spec fn direction_spec(self, pool: Pool) -> Option<bool> {
        pool.direction_spec(self.bid_mint, self.ask_mint)
    }

    /// The effective bid-side reserve.
    pub open spec fn bid_reserve_spec(self, pool: Pool) -> int {
        self.bid_treasury_amount - self.bid_fees_spec(pool)
    }

    /// The effective ask-side reserve.
    pub open spec fn ask_reserve_spec(self, pool: Pool) -> int {
        self.ask_treasury_amount - self.ask_fees_spec(pool)
    }

    /// The ask-side reserve after the trade: the product constant divided
    /// by the grown bid-side reserve, rounded down.
    pub open spec fn next_ask_reserve_spec(
        self,
        pool: Pool,
        cfg: PlatformConfig,
        bid_amount: u64,
    ) -> int {
        (self.bid_reserve_spec(pool) * self.ask_reserve_spec(pool)) / (self.bid_reserve_spec(pool)
            + self.net_bid_spec(pool, cfg, bid_amount))
    }

    /// What the trader receives: exactly the drop of the ask-side reserve.
    pub open spec fn ask_amount_spec(self, pool: Pool, cfg: PlatformConfig, bid_amount: u64) -> int {
        self.ask_reserve_spec(pool) - self.next_ask_reserve_spec(pool, cfg, bid_amount)
    }

    /// Why the swap is rejected, if it is; checked in this order.
    pub open spec fn swap_error(
        self,
        pool: Pool,
        cfg: PlatformConfig,
        bid_amount: u64,
        limit: u64,
    ) -> Option<ErrorCode> {
        if !(pool.state is Initialized) {
            Some(ErrorCode::InvalidState)
        } else if bid_amount == 0 {
            Some(ErrorCode::InvalidParams)
        } else if self.direction_spec(pool) is None {
            Some(ErrorCode::UnmatchPool)
        } else if self.fee_spec(pool, bid_amount) > u64::MAX as int || self.tax_spec(
            cfg,
            bid_amount,
        ) > u64::MAX as int {
            Some(ErrorCode::Overflow)
        } else if self.fee_spec(pool, bid_amount) + self.tax_spec(cfg, bid_amount) > bid_amount {
            Some(ErrorCode::Overflow)
        } else if self.bid_reserve_spec(pool) < 0 || self.ask_reserve_spec(pool) < 0 {
            Some(ErrorCode::Overflow)
        } else if self.bid_reserve_spec(pool) + self.net_bid_spec(pool, cfg, bid_amount) == 0 {
            Some(ErrorCode::Overflow)
        } else if self.ask_amount_spec(pool, cfg, bid_amount) < limit {
            Some(ErrorCode::LargeSlippage)
        } else if self.bid_fees_spec(pool) + self.fee_spec(pool, bid_amount) > u64::MAX as int {
            Some(ErrorCode::Overflow)
        } else {
            None
        }
    }

    /// The pool after a successful swap: the LP fee accrued on the bid
    /// side, everything else untouched.
    pub open spec fn pool_after_spec(
        self,
        pool: Pool,
        cfg: PlatformConfig,
        bid_amount: u64,
    ) -> Pool {
        if self.direction_spec(pool) == Some(true) {
            Pool {
                lp_fees_mint_a: (pool.lp_fees_mint_a + self.fee_spec(pool, bid_amount)) as u64,
                ..pool
            }
        } else {
            Pool {
                lp_fees_mint_b: (pool.lp_fees_mint_b + self.fee_spec(pool, bid_amount)) as u64,
                ..pool
            }
        }
    }

    /// Price `bid_amount` of the bid asset against the constant-product
    /// curve, with the LP fee and the protocol tax deducted from the bid
    /// before it moves the curve, and accrue the fee for the liquidity
    /// providers. Rejects a result below `limit` as slippage. On any error
    /// the pool is left exactly as it was and nothing is requested.
    pub fn invoke(
        &self,
        pool: &mut Pool,
        platform_config: &PlatformConfig,
        bid_amount: u64,
        limit: u64,
    ) -> (r: Result<SwapEffects, ErrorCode>)
        ensures
            old(pool).wf() ==> final(pool).wf(),
            self.swap_error(*old(pool), *platform_config, bid_amount, limit) matches Some(e)
                ==> r == Err::<SwapEffects, ErrorCode>(e) && *final(pool) == *old(pool),
            self.swap_error(*old(pool), *platform_config, bid_amount, limit) is None ==> {
                &&& r matches Ok(eff)
                &&& eff.fee == self.fee_spec(*old(pool), bid_amount)
                &&& eff.tax_transfer == self.tax_spec(*platform_config, bid_amount)
                &&& eff.bid_transfer == bid_amount - eff.tax_transfer
                &&& eff.ask_amount == self.ask_amount_spec(*old(pool), *platform_config, bid_amount)
                &&& eff.event == (SwapEvent {
                    authority: self.authority,
                    pool: self.pool_key,
                    bid_mint: self.bid_mint,
                    ask_mint: self.ask_mint,
                    bid_amount,
                    ask_amount: eff.ask_amount,
                })
                &&& *final(pool) == self.pool_after_spec(*old(pool), *platform_config, bid_amount)
            },
    {
        if !pool.is_active() {
            return Err(ErrorCode::InvalidState);
        }
        if bid_amount == 0 {
            return Err(ErrorCode::InvalidParams);
        }

        let direction: bool = match pool.detect_direction(self.bid_mint, self.ask_mint) {
            Some(d) => d,
            None => {
                return Err(ErrorCode::UnmatchPool);
            },
        };

        let fee: u64 = match pool.calc_fee(bid_amount) {
            Some(f) => f,
            None => {
                return Err(ErrorCode::Overflow);
            },
        };
        let tax: u64 = match platform_config.calc_tax(bid_amount) {
            Some(t) => t,
            None => {
                return Err(ErrorCode::Overflow);
            },
        };
        let after_fee: u64 = match bid_amount.checked_sub(fee) {
            Some(x) => x,
            None => {
                return Err(ErrorCode::Overflow);
            },
        };
        let net_bid: u64 = match after_fee.checked_sub(tax) {
            Some(x) => x,
            None => {
                return Err(ErrorCode::Overflow);
            },
        };

        let bid_fees: u64 = if direction {
            pool.lp_fees_mint_a
        } else {
            pool.lp_fees_mint_b
        };
        let ask_fees: u64 = if direction {
            pool.lp_fees_mint_b
        } else {
            pool.lp_fees_mint_a
        };
        if self.bid_treasury_amount < bid_fees || self.ask_treasury_amount < ask_fees {
            return Err(ErrorCode::Overflow);
        }

        let bid_reserve: u128 = (self.bid_treasury_amount - bid_fees) as u128;
        let ask_reserve: u128 = (self.ask_treasury_amount - ask_fees) as u128;

        proof {
            assert((bid_reserve as int) * (ask_reserve as int) <= (u64::MAX as int) * (
            u64::MAX as int)) by (nonlinear_arith)
                requires
                    0 <= bid_reserve <= u64::MAX,
                    0 <= ask_reserve <= u64::MAX,
            ;
        }
        // The product constant of the curve.
        let liquidity: u128 = bid_reserve * ask_reserve;
        let next_bid_reserve: u128 = bid_reserve + net_bid as u128;
        if next_bid_reserve == 0 {
            return Err(ErrorCode::Overflow);
        }
        let next_ask_reserve: u128 = liquidity / next_bid_reserve;

        proof {
            lemma_mul_inequality(bid_reserve as int, next_bid_reserve as int, ask_reserve as int);
            lemma_div_is_ordered(
                (bid_reserve as int) * (ask_reserve as int),
                (next_bid_reserve as int) * (ask_reserve as int),
                next_bid_reserve as int,
            );
            lemma_div_multiples_vanish(ask_reserve as int, next_bid_reserve as int);
        }
        let ask_amount_wide: u128 = ask_reserve - next_ask_reserve;
        let ask_amount: u64 = ask_amount_wide as u64;

        if ask_amount < limit {
            return Err(ErrorCode::LargeSlippage);
        }

        if direction {
            let accrued: u64 = match pool.lp_fees_mint_a.checked_add(fee) {
                Some(x) => x,
                None => {
                    return Err(ErrorCode::Overflow);
                },
            };
            pool.lp_fees_mint_a = accrued;
        } else {
            let accrued: u64 = match pool.lp_fees_mint_b.checked_add(fee) {
                Some(x) => x,
                None => {
                    return Err(ErrorCode::Overflow);
                },
            };
            pool.lp_fees_mint_b = accrued;
        }

        let bid_transfer: u64 = bid_amount - tax;

        Ok(SwapEffects {
            bid_transfer,
            ask_amount,
            tax_transfer: tax,
            fee,
            event: SwapEvent {
                authority: self.authority,
                pool: self.pool_key,
                bid_mint: self.bid_mint,
                ask_mint: self.ask_mint,
                bid_amount,
                ask_amount,
            },
        })
    }
}

} // verus!
