use vstd::prelude::*;

use crate::error::ExchangeError;
use crate::state::{HpLiquidity, Market, MarketSide};

verus! {

/// Share of the house profit, in basis points, paid to the insurance fund.
pub const INSURANCE_FUND_FEE_BPS: u64 = 100;

/// Share of the house profit, in basis points, paid to the foundation.
pub const FOUNDATION_FEE_BPS: u64 = 500;

pub const BPS_DENOMINATOR: u64 = 10000;

/// What the pool holds beyond its reserved and owed amounts, if anything.
pub open spec fn available_liquidity_of(custody: int, pool: HpLiquidity) -> int {
    custody - pool.locked_liquidity - pool.live_liquidity - pool.bettor_balance
}

/// Custody balance minus locked, live and bettor balance, each subtraction checked.
pub fn calculate_available_liquidity(custody_balance: u64, pool: &HpLiquidity) -> (r: Result<
    u64,
    ExchangeError,
>)
    ensures
        available_liquidity_of(custody_balance as int, *pool) >= 0 ==> r == Ok::<
            u64,
            ExchangeError,
        >(available_liquidity_of(custody_balance as int, *pool) as u64),
        available_liquidity_of(custody_balance as int, *pool) < 0 ==> r == Err::<
            u64,
            ExchangeError,
        >(ExchangeError::AmountOverflow),
{
    if custody_balance < pool.locked_liquidity {
        return Err(ExchangeError::AmountOverflow);
    }
    let a = custody_balance - pool.locked_liquidity;
    if a < pool.live_liquidity {
        return Err(ExchangeError::AmountOverflow);
    }
    let b = a - pool.live_liquidity;
    if b < pool.bettor_balance {
        return Err(ExchangeError::AmountOverflow);
    }
    Ok(b - pool.bettor_balance)
}

/// The payout of a bet of `risk` at American odds `odds` (not zero), rounded down:
/// `risk * odds / 100` for positive odds, `risk * 100 / -odds` for negative ones.
pub open spec fn payout_amount(odds: int, risk: int) -> int {
    if odds > 0 {
        risk * odds / 100
    } else {
        risk * 100 / (-odds)
    }
}

/// The payout as `calculate_payout` returns it: none for zero odds, nor where
/// the amount does not fit in a `u64`.
pub open spec fn payout_of(odds: i64, risk: u64) -> Option<u64> {
    if odds == 0 || payout_amount(odds as int, risk as int) > u64::MAX {
        None
    } else {
        Some(payout_amount(odds as int, risk as int) as u64)
    }
}

pub fn calculate_payout(odds: i64, risk: u64) -> (r: Option<u64>)
    ensures
        r == payout_of(odds, risk),
{
    let stake = risk as u128;
    if odds > 0 {
        let o = odds as u128;
        proof {
            assert(stake * o <= 0xffff_ffff_ffff_ffffu128 * 0x7fff_ffff_ffff_ffffu128)
                by (nonlinear_arith)
                requires
                    stake <= 0xffff_ffff_ffff_ffffu128,
                    o <= 0x7fff_ffff_ffff_ffffu128,
            ;
        }
        let p = stake * o / 100;
        if p > u64::MAX as u128 {
            None
        } else {
            Some(p as u64)
        }
    } else if odds < 0 {
        let o = (0i128 - odds as i128) as u128;
        let p = stake * 100 / o;
        if p > u64::MAX as u128 {
            None
        } else {
            Some(p as u64)
        }
    } else {
        None
    }
}

/// What the pool must add to the other sides' stakes to pay a side that wins.
pub open spec fn side_excess(payout: int, other_a: int, other_b: int) -> int {
    if payout > other_a + other_b {
        payout - other_a - other_b
    } else {
        0
    }
}

pub open spec fn max3(a: int, b: int, c: int) -> int {
    if a >= b && a >= c {
        a
    } else if b >= c {
        b
    } else {
        c
    }
}

/// The worst-case shortfall over the three sides of a market.
pub open spec fn locked_liquidity_of(sides: [MarketSide; 3]) -> int {
    max3(
        side_excess(sides[0].payout as int, sides[1].risk as int, sides[2].risk as int),
        side_excess(sides[1].payout as int, sides[0].risk as int, sides[2].risk as int),
        side_excess(sides[2].payout as int, sides[0].risk as int, sides[1].risk as int),
    )
}

fn excess(payout: u64, other_a: u64, other_b: u64) -> (r: u64)
    ensures
        r == side_excess(payout as int, other_a as int, other_b as int),
{
    if payout > other_a && payout - other_a > other_b {
        payout - other_a - other_b
    } else {
        0
    }
}

/// The pool capital that a market needs reserved: the largest amount by which
/// one side's payout exceeds the stakes of the two other sides.
pub fn calculate_locked_liquidity(market: &Market) -> (r: u64)
    ensures
        r == locked_liquidity_of(market.market_sides),
{
    let s0 = market.market_sides[0];
    let s1 = market.market_sides[1];
    let s2 = market.market_sides[2];
    let l0 = excess(s0.payout, s1.risk, s2.risk);
    let l1 = excess(s1.payout, s0.risk, s2.risk);
    let l2 = excess(s2.payout, s0.risk, s1.risk);
    if l0 >= l1 && l0 >= l2 {
        l0
    } else if l1 >= l2 {
        l1
    } else {
        l2
    }
}

/// The fee, rounded down, that `bps` basis points of `profit` make.
pub open spec fn fee_of(profit: int, bps: int) -> int {
    profit * bps / 10000
}

/// Splits a house profit into the insurance fund fee and the foundation fee.
pub fn calculate_fees(house_profit: u64) -> (r: (u64, u64))
    ensures
        r.0 == fee_of(house_profit as int, INSURANCE_FUND_FEE_BPS as int),
        r.1 == fee_of(house_profit as int, FOUNDATION_FEE_BPS as int),
        r.0 + r.1 <= house_profit,
{
    let p = house_profit as u128;
    let insurance = p * (INSURANCE_FUND_FEE_BPS as u128) / (BPS_DENOMINATOR as u128);
    let foundation = p * (FOUNDATION_FEE_BPS as u128) / (BPS_DENOMINATOR as u128);
    proof {
        assert(p * 100 / 10000 + p * 500 / 10000 <= p) by (nonlinear_arith)
            requires
                p >= 0,
        ;
    }
    (insurance as u64, foundation as u64)
}

} // verus!
