use divvy::error::ExchangeError;
use divvy::fixed_point::scale_amount;
use divvy::liquidity::{
    calculate_available_liquidity, calculate_fees, calculate_locked_liquidity, calculate_payout,
};
use divvy::state::{Address, HpLiquidity, Market, MarketSide, MoneylineMarketOutcome};

fn addr(b: u8) -> Address {
    Address { bytes: [b; 32] }
}

fn pool(locked: u64, live: u64, bettor: u64) -> HpLiquidity {
    HpLiquidity {
        is_initialized: true,
        locked_liquidity: locked,
        live_liquidity: live,
        bettor_balance: bettor,
        pending_bets: 0,
        ht_mint: addr(1),
        pool_usdt: addr(2),
        insurance_fund_usdt: addr(3),
        divvy_foundation_proceeds_usdt: addr(4),
        frozen_pool: false,
        frozen_betting: false,
    }
}

fn market_with(payouts: [u64; 3], risks: [u64; 3]) -> Market {
    let side = |i: usize| MarketSide { feed_account: addr(10 + i as u8), payout: payouts[i], risk: risks[i] };
    Market {
        is_initialized: true,
        market_sides: [side(0), side(1), side(2)],
        locked_liquidity: 0,
        result_feed: addr(20),
        result: MoneylineMarketOutcome::NotYetCommenced,
        bettor_balance: 0,
        pending_bets: 0,
    }
}

#[test]
fn payout_positive_odds() {
    assert_eq!(calculate_payout(150, 100), Some(150));
}

#[test]
fn payout_negative_odds() {
    assert_eq!(calculate_payout(-200, 100), Some(50));
}

#[test]
fn payout_zero_odds_is_rejected() {
    assert_eq!(calculate_payout(0, 100), None);
}

#[test]
fn payout_rounds_down() {
    assert_eq!(calculate_payout(150, 1), Some(1));
    assert_eq!(calculate_payout(-300, 1), Some(0));
    assert_eq!(calculate_payout(-110, 55), Some(50));
}

#[test]
fn payout_too_large_is_none() {
    assert_eq!(calculate_payout(1000, u64::MAX), None);
    assert_eq!(calculate_payout(-1, u64::MAX), None);
    assert_eq!(calculate_payout(100, u64::MAX), Some(u64::MAX));
    assert_eq!(calculate_payout(i64::MIN, 100), Some(0));
}

#[test]
fn locked_liquidity_worst_side_net_of_other_stakes() {
    let m = market_with([300, 0, 0], [0, 100, 120]);
    assert_eq!(calculate_locked_liquidity(&m), 80);
}

#[test]
fn locked_liquidity_zero_when_stakes_cover_payouts() {
    let m = market_with([60, 50, 0], [60, 70, 0]);
    assert_eq!(calculate_locked_liquidity(&m), 0);
}

#[test]
fn locked_liquidity_takes_largest_side() {
    let m = market_with([150, 400, 90], [100, 200, 10]);
    // side 0: 150 - 210 < 0; side 1: 400 - 110 = 290; side 2: 90 - 300 < 0
    assert_eq!(calculate_locked_liquidity(&m), 290);
}

#[test]
fn locked_liquidity_with_huge_stakes() {
    let m = market_with([u64::MAX, 5, 0], [u64::MAX, u64::MAX, 0]);
    assert_eq!(calculate_locked_liquidity(&m), 0);
}

#[test]
fn available_liquidity_is_the_remainder() {
    assert_eq!(calculate_available_liquidity(1000, &pool(100, 200, 300)), Ok(400));
    assert_eq!(calculate_available_liquidity(600, &pool(100, 200, 300)), Ok(0));
}

#[test]
fn available_liquidity_underflow_is_an_error() {
    assert_eq!(
        calculate_available_liquidity(599, &pool(100, 200, 300)),
        Err(ExchangeError::AmountOverflow)
    );
    assert_eq!(calculate_available_liquidity(0, &pool(1, 0, 0)), Err(ExchangeError::AmountOverflow));
}

#[test]
fn fees_in_basis_points() {
    assert_eq!(calculate_fees(1000), (10, 50));
    assert_eq!(calculate_fees(99), (0, 4));
    assert_eq!(calculate_fees(0), (0, 0));
    assert_eq!(calculate_fees(u64::MAX), (u64::MAX / 100, u64::MAX / 20));
}

#[test]
fn scale_amount_in_fixed_point() {
    assert_eq!(scale_amount(1000, 2000, 100), Some(50));
    assert_eq!(scale_amount(2000, 1000, 100), Some(200));
    assert_eq!(scale_amount(1, 3, 3), Some(0));
    assert_eq!(scale_amount(1, 0, 3), None);
    assert_eq!(scale_amount(u64::MAX, 1, 2), None);
}
