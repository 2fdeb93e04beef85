use divvy::error::ExchangeError;
use divvy::processor::Processor;
use divvy::state::{Address, Bet, HpLiquidity, Market, MarketSide, MoneylineMarketOutcome};

fn addr(b: u8) -> Address {
    Address { bytes: [b; 32] }
}

const HT_MINT: u8 = 1;
const POOL_USDT: u8 = 2;
const INSURANCE: u8 = 3;
const FOUNDATION: u8 = 4;
const FEED0: u8 = 10;
const FEED1: u8 = 11;
const FEED2: u8 = 12;
const RESULT_FEED: u8 = 20;
const MARKET_KEY: u8 = 30;
const USER_USDT: u8 = 40;
const USER_MAIN: u8 = 41;

fn blank_pool() -> HpLiquidity {
    HpLiquidity {
        is_initialized: false,
        locked_liquidity: 0,
        live_liquidity: 0,
        bettor_balance: 0,
        pending_bets: 0,
        ht_mint: addr(0),
        pool_usdt: addr(0),
        insurance_fund_usdt: addr(0),
        divvy_foundation_proceeds_usdt: addr(0),
        frozen_pool: false,
        frozen_betting: false,
    }
}

fn blank_market() -> Market {
    let side = MarketSide { feed_account: addr(0), payout: 0, risk: 0 };
    Market {
        is_initialized: false,
        market_sides: [side, side, side],
        locked_liquidity: 0,
        result_feed: addr(0),
        result: MoneylineMarketOutcome::MarketSide0Won,
        bettor_balance: 0,
        pending_bets: 0,
    }
}

fn blank_bet() -> Bet {
    Bet {
        is_initialized: false,
        market: addr(0),
        user_usdt_account: addr(0),
        user_main_account: addr(0),
        user_risk: 0,
        user_payout: 0,
        user_market_side: 0,
        outcome: 0,
    }
}

fn ready() -> (HpLiquidity, Market) {
    let mut pool = blank_pool();
    Processor::process_ownership(
        &mut pool,
        true,
        true,
        addr(HT_MINT),
        addr(POOL_USDT),
        addr(INSURANCE),
        addr(FOUNDATION),
    )
    .unwrap();
    let mut market = blank_market();
    Processor::process_init_moneyline_market(
        &pool,
        &mut market,
        true,
        true,
        [addr(FEED0), addr(FEED1), addr(FEED2)],
        addr(RESULT_FEED),
    )
    .unwrap();
    (pool, market)
}

fn feed(side: u8) -> Address {
    addr(FEED0 + side)
}

fn open(
    pool: &mut HpLiquidity,
    market: &mut Market,
    custody: u64,
    risk: u64,
    side: u8,
    odds: Option<i64>,
) -> (Result<(), ExchangeError>, Bet) {
    let mut bet = blank_bet();
    let r = Processor::process_init_bet(
        pool,
        market,
        &mut bet,
        true,
        true,
        custody,
        addr(POOL_USDT),
        feed(side),
        addr(MARKET_KEY),
        addr(USER_USDT),
        addr(USER_MAIN),
        risk,
        side,
        odds,
    );
    (r, bet)
}

fn settle_market(pool: &mut HpLiquidity, market: &mut Market, result: Option<i64>) -> Result<(u64, u64), ExchangeError> {
    Processor::process_settle_moneyline_market(
        pool,
        market,
        true,
        addr(RESULT_FEED),
        addr(POOL_USDT),
        addr(INSURANCE),
        addr(FOUNDATION),
        result,
    )
}

fn settle_bet(pool: &mut HpLiquidity, market: &mut Market, bet: &mut Bet) -> Result<u64, ExchangeError> {
    Processor::process_settle_bet(pool, market, bet, addr(POOL_USDT), addr(MARKET_KEY), addr(USER_USDT), addr(USER_MAIN))
}

#[test]
fn end_to_end_single_winning_bet() {
    let (mut pool, mut market) = ready();
    assert!(pool.is_initialized);
    assert_eq!(market.result, MoneylineMarketOutcome::NotYetCommenced);

    let (r, mut bet) = open(&mut pool, &mut market, 1000, 100, 0, Some(150));
    assert_eq!(r, Ok(()));
    assert_eq!(bet.user_payout, 150);
    assert_eq!(bet.outcome, 0);
    assert_eq!(market.locked_liquidity, 150);
    assert_eq!(pool.locked_liquidity, 150);
    assert_eq!(market.bettor_balance, 100);
    assert_eq!(pool.bettor_balance, 100);

    assert_eq!(Processor::process_commence_market(&mut pool, &mut market, true), Ok(()));
    assert_eq!(pool.locked_liquidity, 0);
    assert_eq!(pool.live_liquidity, 150);
    assert_eq!(market.result, MoneylineMarketOutcome::Commenced);

    assert_eq!(settle_market(&mut pool, &mut market, Some(0)), Ok((0, 0)));
    assert_eq!(market.result, MoneylineMarketOutcome::MarketSide0Won);
    assert_eq!(market.bettor_balance, 250);
    assert_eq!(market.locked_liquidity, 0);
    assert_eq!(pool.live_liquidity, 0);
    assert_eq!(pool.bettor_balance, 250);

    assert_eq!(settle_bet(&mut pool, &mut market, &mut bet), Ok(250));
    assert_eq!(bet.outcome, 1);
    assert_eq!(market.pending_bets, 0);
    assert_eq!(market.market_sides[0].risk, 0);
    assert_eq!(market.market_sides[0].payout, 0);
    assert_eq!(market.bettor_balance, 0);
    assert_eq!(pool.bettor_balance, 0);
    assert_eq!(pool.pending_bets, 0);
}

#[test]
fn stakes_add_up_to_bettor_balance() {
    let (mut pool, mut market) = ready();
    let stakes = [(100u64, 0u8, 150i64), (40, 1, -200), (75, 2, 300), (10, 0, -110)];
    let mut total = 0u64;
    for (risk, side, odds) in stakes {
        let (r, bet) = open(&mut pool, &mut market, 100_000, risk, side, Some(odds));
        assert_eq!(r, Ok(()));
        assert_eq!(bet.user_risk, risk);
        total += risk;
        assert_eq!(market.bettor_balance, total);
        let side_sum: u64 = market.market_sides.iter().map(|s| s.risk).sum();
        assert_eq!(side_sum, total);
        assert_eq!(market.locked_liquidity, divvy::liquidity::calculate_locked_liquidity(&market));
    }
    assert_eq!(market.pending_bets, 4);
    assert_eq!(pool.pending_bets, 4);
    assert_eq!(Processor::process_commence_market(&mut pool, &mut market, true), Ok(()));
    assert_eq!(market.bettor_balance, total);
}

#[test]
fn bet_beyond_available_liquidity_is_refused() {
    let (mut pool, mut market) = ready();
    let before_pool = pool;
    let before_market = market;
    // payout 150 needs 150 reserved, only 149 available
    let (r, bet) = open(&mut pool, &mut market, 149, 100, 0, Some(150));
    assert_eq!(r, Err(ExchangeError::NotEnoughAvailableLiquidityForBet));
    assert!(!bet.is_initialized);
    assert_eq!(format!("{:?}", pool), format!("{:?}", before_pool));
    assert_eq!(format!("{:?}", market), format!("{:?}", before_market));
    let (r, _) = open(&mut pool, &mut market, 150, 100, 0, Some(150));
    assert_eq!(r, Ok(()));
    assert!(pool.locked_liquidity + pool.live_liquidity + pool.bettor_balance <= 150 + 100);
}

#[test]
fn reserved_and_owed_never_exceed_custody() {
    let (mut pool, mut market) = ready();
    let mut custody = 500u64;
    let bets = [(100u64, 0u8, 250i64), (100, 1, 250), (300, 0, 100), (50, 2, 900), (1, 1, 20000)];
    for (risk, side, odds) in bets {
        let (r, _) = open(&mut pool, &mut market, custody, risk, side, Some(odds));
        if r.is_ok() {
            custody += risk;
        }
        assert!(pool.locked_liquidity + pool.live_liquidity + pool.bettor_balance <= custody);
    }
}

#[test]
fn settling_twice_fails() {
    let (mut pool, mut market) = ready();
    let (_, mut bet) = open(&mut pool, &mut market, 1000, 100, 1, Some(-200));
    let (_, mut other) = open(&mut pool, &mut market, 1000, 60, 1, Some(100));
    Processor::process_commence_market(&mut pool, &mut market, true).unwrap();
    settle_market(&mut pool, &mut market, Some(1)).unwrap();
    assert_eq!(settle_bet(&mut pool, &mut market, &mut bet), Ok(150));
    let (p, m, b) = (format!("{:?}", pool), format!("{:?}", market), format!("{:?}", bet));
    assert_eq!(settle_bet(&mut pool, &mut market, &mut bet), Err(ExchangeError::BetAlreadySettled));
    assert_eq!(format!("{:?}", pool), p);
    assert_eq!(format!("{:?}", market), m);
    assert_eq!(format!("{:?}", bet), b);
    assert_eq!(settle_bet(&mut pool, &mut market, &mut other), Ok(120));
}

#[test]
fn losing_and_winning_bets_unwind_to_zero() {
    let (mut pool, mut market) = ready();
    let (_, mut a) = open(&mut pool, &mut market, 10_000, 100, 0, Some(150));
    let (_, mut b) = open(&mut pool, &mut market, 10_000, 200, 1, Some(-150));
    let (_, mut c) = open(&mut pool, &mut market, 10_000, 50, 1, Some(200));
    let (_, mut d) = open(&mut pool, &mut market, 10_000, 70, 2, Some(400));
    Processor::process_commence_market(&mut pool, &mut market, true).unwrap();
    // side 1 wins: owed 200 + 133 + 50 + 100 = 483; stakes 420
    assert_eq!(settle_market(&mut pool, &mut market, Some(1)), Ok((0, 0)));
    assert_eq!(market.bettor_balance, 483);
    assert_eq!(settle_bet(&mut pool, &mut market, &mut a), Ok(0));
    assert_eq!(a.outcome, 2);
    assert_eq!(settle_bet(&mut pool, &mut market, &mut b), Ok(333));
    assert_eq!(settle_bet(&mut pool, &mut market, &mut d), Ok(0));
    assert_eq!(market.pending_bets, 1);
    assert_eq!(settle_bet(&mut pool, &mut market, &mut c), Ok(150));
    assert_eq!(market.pending_bets, 0);
    assert_eq!(market.market_sides[1].risk, 0);
    assert_eq!(market.market_sides[1].payout, 0);
    assert_eq!(market.bettor_balance, 0);
    assert_eq!(pool.bettor_balance, 0);
}

#[test]
fn house_profit_pays_fees() {
    let (mut pool, mut market) = ready();
    let (_, _a) = open(&mut pool, &mut market, 10_000, 1000, 0, Some(150));
    let (_, _b) = open(&mut pool, &mut market, 10_000, 1000, 1, Some(150));
    Processor::process_commence_market(&mut pool, &mut market, true).unwrap();
    assert_eq!(pool.live_liquidity, 500);
    // side 2 had no bets: the house keeps 2000 of stakes
    assert_eq!(settle_market(&mut pool, &mut market, Some(2)), Ok((20, 100)));
    assert_eq!(market.bettor_balance, 0);
    assert_eq!(pool.bettor_balance, 0);
    assert_eq!(pool.live_liquidity, 0);
}

#[test]
fn settle_bet_before_market_settles_fails() {
    let (mut pool, mut market) = ready();
    let (_, mut bet) = open(&mut pool, &mut market, 1000, 100, 0, Some(150));
    assert_eq!(settle_bet(&mut pool, &mut market, &mut bet), Err(ExchangeError::MarketNotSettled));
    Processor::process_commence_market(&mut pool, &mut market, true).unwrap();
    assert_eq!(settle_bet(&mut pool, &mut market, &mut bet), Err(ExchangeError::MarketNotSettled));
    assert_eq!(bet.outcome, 0);
}

#[test]
fn open_bet_errors() {
    let (mut pool, mut market) = ready();
    assert_eq!(open(&mut pool, &mut market, 1000, 0, 0, Some(150)).0, Err(ExchangeError::BetRiskZero));
    assert_eq!(open(&mut pool, &mut market, 1000, 100, 0, None).0, Err(ExchangeError::FeedNotInitialized));
    assert_eq!(open(&mut pool, &mut market, 1000, 100, 0, Some(0)).0, Err(ExchangeError::InvalidFeedAccount));
    assert_eq!(open(&mut pool, &mut market, 1000, 1, 0, Some(-500)).0, Err(ExchangeError::BetPayoutZero));
    assert_eq!(open(&mut pool, &mut market, 1000, 1, 3, Some(100)).0, Err(ExchangeError::InvalidInstruction));
    assert_eq!(open(&mut pool, &mut market, 0, 1, 0, Some(100)).0, Err(ExchangeError::NotEnoughAvailableLiquidityForBet));
    assert_eq!(open(&mut pool, &mut market, 10, 1, 0, Some(100)).0, Ok(()));
    let mut bet = blank_bet();
    let wrong_feed = Processor::process_init_bet(
        &mut pool, &mut market, &mut bet, true, true, 1000, addr(POOL_USDT), feed(1),
        addr(MARKET_KEY), addr(USER_USDT), addr(USER_MAIN), 100, 0, Some(150),
    );
    assert_eq!(wrong_feed, Err(ExchangeError::InvalidFeedAccount));
    let unsigned = Processor::process_init_bet(
        &mut pool, &mut market, &mut bet, false, true, 1000, addr(POOL_USDT), feed(0),
        addr(MARKET_KEY), addr(USER_USDT), addr(USER_MAIN), 100, 0, Some(150),
    );
    assert_eq!(unsigned, Err(ExchangeError::MissingRequiredSignature));
    let not_exempt = Processor::process_init_bet(
        &mut pool, &mut market, &mut bet, true, false, 1000, addr(POOL_USDT), feed(0),
        addr(MARKET_KEY), addr(USER_USDT), addr(USER_MAIN), 100, 0, Some(150),
    );
    assert_eq!(not_exempt, Err(ExchangeError::NotRentExempt));
    let wrong_pool = Processor::process_init_bet(
        &mut pool, &mut market, &mut bet, true, true, 1000, addr(99), feed(0),
        addr(MARKET_KEY), addr(USER_USDT), addr(USER_MAIN), 100, 0, Some(150),
    );
    assert_eq!(wrong_pool, Err(ExchangeError::InvalidPoolUsdtAccount));
    // pool owes more than it holds
    assert_eq!(open(&mut pool, &mut market, 0, 100, 0, Some(150)).0, Err(ExchangeError::AmountOverflow));
}

#[test]
fn open_bet_on_initialized_bet_fails() {
    let (mut pool, mut market) = ready();
    let (_, mut bet) = open(&mut pool, &mut market, 1000, 100, 0, Some(150));
    let r = Processor::process_init_bet(
        &mut pool, &mut market, &mut bet, true, true, 1000, addr(POOL_USDT), feed(0),
        addr(MARKET_KEY), addr(USER_USDT), addr(USER_MAIN), 100, 0, Some(150),
    );
    assert_eq!(r, Err(ExchangeError::BetAlreadyInitialized));
}

#[test]
fn frozen_betting_blocks_bets_and_commence() {
    let (mut pool, mut market) = ready();
    assert_eq!(Processor::process_freeze(&mut pool, false, false, true), Err(ExchangeError::NotValidAuthority));
    assert_eq!(Processor::process_freeze(&mut pool, true, false, true), Ok(()));
    assert!(pool.frozen_betting);
    assert!(!pool.frozen_pool);
    assert_eq!(open(&mut pool, &mut market, 1000, 100, 0, Some(150)).0, Err(ExchangeError::BettingFrozen));
    assert_eq!(Processor::process_commence_market(&mut pool, &mut market, true), Err(ExchangeError::BettingFrozen));
    assert_eq!(Processor::process_freeze(&mut pool, true, true, false), Ok(()));
    assert!(pool.frozen_pool);
    assert_eq!(open(&mut pool, &mut market, 1000, 100, 0, Some(150)).0, Ok(()));
}

#[test]
fn commence_and_settle_market_errors() {
    let (mut pool, mut market) = ready();
    assert_eq!(Processor::process_commence_market(&mut pool, &mut market, false), Err(ExchangeError::NotValidAuthority));
    assert_eq!(settle_market(&mut pool, &mut market, Some(0)), Err(ExchangeError::MarketAlreadySettled));
    Processor::process_commence_market(&mut pool, &mut market, true).unwrap();
    assert_eq!(Processor::process_commence_market(&mut pool, &mut market, true), Err(ExchangeError::MarketCommenced));
    assert_eq!(settle_market(&mut pool, &mut market, None), Err(ExchangeError::FeedNotInitialized));
    assert_eq!(settle_market(&mut pool, &mut market, Some(3)), Err(ExchangeError::NotValidMarketResult));
    assert_eq!(settle_market(&mut pool, &mut market, Some(-1)), Err(ExchangeError::NotValidMarketResult));
    let wrong_feed = Processor::process_settle_moneyline_market(
        &mut pool, &mut market, true, addr(FEED0), addr(POOL_USDT), addr(INSURANCE), addr(FOUNDATION), Some(0),
    );
    assert_eq!(wrong_feed, Err(ExchangeError::NotValidAuthority));
    let wrong_insurance = Processor::process_settle_moneyline_market(
        &mut pool, &mut market, true, addr(RESULT_FEED), addr(POOL_USDT), addr(FOUNDATION), addr(FOUNDATION), Some(0),
    );
    assert_eq!(wrong_insurance, Err(ExchangeError::InvalidInsuranceFundUsdtAccount));
    let wrong_foundation = Processor::process_settle_moneyline_market(
        &mut pool, &mut market, true, addr(RESULT_FEED), addr(POOL_USDT), addr(INSURANCE), addr(INSURANCE), Some(0),
    );
    assert_eq!(wrong_foundation, Err(ExchangeError::InvalidDivvyFoundationUsdtAccount));
    assert_eq!(settle_market(&mut pool, &mut market, Some(2)), Ok((0, 0)));
    assert_eq!(market.result, MoneylineMarketOutcome::MarketSide2Won);
    assert_eq!(settle_market(&mut pool, &mut market, Some(2)), Err(ExchangeError::MarketAlreadySettled));
}

#[test]
fn init_errors() {
    let mut pool = blank_pool();
    let mut market = blank_market();
    let sides = [addr(FEED0), addr(FEED1), addr(FEED2)];
    assert_eq!(
        Processor::process_init_moneyline_market(&pool, &mut market, true, true, sides, addr(RESULT_FEED)),
        Err(ExchangeError::HpLiquidityNotInitialized)
    );
    assert_eq!(
        Processor::process_ownership(&mut pool, true, false, addr(1), addr(2), addr(3), addr(4)),
        Err(ExchangeError::NotRentExempt)
    );
    assert_eq!(
        Processor::process_ownership(&mut pool, false, true, addr(1), addr(2), addr(3), addr(4)),
        Err(ExchangeError::NotValidAuthority)
    );
    assert!(!pool.is_initialized);
    assert_eq!(Processor::process_ownership(&mut pool, true, true, addr(1), addr(2), addr(3), addr(4)), Ok(()));
    assert_eq!(pool.pool_usdt.bytes, [2u8; 32]);
    assert_eq!(
        Processor::process_ownership(&mut pool, true, true, addr(1), addr(2), addr(3), addr(4)),
        Err(ExchangeError::HpLiquidityAlreadyInitialized)
    );
    assert_eq!(
        Processor::process_init_moneyline_market(&pool, &mut market, false, true, sides, addr(RESULT_FEED)),
        Err(ExchangeError::NotValidAuthority)
    );
    assert_eq!(
        Processor::process_init_moneyline_market(&pool, &mut market, true, false, sides, addr(RESULT_FEED)),
        Err(ExchangeError::NotRentExempt)
    );
    assert_eq!(
        Processor::process_init_moneyline_market(&pool, &mut market, true, true, sides, addr(RESULT_FEED)),
        Ok(())
    );
    assert_eq!(market.market_sides[2].feed_account.bytes, [FEED2; 32]);
    assert_eq!(
        Processor::process_init_moneyline_market(&pool, &mut market, true, true, sides, addr(RESULT_FEED)),
        Err(ExchangeError::MarketAlreadyInitialized)
    );
}

#[test]
fn settle_bet_cross_references_are_checked() {
    let (mut pool, mut market) = ready();
    let (_, mut bet) = open(&mut pool, &mut market, 1000, 100, 0, Some(150));
    Processor::process_commence_market(&mut pool, &mut market, true).unwrap();
    settle_market(&mut pool, &mut market, Some(0)).unwrap();
    let r = Processor::process_settle_bet(&mut pool, &mut market, &mut bet, addr(POOL_USDT), addr(31), addr(USER_USDT), addr(USER_MAIN));
    assert_eq!(r, Err(ExchangeError::ExpectedDataMismatch));
    let r = Processor::process_settle_bet(&mut pool, &mut market, &mut bet, addr(POOL_USDT), addr(MARKET_KEY), addr(USER_MAIN), addr(USER_MAIN));
    assert_eq!(r, Err(ExchangeError::ExpectedDataMismatch));
    let r = Processor::process_settle_bet(&mut pool, &mut market, &mut bet, addr(POOL_USDT), addr(MARKET_KEY), addr(USER_USDT), addr(USER_USDT));
    assert_eq!(r, Err(ExchangeError::ExpectedDataMismatch));
    let r = Processor::process_settle_bet(&mut pool, &mut market, &mut bet, addr(INSURANCE), addr(MARKET_KEY), addr(USER_USDT), addr(USER_MAIN));
    assert_eq!(r, Err(ExchangeError::InvalidPoolUsdtAccount));
    assert_eq!(settle_bet(&mut pool, &mut market, &mut bet), Ok(250));
}

#[test]
fn residual_after_last_bet_is_fatal() {
    let (mut pool, mut market) = ready();
    let (_, mut bet) = open(&mut pool, &mut market, 1000, 100, 0, Some(150));
    Processor::process_commence_market(&mut pool, &mut market, true).unwrap();
    settle_market(&mut pool, &mut market, Some(0)).unwrap();
    // a ledger that disagrees with the bet
    market.market_sides[0].risk += 1;
    let before = format!("{:?}", market);
    assert_eq!(settle_bet(&mut pool, &mut market, &mut bet), Err(ExchangeError::MarketSideRiskRemaining));
    assert_eq!(format!("{:?}", market), before);
    assert_eq!(bet.outcome, 0);
}
