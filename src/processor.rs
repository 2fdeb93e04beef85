use vstd::prelude::*;

use crate::error::ExchangeError;
use crate::liquidity::{
    available_liquidity_of, calculate_available_liquidity, calculate_fees, calculate_locked_liquidity,
    calculate_payout, fee_of, locked_liquidity_of, payout_of, FOUNDATION_FEE_BPS,
    INSURANCE_FUND_FEE_BPS,
};
use crate::state::{
    outcome_code, Address, Bet, HpLiquidity, Market, MarketSide, MoneylineMarketOutcome, BET_LOST,
    BET_PENDING, BET_WON,
};

verus! {

/// The state transitions of the exchange. Each takes the records it reads and
/// writes, together with what the host has established (signatures, rent
/// exemption, the keys of the accounts presented, what the oracle reported),
/// and either fails with every record unchanged or applies the whole update.
pub struct Processor;

pub open spec fn same(a: Address, b: Address) -> bool {
    a.bytes@ == b.bytes@
}

/// The market with side `i` replaced by `s`.
pub open spec fn with_side(m: Market, i: int, s: MarketSide) -> Market {
    Market {
        market_sides: [
            if i == 0 { s } else { m.market_sides[0] },
            if i == 1 { s } else { m.market_sides[1] },
            if i == 2 { s } else { m.market_sides[2] },
        ],
        ..m
    }
}

pub open spec fn fresh_side(feed: Address) -> MarketSide {
    MarketSide { feed_account: feed, payout: 0, risk: 0 }
}

/// Initialising the house pool record.
pub open spec fn ownership_outcome(
    pool: HpLiquidity,
    authority_signed: bool,
    rent_exempt: bool,
    ht_mint: Address,
    pool_usdt: Address,
    insurance_fund_usdt: Address,
    divvy_foundation_proceeds_usdt: Address,
) -> Result<HpLiquidity, ExchangeError> {
    if pool.is_initialized {
        Err(ExchangeError::HpLiquidityAlreadyInitialized)
    } else if !rent_exempt {
        Err(ExchangeError::NotRentExempt)
    } else if !authority_signed {
        Err(ExchangeError::NotValidAuthority)
    } else {
        Ok(
            HpLiquidity {
                is_initialized: true,
                locked_liquidity: 0,
                live_liquidity: 0,
                bettor_balance: 0,
                pending_bets: 0,
                ht_mint,
                pool_usdt,
                insurance_fund_usdt,
                divvy_foundation_proceeds_usdt,
                frozen_pool: false,
                frozen_betting: false,
            },
        )
    }
}

/// Setting the two kill-switches of the pool.
pub open spec fn freeze_outcome(
    pool: HpLiquidity,
    authority_signed: bool,
    freeze_pool: bool,
    freeze_betting: bool,
) -> Result<HpLiquidity, ExchangeError> {
    if !authority_signed {
        Err(ExchangeError::NotValidAuthority)
    } else if !pool.is_initialized {
        Err(ExchangeError::HpLiquidityNotInitialized)
    } else {
        Ok(HpLiquidity { frozen_pool: freeze_pool, frozen_betting: freeze_betting, ..pool })
    }
}

/// Initialising a market record with its three side feeds and its result feed.
pub open spec fn init_market_outcome(
    pool: HpLiquidity,
    market: Market,
    authority_signed: bool,
    rent_exempt: bool,
    side_feeds: [Address; 3],
    result_feed: Address,
) -> Result<Market, ExchangeError> {
    if !authority_signed {
        Err(ExchangeError::NotValidAuthority)
    } else if !pool.is_initialized {
        Err(ExchangeError::HpLiquidityNotInitialized)
    } else if pool.frozen_betting {
        Err(ExchangeError::BettingFrozen)
    } else if market.is_initialized {
        Err(ExchangeError::MarketAlreadyInitialized)
    } else if !rent_exempt {
        Err(ExchangeError::NotRentExempt)
    } else {
        Ok(
            Market {
                is_initialized: true,
                market_sides: [
                    fresh_side(side_feeds[0]),
                    fresh_side(side_feeds[1]),
                    fresh_side(side_feeds[2]),
                ],
                locked_liquidity: 0,
                result_feed,
                result: MoneylineMarketOutcome::NotYetCommenced,
                bettor_balance: 0,
                pending_bets: 0,
            },
        )
    }
}

/// Closing a market to bets: its reserved capital moves from the pool's
/// locked bucket to its live bucket.
pub open spec fn commence_outcome(
    pool: HpLiquidity,
    market: Market,
    authority_signed: bool,
) -> Result<(HpLiquidity, Market), ExchangeError> {
    if !authority_signed {
        Err(ExchangeError::NotValidAuthority)
    } else if !pool.is_initialized {
        Err(ExchangeError::HpLiquidityNotInitialized)
    } else if !market.is_initialized {
        Err(ExchangeError::MarketNotInitialized)
    } else if pool.frozen_betting {
        Err(ExchangeError::BettingFrozen)
    } else if market.result != MoneylineMarketOutcome::NotYetCommenced {
        Err(ExchangeError::MarketCommenced)
    } else if pool.locked_liquidity < market.locked_liquidity || pool.live_liquidity
        + market.locked_liquidity > u64::MAX {
        Err(ExchangeError::AmountOverflow)
    } else {
        Ok(
            (
                HpLiquidity {
                    locked_liquidity: (pool.locked_liquidity - market.locked_liquidity) as u64,
                    live_liquidity: (pool.live_liquidity + market.locked_liquidity) as u64,
                    ..pool
                },
                Market { result: MoneylineMarketOutcome::Commenced, ..market },
            ),
        )
    }
}

/// The winning side that a result code names.
pub open spec fn winner_of_code(code: i64) -> MoneylineMarketOutcome {
    if code == 0 {
        MoneylineMarketOutcome::MarketSide0Won
    } else if code == 1 {
        MoneylineMarketOutcome::MarketSide1Won
    } else {
        MoneylineMarketOutcome::MarketSide2Won
    }
}

/// Settling a commenced market on the oracle's result. On success it gives the
/// new records and the fees owed to the insurance fund and to the foundation.
pub open spec fn settle_market_outcome(
    pool: HpLiquidity,
    market: Market,
    authority_signed: bool,
    result_feed_key: Address,
    pool_usdt_key: Address,
    insurance_fund_key: Address,
    foundation_key: Address,
    feed_result: Option<i64>,
) -> Result<(HpLiquidity, Market, (u64, u64)), ExchangeError> {
    if !authority_signed {
        Err(ExchangeError::NotValidAuthority)
    } else if !pool.is_initialized {
        Err(ExchangeError::HpLiquidityNotInitialized)
    } else if !market.is_initialized {
        Err(ExchangeError::MarketNotInitialized)
    } else if !same(pool_usdt_key, pool.pool_usdt) {
        Err(ExchangeError::InvalidPoolUsdtAccount)
    } else if !same(insurance_fund_key, pool.insurance_fund_usdt) {
        Err(ExchangeError::InvalidInsuranceFundUsdtAccount)
    } else if !same(foundation_key, pool.divvy_foundation_proceeds_usdt) {
        Err(ExchangeError::InvalidDivvyFoundationUsdtAccount)
    } else if pool.frozen_betting {
        Err(ExchangeError::BettingFrozen)
    } else if !same(result_feed_key, market.result_feed) {
        Err(ExchangeError::NotValidAuthority)
    } else if market.result != MoneylineMarketOutcome::Commenced {
        Err(ExchangeError::MarketAlreadySettled)
    } else if feed_result is None {
        Err(ExchangeError::FeedNotInitialized)
    } else if feed_result->Some_0 < 0 || feed_result->Some_0 > 2 {
        Err(ExchangeError::NotValidMarketResult)
    } else {
        let code = feed_result->Some_0;
        let winner = market.market_sides[code as int];
        let current = market.bettor_balance as int;
        let new_balance = winner.risk + winner.payout;
        if new_balance > u64::MAX || pool.bettor_balance < current || pool.bettor_balance
            - current + new_balance > u64::MAX || pool.live_liquidity < market.locked_liquidity {
            Err(ExchangeError::AmountOverflow)
        } else {
            let fees = if new_balance < current {
                (
                    fee_of(current - new_balance, INSURANCE_FUND_FEE_BPS as int) as u64,
                    fee_of(current - new_balance, FOUNDATION_FEE_BPS as int) as u64,
                )
            } else {
                (0u64, 0u64)
            };
            Ok(
                (
                    HpLiquidity {
                        bettor_balance: (pool.bettor_balance - current + new_balance) as u64,
                        live_liquidity: (pool.live_liquidity - market.locked_liquidity) as u64,
                        ..pool
                    },
                    Market {
                        bettor_balance: new_balance as u64,
                        locked_liquidity: 0,
                        result: winner_of_code(code),
                        ..market
                    },
                    fees,
                ),
            )
        }
    }
}

/// Opening a bet of `risk` on side `market_side` at the odds the feed reported.
/// On success it gives the new pool, market and bet records.
pub open spec fn init_bet_outcome(
    pool: HpLiquidity,
    market: Market,
    bet: Bet,
    bettor_signed: bool,
    rent_exempt: bool,
    custody_balance: u64,
    pool_usdt_key: Address,
    feed_key: Address,
    market_key: Address,
    user_usdt_key: Address,
    user_main_key: Address,
    risk: u64,
    market_side: u8,
    feed_odds: Option<i64>,
) -> Result<(HpLiquidity, Market, Bet), ExchangeError> {
    if !bettor_signed {
        Err(ExchangeError::MissingRequiredSignature)
    } else if !market.is_initialized {
        Err(ExchangeError::MarketNotInitialized)
    } else if !pool.is_initialized {
        Err(ExchangeError::HpLiquidityNotInitialized)
    } else if bet.is_initialized {
        Err(ExchangeError::BetAlreadyInitialized)
    } else if !rent_exempt {
        Err(ExchangeError::NotRentExempt)
    } else if !same(pool_usdt_key, pool.pool_usdt) {
        Err(ExchangeError::InvalidPoolUsdtAccount)
    } else if pool.frozen_betting {
        Err(ExchangeError::BettingFrozen)
    } else if market.result != MoneylineMarketOutcome::NotYetCommenced {
        Err(ExchangeError::MarketCommenced)
    } else if market_side > 2 {
        Err(ExchangeError::InvalidInstruction)
    } else if !same(market.market_sides[market_side as int].feed_account, feed_key) {
        Err(ExchangeError::InvalidFeedAccount)
    } else if risk == 0 {
        Err(ExchangeError::BetRiskZero)
    } else if available_liquidity_of(custody_balance as int, pool) < 0 {
        Err(ExchangeError::AmountOverflow)
    } else if feed_odds is None {
        Err(ExchangeError::FeedNotInitialized)
    } else if payout_of(feed_odds->Some_0, risk) is None {
        Err(ExchangeError::InvalidFeedAccount)
    } else if payout_of(feed_odds->Some_0, risk)->Some_0 == 0 {
        Err(ExchangeError::BetPayoutZero)
    } else {
        let available = available_liquidity_of(custody_balance as int, pool);
        let payout = payout_of(feed_odds->Some_0, risk)->Some_0;
        let side = market.market_sides[market_side as int];
        if market.pending_bets + 1 > u64::MAX || pool.pending_bets + 1 > u64::MAX
            || market.bettor_balance + risk > u64::MAX || pool.bettor_balance + risk > u64::MAX
            || side.risk + risk > u64::MAX || side.payout + payout > u64::MAX {
            Err(ExchangeError::AmountOverflow)
        } else {
            let new_side = MarketSide {
                risk: (side.risk + risk) as u64,
                payout: (side.payout + payout) as u64,
                ..side
            };
            let sides = with_side(market, market_side as int, new_side).market_sides;
            let new_locked = locked_liquidity_of(sides);
            let current_locked = market.locked_liquidity as int;
            if new_locked > current_locked && new_locked - current_locked > available {
                Err(ExchangeError::NotEnoughAvailableLiquidityForBet)
            } else if pool.locked_liquidity < current_locked {
                Err(ExchangeError::AmountOverflow)
            } else if pool.locked_liquidity - current_locked + new_locked > u64::MAX {
                Err(ExchangeError::NotEnoughAvailableLiquidityForBet)
            } else {
                Ok(
                    (
                        HpLiquidity {
                            pending_bets: (pool.pending_bets + 1) as u64,
                            bettor_balance: (pool.bettor_balance + risk) as u64,
                            locked_liquidity: (pool.locked_liquidity - current_locked
                                + new_locked) as u64,
                            ..pool
                        },
                        Market {
                            market_sides: sides,
                            pending_bets: (market.pending_bets + 1) as u64,
                            bettor_balance: (market.bettor_balance + risk) as u64,
                            locked_liquidity: new_locked as u64,
                            ..market
                        },
                        Bet {
                            is_initialized: true,
                            market: market_key,
                            user_usdt_account: user_usdt_key,
                            user_main_account: user_main_key,
                            user_risk: risk,
                            user_payout: payout,
                            user_market_side: market_side,
                            outcome: BET_PENDING,
                        },
                    ),
                )
            }
        }
    }
}

/// The checks that `settle_bet_outcome` makes after the bookkeeping: once the
/// last pending bet of the market or of the pool is closed, nothing may remain
/// owed or reserved.
pub open spec fn residual_error(pool: HpLiquidity, market: Market) -> Option<ExchangeError> {
    let winner = market.market_sides[outcome_code(market.result) as int];
    if market.pending_bets == 0 && winner.risk != 0 {
        Some(ExchangeError::MarketSideRiskRemaining)
    } else if market.pending_bets == 0 && winner.payout != 0 {
        Some(ExchangeError::MarketSidePayoutRemaining)
    } else if market.pending_bets == 0 && market.bettor_balance != 0 {
        Some(ExchangeError::MarketBettorBalanceRemaining)
    } else if pool.pending_bets == 0 && pool.bettor_balance != 0 {
        Some(ExchangeError::HousePoolBettorBalanceRemaining)
    } else if pool.pending_bets == 0 && (pool.locked_liquidity != 0 || pool.live_liquidity != 0) {
        Some(ExchangeError::HousePoolLockedLiquidityRemaining)
    } else {
        None
    }
}

/// Settling one bet against its settled market. On success it gives the new
/// records and the amount owed to the bettor (risk and payout if the bet won,
/// nothing if it lost).
pub open spec fn settle_bet_outcome(
    pool: HpLiquidity,
    market: Market,
    bet: Bet,
    pool_usdt_key: Address,
    market_key: Address,
    user_usdt_key: Address,
    user_main_key: Address,
) -> Result<(HpLiquidity, Market, Bet, u64), ExchangeError> {
    if !pool.is_initialized {
        Err(ExchangeError::HpLiquidityNotInitialized)
    } else if !market.is_initialized {
        Err(ExchangeError::MarketNotInitialized)
    } else if !bet.is_initialized {
        Err(ExchangeError::InvalidAccountData)
    } else if !same(pool_usdt_key, pool.pool_usdt) {
        Err(ExchangeError::InvalidPoolUsdtAccount)
    } else if !same(bet.market, market_key) {
        Err(ExchangeError::ExpectedDataMismatch)
    } else if pool.frozen_betting {
        Err(ExchangeError::BettingFrozen)
    } else if !market.result.is_settled() {
        Err(ExchangeError::MarketNotSettled)
    } else if !same(bet.user_usdt_account, user_usdt_key) {
        Err(ExchangeError::ExpectedDataMismatch)
    } else if !same(bet.user_main_account, user_main_key) {
        Err(ExchangeError::ExpectedDataMismatch)
    } else if bet.outcome != BET_PENDING {
        Err(ExchangeError::BetAlreadySettled)
    } else if market.pending_bets == 0 || pool.pending_bets == 0 {
        Err(ExchangeError::AmountOverflow)
    } else if bet.user_market_side != outcome_code(market.result) {
        let new_pool = HpLiquidity { pending_bets: (pool.pending_bets - 1) as u64, ..pool };
        let new_market = Market { pending_bets: (market.pending_bets - 1) as u64, ..market };
        match residual_error(new_pool, new_market) {
            Some(e) => Err(e),
            None => Ok((new_pool, new_market, Bet { outcome: BET_LOST, ..bet }, 0u64)),
        }
    } else {
        let balance = bet.user_risk + bet.user_payout;
        let i = outcome_code(market.result) as int;
        let side = market.market_sides[i];
        if balance > u64::MAX || market.bettor_balance < balance || pool.bettor_balance
            < balance {
            Err(ExchangeError::AmountOverflow)
        } else if side.risk < bet.user_risk {
            Err(ExchangeError::MarketSideRiskUnderflow)
        } else if side.payout < bet.user_payout {
            Err(ExchangeError::MarketSidePayoutUnderflow)
        } else {
            let new_pool = HpLiquidity {
                pending_bets: (pool.pending_bets - 1) as u64,
                bettor_balance: (pool.bettor_balance - balance) as u64,
                ..pool
            };
            let new_side = MarketSide {
                risk: (side.risk - bet.user_risk) as u64,
                payout: (side.payout - bet.user_payout) as u64,
                ..side
            };
            let new_market = Market {
                pending_bets: (market.pending_bets - 1) as u64,
                bettor_balance: (market.bettor_balance - balance) as u64,
                ..with_side(market, i, new_side)
            };
            match residual_error(new_pool, new_market) {
                Some(e) => Err(e),
                None => Ok((new_pool, new_market, Bet { outcome: BET_WON, ..bet }, balance as u64)),
            }
        }
    }
}

impl Processor {
    /// Initialises the house pool record, once, on the authority's signature.
    pub fn process_ownership(
        pool: &mut HpLiquidity,
        authority_signed: bool,
        rent_exempt: bool,
        ht_mint: Address,
        pool_usdt: Address,
        insurance_fund_usdt: Address,
        divvy_foundation_proceeds_usdt: Address,
    ) -> (r: Result<(), ExchangeError>)
        ensures
            match ownership_outcome(
                *old(pool),
                authority_signed,
                rent_exempt,
                ht_mint,
                pool_usdt,
                insurance_fund_usdt,
                divvy_foundation_proceeds_usdt,
            ) {
                Ok(p) => r is Ok && *final(pool) == p,
                Err(e) => r == Err::<(), ExchangeError>(e) && *final(pool) == *old(pool),
            },
    {
        if pool.is_initialized {
            return Err(ExchangeError::HpLiquidityAlreadyInitialized);
        }
        if !rent_exempt {
            return Err(ExchangeError::NotRentExempt);
        }
        if !authority_signed {
            return Err(ExchangeError::NotValidAuthority);
        }
        *pool = HpLiquidity {
            is_initialized: true,
            locked_liquidity: 0,
            live_liquidity: 0,
            bettor_balance: 0,
            pending_bets: 0,
            ht_mint,
            pool_usdt,
            insurance_fund_usdt,
            divvy_foundation_proceeds_usdt,
            frozen_pool: false,
            frozen_betting: false,
        };
        Ok(())
    }

    /// Sets the pool's kill-switches for deposits and withdrawals, and for betting.
    pub fn process_freeze(
        pool: &mut HpLiquidity,
        authority_signed: bool,
        freeze_pool: bool,
        freeze_betting: bool,
    ) -> (r: Result<(), ExchangeError>)
        ensures
            match freeze_outcome(*old(pool), authority_signed, freeze_pool, freeze_betting) {
                Ok(p) => r is Ok && *final(pool) == p,
                Err(e) => r == Err::<(), ExchangeError>(e) && *final(pool) == *old(pool),
            },
    {
        if !authority_signed {
            return Err(ExchangeError::NotValidAuthority);
        }
        if !pool.is_initialized {
            return Err(ExchangeError::HpLiquidityNotInitialized);
        }
        pool.frozen_pool = freeze_pool;
        pool.frozen_betting = freeze_betting;
        Ok(())
    }

    /// Initialises a market, open for bets, on the authority's signature.
    pub fn process_init_moneyline_market(
        pool: &HpLiquidity,
        market: &mut Market,
        authority_signed: bool,
        rent_exempt: bool,
        side_feeds: [Address; 3],
        result_feed: Address,
    ) -> (r: Result<(), ExchangeError>)
        ensures
            match init_market_outcome(
                *pool,
                *old(market),
                authority_signed,
                rent_exempt,
                side_feeds,
                result_feed,
            ) {
                Ok(m) => r is Ok && *final(market) == m,
                Err(e) => r == Err::<(), ExchangeError>(e) && *final(market) == *old(market),
            },
    {
        if !authority_signed {
            return Err(ExchangeError::NotValidAuthority);
        }
        if !pool.is_initialized {
            return Err(ExchangeError::HpLiquidityNotInitialized);
        }
        if pool.frozen_betting {
            return Err(ExchangeError::BettingFrozen);
        }
        if market.is_initialized {
            return Err(ExchangeError::MarketAlreadyInitialized);
        }
        if !rent_exempt {
            return Err(ExchangeError::NotRentExempt);
        }
        let s0 = MarketSide { feed_account: side_feeds[0], payout: 0, risk: 0 };
        let s1 = MarketSide { feed_account: side_feeds[1], payout: 0, risk: 0 };
        let s2 = MarketSide { feed_account: side_feeds[2], payout: 0, risk: 0 };
        *market = Market {
            is_initialized: true,
            market_sides: [s0, s1, s2],
            locked_liquidity: 0,
            result_feed,
            result: MoneylineMarketOutcome::NotYetCommenced,
            bettor_balance: 0,
            pending_bets: 0,
        };
        Ok(())
    }

    /// Closes a market to bets and moves its reserved capital from the pool's
    /// locked bucket to its live bucket.
    pub fn process_commence_market(
        pool: &mut HpLiquidity,
        market: &mut Market,
        authority_signed: bool,
    ) -> (r: Result<(), ExchangeError>)
        ensures
            match commence_outcome(*old(pool), *old(market), authority_signed) {
                Ok((p, m)) => r is Ok && *final(pool) == p && *final(market) == m,
                Err(e) => r == Err::<(), ExchangeError>(e) && *final(pool) == *old(pool)
                    && *final(market) == *old(market),
            },
    {
        if !authority_signed {
            return Err(ExchangeError::NotValidAuthority);
        }
        if !pool.is_initialized {
            return Err(ExchangeError::HpLiquidityNotInitialized);
        }
        if !market.is_initialized {
            return Err(ExchangeError::MarketNotInitialized);
        }
        if pool.frozen_betting {
            return Err(ExchangeError::BettingFrozen);
        }
        if market.result != MoneylineMarketOutcome::NotYetCommenced {
            return Err(ExchangeError::MarketCommenced);
        }
        if pool.locked_liquidity < market.locked_liquidity || pool.live_liquidity > u64::MAX
            - market.locked_liquidity {
            return Err(ExchangeError::AmountOverflow);
        }
        pool.locked_liquidity = pool.locked_liquidity - market.locked_liquidity;
        pool.live_liquidity = pool.live_liquidity + market.locked_liquidity;
        market.result = MoneylineMarketOutcome::Commenced;
        Ok(())
    }

    /// Settles a commenced market on the result its feed reported (`None` when
    /// the feed holds no value yet). Returns the insurance fund fee and the
    /// foundation fee to transfer out of the pool's custody account.
    pub fn process_settle_moneyline_market(
        pool: &mut HpLiquidity,
        market: &mut Market,
        authority_signed: bool,
        result_feed_key: Address,
        pool_usdt_key: Address,
        insurance_fund_key: Address,
        foundation_key: Address,
        feed_result: Option<i64>,
    ) -> (r: Result<(u64, u64), ExchangeError>)
        ensures
            match settle_market_outcome(
                *old(pool),
                *old(market),
                authority_signed,
                result_feed_key,
                pool_usdt_key,
                insurance_fund_key,
                foundation_key,
                feed_result,
            ) {
                Ok((p, m, fees)) => r == Ok::<(u64, u64), ExchangeError>(fees) && *final(pool) == p
                    && *final(market) == m,
                Err(e) => r == Err::<(u64, u64), ExchangeError>(e) && *final(pool) == *old(pool)
                    && *final(market) == *old(market),
            },
    {
        if !authority_signed {
            return Err(ExchangeError::NotValidAuthority);
        }
        if !pool.is_initialized {
            return Err(ExchangeError::HpLiquidityNotInitialized);
        }
        if !market.is_initialized {
            return Err(ExchangeError::MarketNotInitialized);
        }
        if !pool_usdt_key.same(&pool.pool_usdt) {
            return Err(ExchangeError::InvalidPoolUsdtAccount);
        }
        if !insurance_fund_key.same(&pool.insurance_fund_usdt) {
            return Err(ExchangeError::InvalidInsuranceFundUsdtAccount);
        }
        if !foundation_key.same(&pool.divvy_foundation_proceeds_usdt) {
            return Err(ExchangeError::InvalidDivvyFoundationUsdtAccount);
        }
        if pool.frozen_betting {
            return Err(ExchangeError::BettingFrozen);
        }
        if !result_feed_key.same(&market.result_feed) {
            return Err(ExchangeError::NotValidAuthority);
        }
        if market.result != MoneylineMarketOutcome::Commenced {
            return Err(ExchangeError::MarketAlreadySettled);
        }
        let code = match feed_result {
            Some(c) => c,
            None => {
                return Err(ExchangeError::FeedNotInitialized);
            },
        };
        if code < 0 || code > 2 {
            return Err(ExchangeError::NotValidMarketResult);
        }
        let winner = market.market_sides[code as usize];
        let current = market.bettor_balance;
        if winner.risk > u64::MAX - winner.payout {
            return Err(ExchangeError::AmountOverflow);
        }
        let new_balance = winner.risk + winner.payout;
        if pool.bettor_balance < current || pool.bettor_balance - current > u64::MAX - new_balance
            || pool.live_liquidity < market.locked_liquidity {
            return Err(ExchangeError::AmountOverflow);
        }
        let fees = if new_balance < current {
            calculate_fees(current - new_balance)
        } else {
            (0u64, 0u64)
        };
        pool.bettor_balance = pool.bettor_balance - current + new_balance;
        pool.live_liquidity = pool.live_liquidity - market.locked_liquidity;
        market.bettor_balance = new_balance;
        market.locked_liquidity = 0;
        market.result =
            if code == 0 {
                MoneylineMarketOutcome::MarketSide0Won
            } else if code == 1 {
                MoneylineMarketOutcome::MarketSide1Won
            } else {
                MoneylineMarketOutcome::MarketSide2Won
            };
        Ok(fees)
    }
    /// Opens a bet of `risk` on side `market_side` at the odds that the side's
    /// feed reported (`None` when it holds no value yet). `custody_balance` is
    /// the pool custody account's balance before the stake comes in. On success
    /// the bettor owes `risk` to the pool's custody account.
    pub fn process_init_bet(
        pool: &mut HpLiquidity,
        market: &mut Market,
        bet: &mut Bet,
        bettor_signed: bool,
        rent_exempt: bool,
        custody_balance: u64,
        pool_usdt_key: Address,
        feed_key: Address,
        market_key: Address,
        user_usdt_key: Address,
        user_main_key: Address,
        risk: u64,
        market_side: u8,
        feed_odds: Option<i64>,
    ) -> (r: Result<(), ExchangeError>)
        ensures
            match init_bet_outcome(
                *old(pool),
                *old(market),
                *old(bet),
                bettor_signed,
                rent_exempt,
                custody_balance,
                pool_usdt_key,
                feed_key,
                market_key,
                user_usdt_key,
                user_main_key,
                risk,
                market_side,
                feed_odds,
            ) {
                Ok((p, m, b)) => r is Ok && *final(pool) == p && *final(market) == m && *final(bet)
                    == b,
                Err(e) => r == Err::<(), ExchangeError>(e) && *final(pool) == *old(pool)
                    && *final(market) == *old(market) && *final(bet) == *old(bet),
            },
    {
        if !bettor_signed {
            return Err(ExchangeError::MissingRequiredSignature);
        }
        if !market.is_initialized {
            return Err(ExchangeError::MarketNotInitialized);
        }
        if !pool.is_initialized {
            return Err(ExchangeError::HpLiquidityNotInitialized);
        }
        if bet.is_initialized {
            return Err(ExchangeError::BetAlreadyInitialized);
        }
        if !rent_exempt {
            return Err(ExchangeError::NotRentExempt);
        }
        if !pool_usdt_key.same(&pool.pool_usdt) {
            return Err(ExchangeError::InvalidPoolUsdtAccount);
        }
        if pool.frozen_betting {
            return Err(ExchangeError::BettingFrozen);
        }
        if market.result != MoneylineMarketOutcome::NotYetCommenced {
            return Err(ExchangeError::MarketCommenced);
        }
        if market_side > 2 {
            return Err(ExchangeError::InvalidInstruction);
        }
        let i = market_side as usize;
        let side = market.market_sides[i];
        if !side.feed_account.same(&feed_key) {
            return Err(ExchangeError::InvalidFeedAccount);
        }
        if risk == 0 {
            return Err(ExchangeError::BetRiskZero);
        }
        let available = match calculate_available_liquidity(custody_balance, pool) {
            Ok(a) => a,
            Err(e) => {
                return Err(e);
            },
        };
        let odds = match feed_odds {
            Some(o) => o,
            None => {
                return Err(ExchangeError::FeedNotInitialized);
            },
        };
        let payout = match calculate_payout(odds, risk) {
            Some(p) => p,
            None => {
                return Err(ExchangeError::InvalidFeedAccount);
            },
        };
        if payout == 0 {
            return Err(ExchangeError::BetPayoutZero);
        }
        if market.pending_bets == u64::MAX || pool.pending_bets == u64::MAX
            || market.bettor_balance > u64::MAX - risk || pool.bettor_balance > u64::MAX - risk
            || side.risk > u64::MAX - risk || side.payout > u64::MAX - payout {
            return Err(ExchangeError::AmountOverflow);
        }
        let new_side = MarketSide {
            feed_account: side.feed_account,
            risk: side.risk + risk,
            payout: side.payout + payout,
        };
        let mut updated = *market;
        updated.market_sides[i] = new_side;
        let new_locked = calculate_locked_liquidity(&updated);
        let current_locked = market.locked_liquidity;
        if new_locked > current_locked && new_locked - current_locked > available {
            return Err(ExchangeError::NotEnoughAvailableLiquidityForBet);
        }
        if pool.locked_liquidity < current_locked {
            return Err(ExchangeError::AmountOverflow);
        }
        if pool.locked_liquidity - current_locked > u64::MAX - new_locked {
            return Err(ExchangeError::NotEnoughAvailableLiquidityForBet);
        }
        proof {
            assert(updated.market_sides@ =~= with_side(
                *old(market),
                market_side as int,
                new_side,
            ).market_sides@);
            assert(updated.market_sides == with_side(
                *old(market),
                market_side as int,
                new_side,
            ).market_sides);
        }
        pool.pending_bets = pool.pending_bets + 1;
        pool.bettor_balance = pool.bettor_balance + risk;
        pool.locked_liquidity = pool.locked_liquidity - current_locked + new_locked;
        updated.pending_bets = market.pending_bets + 1;
        updated.bettor_balance = market.bettor_balance + risk;
        updated.locked_liquidity = new_locked;
        *market = updated;
        *bet = Bet {
            is_initialized: true,
            market: market_key,
            user_usdt_account: user_usdt_key,
            user_main_account: user_main_key,
            user_risk: risk,
            user_payout: payout,
            user_market_side: market_side,
            outcome: BET_PENDING,
        };
        Ok(())
    }

    /// Settles one bet against its settled market. Returns what the pool's
    /// custody account owes the bettor: risk and payout if the bet won, zero
    /// if it lost. The bet account's rent goes back to the bettor either way.
    pub fn process_settle_bet(
        pool: &mut HpLiquidity,
        market: &mut Market,
        bet: &mut Bet,
        pool_usdt_key: Address,
        market_key: Address,
        user_usdt_key: Address,
        user_main_key: Address,
    ) -> (r: Result<u64, ExchangeError>)
        ensures
            match settle_bet_outcome(
                *old(pool),
                *old(market),
                *old(bet),
                pool_usdt_key,
                market_key,
                user_usdt_key,
                user_main_key,
            ) {
                Ok((p, m, b, amount)) => r == Ok::<u64, ExchangeError>(amount) && *final(pool) == p
                    && *final(market) == m && *final(bet) == b,
                Err(e) => r == Err::<u64, ExchangeError>(e) && *final(pool) == *old(pool)
                    && *final(market) == *old(market) && *final(bet) == *old(bet),
            },
    {
        if !pool.is_initialized {
            return Err(ExchangeError::HpLiquidityNotInitialized);
        }
        if !market.is_initialized {
            return Err(ExchangeError::MarketNotInitialized);
        }
        if !bet.is_initialized {
            return Err(ExchangeError::InvalidAccountData);
        }
        if !pool_usdt_key.same(&pool.pool_usdt) {
            return Err(ExchangeError::InvalidPoolUsdtAccount);
        }
        if !bet.market.same(&market_key) {
            return Err(ExchangeError::ExpectedDataMismatch);
        }
        if pool.frozen_betting {
            return Err(ExchangeError::BettingFrozen);
        }
        let code = market.result.pack();
        if code > 2 {
            return Err(ExchangeError::MarketNotSettled);
        }
        if !bet.user_usdt_account.same(&user_usdt_key) {
            return Err(ExchangeError::ExpectedDataMismatch);
        }
        if !bet.user_main_account.same(&user_main_key) {
            return Err(ExchangeError::ExpectedDataMismatch);
        }
        if bet.outcome != BET_PENDING {
            return Err(ExchangeError::BetAlreadySettled);
        }
        if market.pending_bets == 0 || pool.pending_bets == 0 {
            return Err(ExchangeError::AmountOverflow);
        }
        let mut new_pool = *pool;
        let mut new_market = *market;
        new_pool.pending_bets = pool.pending_bets - 1;
        new_market.pending_bets = market.pending_bets - 1;
        let won = bet.user_market_side == code;
        let mut amount: u64 = 0;
        if won {
            let i = code as usize;
            let side = market.market_sides[i];
            if bet.user_risk > u64::MAX - bet.user_payout {
                return Err(ExchangeError::AmountOverflow);
            }
            let balance = bet.user_risk + bet.user_payout;
            if market.bettor_balance < balance || pool.bettor_balance < balance {
                return Err(ExchangeError::AmountOverflow);
            }
            if side.risk < bet.user_risk {
                return Err(ExchangeError::MarketSideRiskUnderflow);
            }
            if side.payout < bet.user_payout {
                return Err(ExchangeError::MarketSidePayoutUnderflow);
            }
            new_pool.bettor_balance = pool.bettor_balance - balance;
            new_market.bettor_balance = market.bettor_balance - balance;
            new_market.market_sides[i] = MarketSide {
                feed_account: side.feed_account,
                risk: side.risk - bet.user_risk,
                payout: side.payout - bet.user_payout,
            };
            proof {
                assert(new_market.market_sides@ =~= with_side(
                    *old(market),
                    i as int,
                    new_market.market_sides[i as int],
                ).market_sides@);
                assert(new_market.market_sides == with_side(
                    *old(market),
                    i as int,
                    new_market.market_sides[i as int],
                ).market_sides);
            }
            amount = balance;
        }
        let check = Self::check_residuals(&new_pool, &new_market);
        if let Some(e) = check {
            return Err(e);
        }
        *pool = new_pool;
        *market = new_market;
        bet.outcome = if won { BET_WON } else { BET_LOST };
        Ok(amount)
    }

    fn check_residuals(pool: &HpLiquidity, market: &Market) -> (r: Option<ExchangeError>)
        requires
            market.result.is_settled(),
        ensures
            r == residual_error(*pool, *market),
    {
        let winner = market.market_sides[market.result.pack() as usize];
        if market.pending_bets == 0 && winner.risk != 0 {
            Some(ExchangeError::MarketSideRiskRemaining)
        } else if market.pending_bets == 0 && winner.payout != 0 {
            Some(ExchangeError::MarketSidePayoutRemaining)
        } else if market.pending_bets == 0 && market.bettor_balance != 0 {
            Some(ExchangeError::MarketBettorBalanceRemaining)
        } else if pool.pending_bets == 0 && pool.bettor_balance != 0 {
            Some(ExchangeError::HousePoolBettorBalanceRemaining)
        } else if pool.pending_bets == 0 && (pool.locked_liquidity != 0 || pool.live_liquidity
            != 0) {
            Some(ExchangeError::HousePoolLockedLiquidityRemaining)
        } else {
            None
        }
    }
}

} // verus!
