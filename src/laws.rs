use vstd::prelude::*;

use crate::error::ExchangeError;
use crate::liquidity::{fee_of, locked_liquidity_of, side_excess};
use crate::processor::{
    commence_outcome, init_bet_outcome, init_market_outcome, settle_bet_outcome,
    settle_market_outcome,
};
use crate::state::{outcome_code, Address, Bet, HpLiquidity, Market, MoneylineMarketOutcome};

verus! {

/// The sum of a sequence of stakes.
pub open spec fn stake_total(risks: Seq<u64>) -> int
    decreases risks.len(),
{
    if risks.len() == 0 {
        0
    } else {
        stake_total(risks.drop_last()) + risks.last()
    }
}

/// The pool holds at least what it has reserved and what it owes bettors.
pub open spec fn solvent(pool: HpLiquidity, custody: int) -> bool {
    pool.locked_liquidity + pool.live_liquidity + pool.bettor_balance <= custody
}

/// The books of a market agree with its sides. Before it settles, the bettor
/// balance is the sum of the sides' stakes and the reserved capital is the
/// worst-case shortfall over the sides; once settled, the bettor balance is
/// what the winning side is still owed, stakes and payouts.
pub open spec fn market_books_balance(m: Market) -> bool {
    &&& !m.result.is_settled() ==> {
        &&& m.bettor_balance == m.market_sides[0].risk + m.market_sides[1].risk
            + m.market_sides[2].risk
        &&& m.locked_liquidity == locked_liquidity_of(m.market_sides)
    }
    &&& m.result.is_settled() ==> m.bettor_balance == m.market_sides[outcome_code(
        m.result,
    ) as int].risk + m.market_sides[outcome_code(m.result) as int].payout
}

/// Opening a bet adds exactly its stake to the market's bettor balance: if the
/// balance was the sum of the open bets' stakes, it stays so with the new bet.
pub proof fn lemma_open_bet_conserves_stakes(
    pool: HpLiquidity,
    market: Market,
    bet: Bet,
    bettor_signed: bool,
    rent_exempt: bool,
    custody_balance: u64,
    pool_usdt_key: Address,
    feed_key: Address,
    market_key: Address,
    user_usdt_key: Address,
    user_main_key: Address,
    risk: u64,
    market_side: u8,
    feed_odds: Option<i64>,
    open_risks: Seq<u64>,
)
    requires
        stake_total(open_risks) == market.bettor_balance,
        init_bet_outcome(
            pool,
            market,
            bet,
            bettor_signed,
            rent_exempt,
            custody_balance,
            pool_usdt_key,
            feed_key,
            market_key,
            user_usdt_key,
            user_main_key,
            risk,
            market_side,
            feed_odds,
        ) is Ok,
    ensures
        ({
            let (p, m, b) = init_bet_outcome(
                pool,
                market,
                bet,
                bettor_signed,
                rent_exempt,
                custody_balance,
                pool_usdt_key,
                feed_key,
                market_key,
                user_usdt_key,
                user_main_key,
                risk,
                market_side,
                feed_odds,
            )->Ok_0;
            stake_total(open_risks.push(b.user_risk)) == m.bettor_balance
        }),
{
    assert(open_risks.push(risk).drop_last() =~= open_risks);
}

/// Commencing a market leaves its bettor balance as it was.
pub proof fn lemma_commence_conserves_stakes(
    pool: HpLiquidity,
    market: Market,
    authority_signed: bool,
)
    requires
        commence_outcome(pool, market, authority_signed) is Ok,
    ensures
        commence_outcome(pool, market, authority_signed)->Ok_0.1.bettor_balance
            == market.bettor_balance,
{
}

/// No bet settles before its market does: settling fails and so changes nothing.
pub proof fn lemma_settle_bet_waits_for_market(
    pool: HpLiquidity,
    market: Market,
    bet: Bet,
    pool_usdt_key: Address,
    market_key: Address,
    user_usdt_key: Address,
    user_main_key: Address,
)
    requires
        !market.result.is_settled(),
    ensures
        settle_bet_outcome(
            pool,
            market,
            bet,
            pool_usdt_key,
            market_key,
            user_usdt_key,
            user_main_key,
        ) is Err,
{
}

/// A bet opens only if the pool covers it: before the bet the pool held what it
/// reserved and owed, and with the stake paid in it still does.
pub proof fn lemma_open_bet_keeps_pool_solvent(
    pool: HpLiquidity,
    market: Market,
    bet: Bet,
    bettor_signed: bool,
    rent_exempt: bool,
    custody_balance: u64,
    pool_usdt_key: Address,
    feed_key: Address,
    market_key: Address,
    user_usdt_key: Address,
    user_main_key: Address,
    risk: u64,
    market_side: u8,
    feed_odds: Option<i64>,
)
    requires
        init_bet_outcome(
            pool,
            market,
            bet,
            bettor_signed,
            rent_exempt,
            custody_balance,
            pool_usdt_key,
            feed_key,
            market_key,
            user_usdt_key,
            user_main_key,
            risk,
            market_side,
            feed_odds,
        ) is Ok,
    ensures
        solvent(pool, custody_balance as int),
        solvent(
            init_bet_outcome(
                pool,
                market,
                bet,
                bettor_signed,
                rent_exempt,
                custody_balance,
                pool_usdt_key,
                feed_key,
                market_key,
                user_usdt_key,
                user_main_key,
                risk,
                market_side,
                feed_odds,
            )->Ok_0.0,
            custody_balance + risk,
        ),
{
}

/// Opening a bet keeps a market's books in agreement with its sides.
pub proof fn lemma_open_bet_keeps_books(
    pool: HpLiquidity,
    market: Market,
    bet: Bet,
    bettor_signed: bool,
    rent_exempt: bool,
    custody_balance: u64,
    pool_usdt_key: Address,
    feed_key: Address,
    market_key: Address,
    user_usdt_key: Address,
    user_main_key: Address,
    risk: u64,
    market_side: u8,
    feed_odds: Option<i64>,
)
    requires
        market_books_balance(market),
        init_bet_outcome(
            pool,
            market,
            bet,
            bettor_signed,
            rent_exempt,
            custody_balance,
            pool_usdt_key,
            feed_key,
            market_key,
            user_usdt_key,
            user_main_key,
            risk,
            market_side,
            feed_odds,
        ) is Ok,
    ensures
        market_books_balance(
            init_bet_outcome(
                pool,
                market,
                bet,
                bettor_signed,
                rent_exempt,
                custody_balance,
                pool_usdt_key,
                feed_key,
                market_key,
                user_usdt_key,
                user_main_key,
                risk,
                market_side,
                feed_odds,
            )->Ok_0.1,
        ),
{
}

/// A new market's books agree with its (empty) sides.
pub proof fn lemma_init_market_keeps_books(
    pool: HpLiquidity,
    market: Market,
    authority_signed: bool,
    rent_exempt: bool,
    side_feeds: [Address; 3],
    result_feed: Address,
)
    requires
        init_market_outcome(pool, market, authority_signed, rent_exempt, side_feeds, result_feed) is Ok,
    ensures
        market_books_balance(
            init_market_outcome(
                pool,
                market,
                authority_signed,
                rent_exempt,
                side_feeds,
                result_feed,
            )->Ok_0,
        ),
{
}

/// Commencing keeps the pool solvent and the market's books in agreement.
pub proof fn lemma_commence_keeps_pool_solvent(
    pool: HpLiquidity,
    market: Market,
    authority_signed: bool,
    custody: int,
)
    requires
        solvent(pool, custody),
        market_books_balance(market),
        commence_outcome(pool, market, authority_signed) is Ok,
    ensures
        solvent(commence_outcome(pool, market, authority_signed)->Ok_0.0, custody),
        market_books_balance(commence_outcome(pool, market, authority_signed)->Ok_0.1),
{
}

proof fn lemma_fees_within_profit(profit: int)
    requires
        profit >= 0,
    ensures
        fee_of(profit, 100) + fee_of(profit, 500) <= profit,
        fee_of(profit, 100) >= 0,
        fee_of(profit, 500) >= 0,
{
    assert(profit * 100 / 10000 + profit * 500 / 10000 <= profit) by (nonlinear_arith)
        requires
            profit >= 0,
    ;
    assert(profit * 100 / 10000 >= 0) by (nonlinear_arith)
        requires
            profit >= 0,
    ;
    assert(profit * 500 / 10000 >= 0) by (nonlinear_arith)
        requires
            profit >= 0,
    ;
}

/// Settling a market whose books agree with its sides keeps the pool solvent
/// once the two fees have left its custody account: what the winners are owed
/// beyond the stakes of the losers was reserved for them.
pub proof fn lemma_settle_market_keeps_pool_solvent(
    pool: HpLiquidity,
    market: Market,
    authority_signed: bool,
    result_feed_key: Address,
    pool_usdt_key: Address,
    insurance_fund_key: Address,
    foundation_key: Address,
    feed_result: Option<i64>,
    custody: int,
)
    requires
        solvent(pool, custody),
        market_books_balance(market),
        settle_market_outcome(
            pool,
            market,
            authority_signed,
            result_feed_key,
            pool_usdt_key,
            insurance_fund_key,
            foundation_key,
            feed_result,
        ) is Ok,
    ensures
        ({
            let (p, m, fees) = settle_market_outcome(
                pool,
                market,
                authority_signed,
                result_feed_key,
                pool_usdt_key,
                insurance_fund_key,
                foundation_key,
                feed_result,
            )->Ok_0;
            solvent(p, custody - fees.0 - fees.1)
        }),
{
    let code = feed_result->Some_0;
    let current = market.bettor_balance as int;
    let w = market.market_sides[code as int];
    let new_balance = w.risk + w.payout;
    let s = market.market_sides;
    assert(locked_liquidity_of(s) >= side_excess(s[0].payout as int, s[1].risk as int, s[2].risk as int));
    assert(locked_liquidity_of(s) >= side_excess(s[1].payout as int, s[0].risk as int, s[2].risk as int));
    assert(locked_liquidity_of(s) >= side_excess(s[2].payout as int, s[0].risk as int, s[1].risk as int));
    assert(new_balance - current <= market.locked_liquidity);
    if new_balance < current {
        lemma_fees_within_profit(current - new_balance);
    }
}

/// Settling a bet keeps the pool solvent once what the bettor is owed has left
/// its custody account.
pub proof fn lemma_settle_bet_keeps_pool_solvent(
    pool: HpLiquidity,
    market: Market,
    bet: Bet,
    pool_usdt_key: Address,
    market_key: Address,
    user_usdt_key: Address,
    user_main_key: Address,
    custody: int,
)
    requires
        solvent(pool, custody),
        settle_bet_outcome(
            pool,
            market,
            bet,
            pool_usdt_key,
            market_key,
            user_usdt_key,
            user_main_key,
        ) is Ok,
    ensures
        ({
            let (p, m, b, amount) = settle_bet_outcome(
                pool,
                market,
                bet,
                pool_usdt_key,
                market_key,
                user_usdt_key,
                user_main_key,
            )->Ok_0;
            solvent(p, custody - amount)
        }),
{
}

/// Settling a bet a second time fails with `BetAlreadySettled` (and so leaves
/// every record as the first settlement left it).
pub proof fn lemma_settle_bet_twice_fails(
    pool: HpLiquidity,
    market: Market,
    bet: Bet,
    pool_usdt_key: Address,
    market_key: Address,
    user_usdt_key: Address,
    user_main_key: Address,
)
    requires
        settle_bet_outcome(
            pool,
            market,
            bet,
            pool_usdt_key,
            market_key,
            user_usdt_key,
            user_main_key,
        ) is Ok,
    ensures
        ({
            let (p, m, b, amount) = settle_bet_outcome(
                pool,
                market,
                bet,
                pool_usdt_key,
                market_key,
                user_usdt_key,
                user_main_key,
            )->Ok_0;
            settle_bet_outcome(p, m, b, pool_usdt_key, market_key, user_usdt_key, user_main_key)
                == Err::<(HpLiquidity, Market, Bet, u64), ExchangeError>(
                ExchangeError::BetAlreadySettled,
            )
        }),
{
}

/// Once the last pending bet of a settled market is settled, the winning side's
/// stakes and payouts and the market's bettor balance are all zero.
pub proof fn lemma_last_settlement_leaves_nothing_owed(
    pool: HpLiquidity,
    market: Market,
    bet: Bet,
    pool_usdt_key: Address,
    market_key: Address,
    user_usdt_key: Address,
    user_main_key: Address,
)
    requires
        settle_bet_outcome(
            pool,
            market,
            bet,
            pool_usdt_key,
            market_key,
            user_usdt_key,
            user_main_key,
        ) is Ok,
    ensures
        ({
            let (p, m, b, amount) = settle_bet_outcome(
                pool,
                market,
                bet,
                pool_usdt_key,
                market_key,
                user_usdt_key,
                user_main_key,
            )->Ok_0;
            m.pending_bets == 0 ==> {
                &&& m.market_sides[outcome_code(m.result) as int].risk == 0
                &&& m.market_sides[outcome_code(m.result) as int].payout == 0
                &&& m.bettor_balance == 0
            }
        }),
{
}

/// Settling a market leaves its books in agreement with its sides: from then on
/// its bettor balance is what the winning side is owed.
pub proof fn lemma_settle_market_keeps_books(
    pool: HpLiquidity,
    market: Market,
    authority_signed: bool,
    result_feed_key: Address,
    pool_usdt_key: Address,
    insurance_fund_key: Address,
    foundation_key: Address,
    feed_result: Option<i64>,
)
    requires
        settle_market_outcome(
            pool,
            market,
            authority_signed,
            result_feed_key,
            pool_usdt_key,
            insurance_fund_key,
            foundation_key,
            feed_result,
        ) is Ok,
    ensures
        market_books_balance(
            settle_market_outcome(
                pool,
                market,
                authority_signed,
                result_feed_key,
                pool_usdt_key,
                insurance_fund_key,
                foundation_key,
                feed_result,
            )->Ok_0.1,
        ),
{
}

/// Settling a bet keeps a settled market's books in agreement with its sides:
/// a winning bet takes its stake and payout off both the winning side and the
/// bettor balance, a losing one changes neither.
pub proof fn lemma_settle_bet_keeps_books(
    pool: HpLiquidity,
    market: Market,
    bet: Bet,
    pool_usdt_key: Address,
    market_key: Address,
    user_usdt_key: Address,
    user_main_key: Address,
)
    requires
        market_books_balance(market),
        settle_bet_outcome(
            pool,
            market,
            bet,
            pool_usdt_key,
            market_key,
            user_usdt_key,
            user_main_key,
        ) is Ok,
    ensures
        market_books_balance(
            settle_bet_outcome(
                pool,
                market,
                bet,
                pool_usdt_key,
                market_key,
                user_usdt_key,
                user_main_key,
            )->Ok_0.1,
        ),
{
}

} // verus!
