use vstd::prelude::*;

use crate::error::ExchangeError;

verus! {

/// A 32-byte account address.
#[derive(Debug, Clone, Copy)]
pub struct Address {
    pub bytes: [u8; 32],
}

impl Address {
    /// Whether two addresses are the same.
    pub fn same(&self, other: &Address) -> (r: bool)
        ensures
            r == (self.bytes@ == other.bytes@),
    {
        let mut i: usize = 0;
        while i < 32
            invariant
                0 <= i <= 32,
                self.bytes@.len() == 32,
                other.bytes@.len() == 32,
                forall|j: int| 0 <= j < i ==> self.bytes@[j] == other.bytes@[j],
            decreases 32 - i,
        {
            if self.bytes[i] != other.bytes[i] {
                return false;
            }
            i = i + 1;
        }
        assert(self.bytes@ =~= other.bytes@);
        true
    }
}

/// Where a moneyline market stands in its lifecycle.
#[derive(Debug, Clone, Copy, PartialEq, Eq, Structural)]
pub enum MoneylineMarketOutcome {
    MarketSide0Won,
    MarketSide1Won,
    MarketSide2Won,
    NotYetCommenced,
    Commenced,
}

/// The byte that stands for each market state in a record.
pub open spec fn outcome_code(o: MoneylineMarketOutcome) -> u8 {
    match o {
        MoneylineMarketOutcome::MarketSide0Won => 0,
        MoneylineMarketOutcome::MarketSide1Won => 1,
        MoneylineMarketOutcome::MarketSide2Won => 2,
        MoneylineMarketOutcome::NotYetCommenced => 3,
        MoneylineMarketOutcome::Commenced => 4,
    }
}

/// The market state that a byte stands for, if any.
pub open spec fn outcome_of_code(b: u8) -> Option<MoneylineMarketOutcome> {
    if b == 0 {
        Some(MoneylineMarketOutcome::MarketSide0Won)
    } else if b == 1 {
        Some(MoneylineMarketOutcome::MarketSide1Won)
    } else if b == 2 {
        Some(MoneylineMarketOutcome::MarketSide2Won)
    } else if b == 3 {
        Some(MoneylineMarketOutcome::NotYetCommenced)
    } else if b == 4 {
        Some(MoneylineMarketOutcome::Commenced)
    } else {
        None
    }
}

impl MoneylineMarketOutcome {
    /// Whether this is one of the terminal, side-won states.
    pub open spec fn is_settled(self) -> bool {
        outcome_code(self) <= 2
    }

    pub fn unpack(input: &u8) -> (r: Result<Self, ExchangeError>)
        ensures
            r == (match outcome_of_code(*input) {
                Some(o) => Ok(o),
                None => Err(ExchangeError::InvalidInstruction),
            }),
    {
        match *input {
            0 => Ok(MoneylineMarketOutcome::MarketSide0Won),
            1 => Ok(MoneylineMarketOutcome::MarketSide1Won),
            2 => Ok(MoneylineMarketOutcome::MarketSide2Won),
            3 => Ok(MoneylineMarketOutcome::NotYetCommenced),
            4 => Ok(MoneylineMarketOutcome::Commenced),
            _ => Err(ExchangeError::InvalidInstruction),
        }
    }

    pub fn pack(&self) -> (r: u8)
        ensures
            r == outcome_code(*self),
    {
        match *self {
            MoneylineMarketOutcome::MarketSide0Won => 0,
            MoneylineMarketOutcome::MarketSide1Won => 1,
            MoneylineMarketOutcome::MarketSide2Won => 2,
            MoneylineMarketOutcome::NotYetCommenced => 3,
            MoneylineMarketOutcome::Commenced => 4,
        }
    }

    /// A short description of the state.
    pub fn description(&self) -> (r: &'static str) {
        match *self {
            MoneylineMarketOutcome::MarketSide0Won => "Market side 0 won",
            MoneylineMarketOutcome::MarketSide1Won => "Market side 1 won",
            MoneylineMarketOutcome::MarketSide2Won => "Market side 2 won",
            MoneylineMarketOutcome::NotYetCommenced => "Not yet commenced",
            MoneylineMarketOutcome::Commenced => "Commenced",
        }
    }
}

/// The kind of wager a market offers.
#[derive(Debug, Clone, Copy, PartialEq, Eq, Structural)]
pub enum BetType {
    MoneyLine,
    Spread,
    Total,
}

pub open spec fn bet_type_code(t: BetType) -> u8 {
    match t {
        BetType::MoneyLine => 0,
        BetType::Spread => 1,
        BetType::Total => 2,
    }
}

impl BetType {
    pub fn unpack(input: &u8) -> (r: Result<Self, ExchangeError>)
        ensures
            *input == 0 ==> r == Ok::<BetType, ExchangeError>(BetType::MoneyLine),
            *input == 1 ==> r == Ok::<BetType, ExchangeError>(BetType::Spread),
            *input == 2 ==> r == Ok::<BetType, ExchangeError>(BetType::Total),
            *input > 2 ==> r == Err::<BetType, ExchangeError>(ExchangeError::InvalidInstruction),
    {
        match *input {
            0 => Ok(BetType::MoneyLine),
            1 => Ok(BetType::Spread),
            2 => Ok(BetType::Total),
            _ => Err(ExchangeError::InvalidInstruction),
        }
    }

    pub fn pack(&self) -> (r: u8)
        ensures
            r == bet_type_code(*self),
    {
        match *self {
            BetType::MoneyLine => 0,
            BetType::Spread => 1,
            BetType::Total => 2,
        }
    }

    /// A short description of the kind of wager.
    pub fn description(&self) -> (r: &'static str) {
        match *self {
            BetType::MoneyLine => "Money Line 3 Way",
            BetType::Spread => "Points Spread",
            BetType::Total => "Total Score",
        }
    }
}

/// One outcome of a market: its odds feed, the stakes taken on it and what
/// is owed to its bettors, on top of their stakes, if it wins.
#[derive(Debug, Clone, Copy)]
pub struct MarketSide {
    pub feed_account: Address,
    pub payout: u64,
    pub risk: u64,
}

/// A betting event with three mutually exclusive sides.
#[derive(Debug, Clone, Copy)]
pub struct Market {
    pub is_initialized: bool,
    pub market_sides: [MarketSide; 3],
    pub locked_liquidity: u64,
    pub result_feed: Address,
    pub result: MoneylineMarketOutcome,
    /// The stakes of the bettors in the market; once the market settles,
    /// what is still owed to the winning side (risk and payout).
    pub bettor_balance: u64,
    pub pending_bets: u64,
}

/// The house pool: the capital that backs every market.
#[derive(Debug, Clone, Copy)]
pub struct HpLiquidity {
    pub is_initialized: bool,
    pub locked_liquidity: u64,
    pub live_liquidity: u64,
    pub bettor_balance: u64,
    pub pending_bets: u64,
    pub ht_mint: Address,
    pub pool_usdt: Address,
    pub insurance_fund_usdt: Address,
    pub divvy_foundation_proceeds_usdt: Address,
    pub frozen_pool: bool,
    pub frozen_betting: bool,
}

/// One wager. `outcome` is 0 while pending, 1 once won, 2 once lost.
#[derive(Debug, Clone, Copy)]
pub struct Bet {
    pub is_initialized: bool,
    pub market: Address,
    pub user_usdt_account: Address,
    pub user_main_account: Address,
    pub user_risk: u64,
    pub user_payout: u64,
    pub user_market_side: u8,
    pub outcome: u8,
}

pub const BET_PENDING: u8 = 0;

pub const BET_WON: u8 = 1;

pub const BET_LOST: u8 = 2;

} // verus!
