use vstd::prelude::*;

verus! {

/// Every way an instruction of the exchange can fail.
#[derive(Debug, Clone, Copy, PartialEq, Eq, Structural)]
pub enum ExchangeError {
    InvalidInstruction,
    NotValidAuthority,
    ExpectedAmountMismatch,
    ExpectedDataMismatch,
    AmountOverflow,
    MarketAlreadySettled,
    MarketNotSettled,
    BetAlreadySettled,
    NotValidResult,
    InvalidFeedAccount,
    NotEnoughLiquidity,
    BetRiskZero,
    BetPayoutZero,
    MissingRequiredSignature,
    NotRentExempt,
    InvalidAccountData,
    InvalidPoolUsdtAccount,
    InvalidHtMintAccount,
    InvalidInsuranceFundUsdtAccount,
    InvalidDivvyFoundationUsdtAccount,
    BettingFrozen,
    PoolFrozen,
    GamesAreLive,
    MarketCommenced,
    NotValidMarketResult,
    NotEnoughAvailableLiquidityForBet,
    NotEnoughAvailableLiquidityForWithdrawal,
    HpLiquidityAlreadyInitialized,
    HpLiquidityNotInitialized,
    MarketAlreadyInitialized,
    MarketNotInitialized,
    BetAlreadyInitialized,
    FeedNotInitialized,
    MarketSideRiskUnderflow,
    MarketSidePayoutUnderflow,
    MarketSideRiskRemaining,
    MarketSidePayoutRemaining,
    MarketBettorBalanceRemaining,
    HousePoolBettorBalanceRemaining,
    HousePoolLockedLiquidityRemaining,
    UnexpectedAvailableLiquidity,
    InvalidMarketAccount,
}

/// The numeric code under which an error is reported to the host.
pub open spec fn error_code(e: ExchangeError) -> u32 {
    match e {
        ExchangeError::InvalidInstruction => 0,
        ExchangeError::NotValidAuthority => 1,
        ExchangeError::ExpectedAmountMismatch => 2,
        ExchangeError::ExpectedDataMismatch => 3,
        ExchangeError::AmountOverflow => 4,
        ExchangeError::MarketAlreadySettled => 5,
        ExchangeError::MarketNotSettled => 6,
        ExchangeError::BetAlreadySettled => 7,
        ExchangeError::NotValidResult => 8,
        ExchangeError::InvalidFeedAccount => 9,
        ExchangeError::NotEnoughLiquidity => 10,
        ExchangeError::BetRiskZero => 11,
        ExchangeError::BetPayoutZero => 12,
        ExchangeError::MissingRequiredSignature => 13,
        ExchangeError::NotRentExempt => 14,
        ExchangeError::InvalidAccountData => 15,
        ExchangeError::InvalidPoolUsdtAccount => 16,
        ExchangeError::InvalidHtMintAccount => 17,
        ExchangeError::InvalidInsuranceFundUsdtAccount => 18,
        ExchangeError::InvalidDivvyFoundationUsdtAccount => 19,
        ExchangeError::BettingFrozen => 20,
        ExchangeError::PoolFrozen => 21,
        ExchangeError::GamesAreLive => 22,
        ExchangeError::MarketCommenced => 23,
        ExchangeError::NotValidMarketResult => 24,
        ExchangeError::NotEnoughAvailableLiquidityForBet => 25,
        ExchangeError::NotEnoughAvailableLiquidityForWithdrawal => 26,
        ExchangeError::HpLiquidityAlreadyInitialized => 27,
        ExchangeError::HpLiquidityNotInitialized => 28,
        ExchangeError::MarketAlreadyInitialized => 29,
        ExchangeError::MarketNotInitialized => 30,
        ExchangeError::BetAlreadyInitialized => 31,
        ExchangeError::FeedNotInitialized => 32,
        ExchangeError::MarketSideRiskUnderflow => 33,
        ExchangeError::MarketSidePayoutUnderflow => 34,
        ExchangeError::MarketSideRiskRemaining => 35,
        ExchangeError::MarketSidePayoutRemaining => 36,
        ExchangeError::MarketBettorBalanceRemaining => 37,
        ExchangeError::HousePoolBettorBalanceRemaining => 38,
        ExchangeError::HousePoolLockedLiquidityRemaining => 39,
        ExchangeError::UnexpectedAvailableLiquidity => 40,
        ExchangeError::InvalidMarketAccount => 41,
    }
}

impl ExchangeError {
    /// The custom error code reported for this error.
    pub fn code(&self) -> (r: u32)
        ensures
            r == error_code(*self),
    {
        match self {
            ExchangeError::InvalidInstruction => 0,
            ExchangeError::NotValidAuthority => 1,
            ExchangeError::ExpectedAmountMismatch => 2,
            ExchangeError::ExpectedDataMismatch => 3,
            ExchangeError::AmountOverflow => 4,
            ExchangeError::MarketAlreadySettled => 5,
            ExchangeError::MarketNotSettled => 6,
            ExchangeError::BetAlreadySettled => 7,
            ExchangeError::NotValidResult => 8,
            ExchangeError::InvalidFeedAccount => 9,
            ExchangeError::NotEnoughLiquidity => 10,
            ExchangeError::BetRiskZero => 11,
            ExchangeError::BetPayoutZero => 12,
            ExchangeError::MissingRequiredSignature => 13,
            ExchangeError::NotRentExempt => 14,
            ExchangeError::InvalidAccountData => 15,
            ExchangeError::InvalidPoolUsdtAccount => 16,
            ExchangeError::InvalidHtMintAccount => 17,
            ExchangeError::InvalidInsuranceFundUsdtAccount => 18,
            ExchangeError::InvalidDivvyFoundationUsdtAccount => 19,
            ExchangeError::BettingFrozen => 20,
            ExchangeError::PoolFrozen => 21,
            ExchangeError::GamesAreLive => 22,
            ExchangeError::MarketCommenced => 23,
            ExchangeError::NotValidMarketResult => 24,
            ExchangeError::NotEnoughAvailableLiquidityForBet => 25,
            ExchangeError::NotEnoughAvailableLiquidityForWithdrawal => 26,
            ExchangeError::HpLiquidityAlreadyInitialized => 27,
            ExchangeError::HpLiquidityNotInitialized => 28,
            ExchangeError::MarketAlreadyInitialized => 29,
            ExchangeError::MarketNotInitialized => 30,
            ExchangeError::BetAlreadyInitialized => 31,
            ExchangeError::FeedNotInitialized => 32,
            ExchangeError::MarketSideRiskUnderflow => 33,
            ExchangeError::MarketSidePayoutUnderflow => 34,
            ExchangeError::MarketSideRiskRemaining => 35,
            ExchangeError::MarketSidePayoutRemaining => 36,
            ExchangeError::MarketBettorBalanceRemaining => 37,
            ExchangeError::HousePoolBettorBalanceRemaining => 38,
            ExchangeError::HousePoolLockedLiquidityRemaining => 39,
            ExchangeError::UnexpectedAvailableLiquidity => 40,
            ExchangeError::InvalidMarketAccount => 41,
        }
    }

    /// A short human-readable description of the error.
    pub fn message(&self) -> (r: &'static str) {
        match self {
            ExchangeError::InvalidInstruction => "Invalid Instruction",
            ExchangeError::NotValidAuthority => "Not Valid Authority",
            ExchangeError::ExpectedAmountMismatch => "Expected Amount Mismatch",
            ExchangeError::ExpectedDataMismatch => "Expected Data Mismatch",
            ExchangeError::AmountOverflow => "Amount Overflow",
            ExchangeError::MarketAlreadySettled => "Market already settled",
            ExchangeError::MarketNotSettled => "Market not settled",
            ExchangeError::BetAlreadySettled => "Bet already settled",
            ExchangeError::NotValidResult => "Not valid result",
            ExchangeError::InvalidFeedAccount => "Invalid feed account",
            ExchangeError::NotEnoughLiquidity => "Not enough liquidity",
            ExchangeError::BetRiskZero => "Bet risk is zero",
            ExchangeError::BetPayoutZero => "Bet payout is zero",
            ExchangeError::MissingRequiredSignature => "Missing required signature",
            ExchangeError::NotRentExempt => "Account not rent exempt",
            ExchangeError::InvalidAccountData => "Invalid account data",
            ExchangeError::InvalidPoolUsdtAccount => "Invalid pool USDT account",
            ExchangeError::InvalidHtMintAccount => "Invalid HT mint account",
            ExchangeError::InvalidInsuranceFundUsdtAccount => "Invalid insurance fund USDT account",
            ExchangeError::InvalidDivvyFoundationUsdtAccount => "Invalid foundation USDT account",
            ExchangeError::BettingFrozen => "Betting is frozen",
            ExchangeError::PoolFrozen => "Pool is frozen",
            ExchangeError::GamesAreLive => "Games are live",
            ExchangeError::MarketCommenced => "Market commenced",
            ExchangeError::NotValidMarketResult => "Not a valid market result",
            ExchangeError::NotEnoughAvailableLiquidityForBet => "Not enough available liquidity for bet",
            ExchangeError::NotEnoughAvailableLiquidityForWithdrawal => "Not enough available liquidity for withdrawal",
            ExchangeError::HpLiquidityAlreadyInitialized => "HP liquidity already initialized",
            ExchangeError::HpLiquidityNotInitialized => "HP liquidity not initialized",
            ExchangeError::MarketAlreadyInitialized => "Market already initialized",
            ExchangeError::MarketNotInitialized => "Market not initialized",
            ExchangeError::BetAlreadyInitialized => "Bet already initialized",
            ExchangeError::FeedNotInitialized => "Feed not initialized",
            ExchangeError::MarketSideRiskUnderflow => "Market side risk underflow.",
            ExchangeError::MarketSidePayoutUnderflow => "Market side payout underflow.",
            ExchangeError::MarketSideRiskRemaining => "All bets in market settled and market side risk is positive.",
            ExchangeError::MarketSidePayoutRemaining => "All bets in market settled and market side payout is positive.",
            ExchangeError::MarketBettorBalanceRemaining => "All bets in market settled and market bettor balance is positive.",
            ExchangeError::HousePoolBettorBalanceRemaining => "All bets settled and house pool bettor balance is positive.",
            ExchangeError::HousePoolLockedLiquidityRemaining => "All bets settled and house pool locked or live liquidity is positive.",
            ExchangeError::UnexpectedAvailableLiquidity => "The balance in the house pool does not equal available liquidity.",
            ExchangeError::InvalidMarketAccount => "Invalid market account",
        }
    }
}

} // verus!
