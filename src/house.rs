use vstd::prelude::*;

use crate::error::ExchangeError;
use crate::fixed_point::{scale_amount, scaled_amount};
use crate::liquidity::{available_liquidity_of, calculate_available_liquidity};
use crate::processor::{same, Processor};
use crate::state::{Address, HpLiquidity};

verus! {

/// The checks that deposits and withdrawals share.
pub open spec fn house_error(
    pool: HpLiquidity,
    ht_mint_key: Address,
    pool_usdt_key: Address,
) -> Option<ExchangeError> {
    if !pool.is_initialized {
        Some(ExchangeError::HpLiquidityNotInitialized)
    } else if !same(ht_mint_key, pool.ht_mint) {
        Some(ExchangeError::InvalidHtMintAccount)
    } else if !same(pool_usdt_key, pool.pool_usdt) {
        Some(ExchangeError::InvalidPoolUsdtAccount)
    } else if pool.live_liquidity > 0 {
        Some(ExchangeError::GamesAreLive)
    } else if pool.frozen_pool {
        Some(ExchangeError::PoolFrozen)
    } else {
        None
    }
}

/// The house tokens minted for a deposit of `usdt_amount`: one for one into an
/// empty pool, else in proportion to the supply over the pool's own capital
/// (custody balance less what bettors are owed).
pub open spec fn deposit_outcome(
    pool: HpLiquidity,
    ht_mint_key: Address,
    pool_usdt_key: Address,
    ht_supply: u64,
    custody_balance: u64,
    usdt_amount: u64,
) -> Result<u64, ExchangeError> {
    match house_error(pool, ht_mint_key, pool_usdt_key) {
        Some(e) => Err(e),
        None => if custody_balance == 0 {
            Ok(usdt_amount)
        } else if custody_balance < pool.bettor_balance {
            Err(ExchangeError::AmountOverflow)
        } else {
            match scaled_amount(
                ht_supply,
                (custody_balance - pool.bettor_balance) as u64,
                usdt_amount,
            ) {
                Some(n) => Ok(n),
                None => Err(ExchangeError::AmountOverflow),
            }
        },
    }
}

/// The USDT paid out for burning `ht_amount` house tokens: in proportion to the
/// pool's own capital over the supply, and never more than the available
/// liquidity.
pub open spec fn withdraw_outcome(
    pool: HpLiquidity,
    ht_mint_key: Address,
    pool_usdt_key: Address,
    ht_supply: u64,
    custody_balance: u64,
    ht_amount: u64,
) -> Result<u64, ExchangeError> {
    match house_error(pool, ht_mint_key, pool_usdt_key) {
        Some(e) => Err(e),
        None => if custody_balance < pool.bettor_balance {
            Err(ExchangeError::AmountOverflow)
        } else {
            match scaled_amount(
                (custody_balance - pool.bettor_balance) as u64,
                ht_supply,
                ht_amount,
            ) {
                None => Err(ExchangeError::AmountOverflow),
                Some(n) => if available_liquidity_of(custody_balance as int, pool) < 0 {
                    Err(ExchangeError::AmountOverflow)
                } else if n > available_liquidity_of(custody_balance as int, pool) {
                    Err(ExchangeError::NotEnoughAvailableLiquidityForWithdrawal)
                } else {
                    Ok(n)
                },
            }
        },
    }
}

impl Processor {
    fn check_house(pool: &HpLiquidity, ht_mint_key: &Address, pool_usdt_key: &Address) -> (r:
        Option<ExchangeError>)
        ensures
            r == house_error(*pool, *ht_mint_key, *pool_usdt_key),
    {
        if !pool.is_initialized {
            Some(ExchangeError::HpLiquidityNotInitialized)
        } else if !ht_mint_key.same(&pool.ht_mint) {
            Some(ExchangeError::InvalidHtMintAccount)
        } else if !pool_usdt_key.same(&pool.pool_usdt) {
            Some(ExchangeError::InvalidPoolUsdtAccount)
        } else if pool.live_liquidity > 0 {
            Some(ExchangeError::GamesAreLive)
        } else if pool.frozen_pool {
            Some(ExchangeError::PoolFrozen)
        } else {
            None
        }
    }

    /// How many house tokens a deposit of `usdt_amount` mints, given the token
    /// supply and the custody balance before the deposit.
    pub fn process_deposit(
        pool: &HpLiquidity,
        ht_mint_key: Address,
        pool_usdt_key: Address,
        ht_supply: u64,
        custody_balance: u64,
        usdt_amount: u64,
    ) -> (r: Result<u64, ExchangeError>)
        ensures
            r == deposit_outcome(
                *pool,
                ht_mint_key,
                pool_usdt_key,
                ht_supply,
                custody_balance,
                usdt_amount,
            ),
    {
        if let Some(e) = Self::check_house(pool, &ht_mint_key, &pool_usdt_key) {
            return Err(e);
        }
        if custody_balance == 0 {
            return Ok(usdt_amount);
        }
        if custody_balance < pool.bettor_balance {
            return Err(ExchangeError::AmountOverflow);
        }
        match scale_amount(ht_supply, custody_balance - pool.bettor_balance, usdt_amount) {
            Some(n) => Ok(n),
            None => Err(ExchangeError::AmountOverflow),
        }
    }

    /// How much USDT burning `ht_amount` house tokens pays out, given the token
    /// supply and the custody balance.
    pub fn process_withdraw(
        pool: &HpLiquidity,
        ht_mint_key: Address,
        pool_usdt_key: Address,
        ht_supply: u64,
        custody_balance: u64,
        ht_amount: u64,
    ) -> (r: Result<u64, ExchangeError>)
        ensures
            r == withdraw_outcome(
                *pool,
                ht_mint_key,
                pool_usdt_key,
                ht_supply,
                custody_balance,
                ht_amount,
            ),
    {
        if let Some(e) = Self::check_house(pool, &ht_mint_key, &pool_usdt_key) {
            return Err(e);
        }
        if custody_balance < pool.bettor_balance {
            return Err(ExchangeError::AmountOverflow);
        }
        let n = match scale_amount(custody_balance - pool.bettor_balance, ht_supply, ht_amount) {
            Some(n) => n,
            None => {
                return Err(ExchangeError::AmountOverflow);
            },
        };
        let available = match calculate_available_liquidity(custody_balance, pool) {
            Ok(a) => a,
            Err(e) => {
                return Err(e);
            },
        };
        if n > available {
            return Err(ExchangeError::NotEnoughAvailableLiquidityForWithdrawal);
        }
        Ok(n)
    }
}

} // verus!
