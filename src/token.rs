use vstd::prelude::*;

use solana_program::program_pack::Pack;
use spl_token::state::{Account, Mint};

use crate::error::ExchangeError;
use crate::layout::u64_at;

verus! {

/// Size in bytes of a token account record.
pub const TOKEN_ACCOUNT_LEN: usize = 165;

/// Size in bytes of a token mint record.
pub const TOKEN_MINT_LEN: usize = 82;

/// Relies on spl_token's `Account::unpack`: it accepts only records of 165
/// bytes, and the balance it reads is the little-endian integer at offset 64.
#[verifier::external_body]
fn unpack_token_account_amount(data: &[u8]) -> (r: Option<u64>)
    ensures
        r is Some ==> data@.len() == TOKEN_ACCOUNT_LEN && r->Some_0 == u64_at(data@, 64),
{
    match Account::unpack(data) {
        Ok(account) => Some(account.amount),
        Err(_) => None,
    }
}

/// Relies on spl_token's `Mint::unpack`: it accepts only records of 82 bytes,
/// and the supply it reads is the little-endian integer at offset 36.
#[verifier::external_body]
fn unpack_mint_supply(data: &[u8]) -> (r: Option<u64>)
    ensures
        r is Some ==> data@.len() == TOKEN_MINT_LEN && r->Some_0 == u64_at(data@, 36),
{
    match Mint::unpack(data) {
        Ok(mint) => Some(mint.supply),
        Err(_) => None,
    }
}

/// The balance of an initialised token account, from its record.
pub fn token_account_balance(data: &[u8]) -> (r: Result<u64, ExchangeError>)
    ensures
        r is Ok ==> data@.len() == TOKEN_ACCOUNT_LEN && r->Ok_0 == u64_at(data@, 64),
        r is Err ==> r == Err::<u64, ExchangeError>(ExchangeError::InvalidAccountData),
        data@.len() != TOKEN_ACCOUNT_LEN ==> r is Err,
{
    match unpack_token_account_amount(data) {
        Some(amount) => Ok(amount),
        None => Err(ExchangeError::InvalidAccountData),
    }
}

/// The supply of an initialised token mint, from its record.
pub fn token_mint_supply(data: &[u8]) -> (r: Result<u64, ExchangeError>)
    ensures
        r is Ok ==> data@.len() == TOKEN_MINT_LEN && r->Ok_0 == u64_at(data@, 36),
        r is Err ==> r == Err::<u64, ExchangeError>(ExchangeError::InvalidAccountData),
        data@.len() != TOKEN_MINT_LEN ==> r is Err,
{
    match unpack_mint_supply(data) {
        Some(supply) => Ok(supply),
        None => Err(ExchangeError::InvalidAccountData),
    }
}

} // verus!
