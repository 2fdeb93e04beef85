use vstd::prelude::*;

use crate::error::ExchangeError;
use crate::layout::{read_u64, u64_at};

verus! {

/// A decoded instruction. On the wire: one tag byte, then the fields of the
/// variant, integers little-endian.
#[derive(Debug, Clone, Copy, PartialEq, Eq, Structural)]
pub enum ExchangeInstruction {
    /// Tag 0: an amount, then (as the last byte) the custody signer's bump seed.
    Deposit { usdt_amount: u64, bump_seed: u8 },
    /// Tag 1: an amount of house tokens, then the bump seed as the last byte.
    Withdraw { ht_amount: u64, bump_seed: u8 },
    /// Tag 2: risk, odds as the bettor saw them, side.
    Initbet { risk: u64, odds: u64, market_side: u8 },
    /// Tag 3: the bump seed as the last byte.
    SettleBet { bump_seed: u8 },
    /// Tag 4.
    InitMoneylineMarket,
    /// Tag 5: the bump seed as the last byte.
    SettleMoneylineMarket { bump_seed: u8 },
    /// Tag 10: the bump seed as the last byte.
    Ownership { bump_seed: u8 },
    /// Tag 11.
    CommenceMarket,
    /// Tag 12: two flag bytes, pool then betting; any non-zero byte sets.
    Freeze { freeze_pool: bool, freeze_betting: bool },
}

/// The instruction that the bytes `s` encode, if any.
pub open spec fn instruction_of(s: Seq<u8>) -> Option<ExchangeInstruction> {
    if s.len() == 0 {
        None
    } else {
        let tag = s[0];
        let rest = s.subrange(1, s.len() as int);
        let n = rest.len();
        if tag == 0 && n >= 8 {
            Some(ExchangeInstruction::Deposit { usdt_amount: u64_at(rest, 0), bump_seed: rest.last() })
        } else if tag == 1 && n >= 8 {
            Some(ExchangeInstruction::Withdraw { ht_amount: u64_at(rest, 0), bump_seed: rest.last() })
        } else if tag == 2 && n >= 17 {
            Some(
                ExchangeInstruction::Initbet {
                    risk: u64_at(rest, 0),
                    odds: u64_at(rest, 8),
                    market_side: rest[16],
                },
            )
        } else if tag == 3 && n >= 1 {
            Some(ExchangeInstruction::SettleBet { bump_seed: rest.last() })
        } else if tag == 4 {
            Some(ExchangeInstruction::InitMoneylineMarket)
        } else if tag == 5 && n >= 1 {
            Some(ExchangeInstruction::SettleMoneylineMarket { bump_seed: rest.last() })
        } else if tag == 10 && n >= 1 {
            Some(ExchangeInstruction::Ownership { bump_seed: rest.last() })
        } else if tag == 11 {
            Some(ExchangeInstruction::CommenceMarket)
        } else if tag == 12 && n >= 2 {
            Some(ExchangeInstruction::Freeze { freeze_pool: rest[0] != 0, freeze_betting: rest[1] != 0 })
        } else {
            None
        }
    }
}

impl ExchangeInstruction {
    /// Decodes an instruction; any malformed input is `InvalidInstruction`.
    pub fn unpack(input: &[u8]) -> (r: Result<ExchangeInstruction, ExchangeError>)
        ensures
            r == (match instruction_of(input@) {
                Some(i) => Ok(i),
                None => Err(ExchangeError::InvalidInstruction),
            }),
    {
        let len = input.len();
        if len == 0 {
            return Err(ExchangeError::InvalidInstruction);
        }
        let tag = input[0];
        let rest = vstd::slice::slice_subrange(input, 1, len);
        match tag {
            0 => {
                let usdt_amount = Self::unpack_amount(rest)?;
                let bump_seed = Self::unpack_last(rest)?;
                Ok(ExchangeInstruction::Deposit { usdt_amount, bump_seed })
            },
            1 => {
                let ht_amount = Self::unpack_amount(rest)?;
                let bump_seed = Self::unpack_last(rest)?;
                Ok(ExchangeInstruction::Withdraw { ht_amount, bump_seed })
            },
            2 => {
                let risk = Self::unpack_amount(rest)?;
                let odds = Self::unpack_odds(rest)?;
                let market_side = Self::unpack_market_side(rest)?;
                Ok(ExchangeInstruction::Initbet { risk, odds, market_side })
            },
            3 => {
                let bump_seed = Self::unpack_last(rest)?;
                Ok(ExchangeInstruction::SettleBet { bump_seed })
            },
            4 => Ok(ExchangeInstruction::InitMoneylineMarket),
            5 => {
                let bump_seed = Self::unpack_last(rest)?;
                Ok(ExchangeInstruction::SettleMoneylineMarket { bump_seed })
            },
            10 => {
                let bump_seed = Self::unpack_last(rest)?;
                Ok(ExchangeInstruction::Ownership { bump_seed })
            },
            11 => Ok(ExchangeInstruction::CommenceMarket),
            12 => {
                if rest.len() < 2 {
                    return Err(ExchangeError::InvalidInstruction);
                }
                Ok(ExchangeInstruction::Freeze { freeze_pool: rest[0] != 0, freeze_betting: rest[1] != 0 })
            },
            _ => Err(ExchangeError::InvalidInstruction),
        }
    }

    fn unpack_last(input: &[u8]) -> (r: Result<u8, ExchangeError>)
        ensures
            input@.len() > 0 ==> r == Ok::<u8, ExchangeError>(input@.last()),
            input@.len() == 0 ==> r == Err::<u8, ExchangeError>(ExchangeError::InvalidInstruction),
    {
        let n = input.len();
        if n == 0 {
            return Err(ExchangeError::InvalidInstruction);
        }
        Ok(input[n - 1])
    }

    fn unpack_amount(input: &[u8]) -> (r: Result<u64, ExchangeError>)
        ensures
            input@.len() >= 8 ==> r == Ok::<u64, ExchangeError>(u64_at(input@, 0)),
            input@.len() < 8 ==> r == Err::<u64, ExchangeError>(ExchangeError::InvalidInstruction),
    {
        if input.len() < 8 {
            return Err(ExchangeError::InvalidInstruction);
        }
        Ok(read_u64(input, 0))
    }

    fn unpack_odds(input: &[u8]) -> (r: Result<u64, ExchangeError>)
        ensures
            input@.len() >= 16 ==> r == Ok::<u64, ExchangeError>(u64_at(input@, 8)),
            input@.len() < 16 ==> r == Err::<u64, ExchangeError>(ExchangeError::InvalidInstruction),
    {
        if input.len() < 16 {
            return Err(ExchangeError::InvalidInstruction);
        }
        Ok(read_u64(input, 8))
    }

    fn unpack_market_side(input: &[u8]) -> (r: Result<u8, ExchangeError>)
        ensures
            input@.len() >= 17 ==> r == Ok::<u8, ExchangeError>(input@[16]),
            input@.len() < 17 ==> r == Err::<u8, ExchangeError>(ExchangeError::InvalidInstruction),
    {
        if input.len() < 17 {
            return Err(ExchangeError::InvalidInstruction);
        }
        Ok(input[16])
    }
}

} // verus!
