use divvy::error::ExchangeError;
use divvy::instruction::ExchangeInstruction;
use divvy::layout::{pack_address_option, unpack_address_option};
use divvy::records::{BET_LEN, HP_LIQUIDITY_LEN, MARKET_LEN};
use divvy::state::{Address, Bet, BetType, HpLiquidity, Market, MarketSide, MoneylineMarketOutcome};
use divvy::token::{token_account_balance, token_mint_supply};

fn addr(b: u8) -> Address {
    Address { bytes: [b; 32] }
}

fn sample_market() -> Market {
    Market {
        is_initialized: true,
        market_sides: [
            MarketSide { feed_account: addr(1), payout: 0x0102030405060708, risk: 7 },
            MarketSide { feed_account: addr(2), payout: 9, risk: u64::MAX },
            MarketSide { feed_account: addr(3), payout: 11, risk: 12 },
        ],
        locked_liquidity: 13,
        result_feed: addr(4),
        result: MoneylineMarketOutcome::Commenced,
        bettor_balance: 14,
        pending_bets: 15,
    }
}

#[test]
fn instruction_tags() {
    let mut deposit = vec![0u8];
    deposit.extend_from_slice(&500u64.to_le_bytes());
    deposit.push(254);
    assert_eq!(
        ExchangeInstruction::unpack(&deposit),
        Ok(ExchangeInstruction::Deposit { usdt_amount: 500, bump_seed: 254 })
    );
    let mut withdraw = vec![1u8];
    withdraw.extend_from_slice(&7u64.to_le_bytes());
    withdraw.push(3);
    assert_eq!(
        ExchangeInstruction::unpack(&withdraw),
        Ok(ExchangeInstruction::Withdraw { ht_amount: 7, bump_seed: 3 })
    );
    let mut bet = vec![2u8];
    bet.extend_from_slice(&100u64.to_le_bytes());
    bet.extend_from_slice(&150u64.to_le_bytes());
    bet.push(2);
    assert_eq!(
        ExchangeInstruction::unpack(&bet),
        Ok(ExchangeInstruction::Initbet { risk: 100, odds: 150, market_side: 2 })
    );
    assert_eq!(ExchangeInstruction::unpack(&[3, 9, 8]), Ok(ExchangeInstruction::SettleBet { bump_seed: 8 }));
    assert_eq!(ExchangeInstruction::unpack(&[4]), Ok(ExchangeInstruction::InitMoneylineMarket));
    assert_eq!(
        ExchangeInstruction::unpack(&[5, 6]),
        Ok(ExchangeInstruction::SettleMoneylineMarket { bump_seed: 6 })
    );
    assert_eq!(ExchangeInstruction::unpack(&[10, 1]), Ok(ExchangeInstruction::Ownership { bump_seed: 1 }));
    assert_eq!(ExchangeInstruction::unpack(&[11]), Ok(ExchangeInstruction::CommenceMarket));
    assert_eq!(
        ExchangeInstruction::unpack(&[12, 0, 5]),
        Ok(ExchangeInstruction::Freeze { freeze_pool: false, freeze_betting: true })
    );
}

#[test]
fn malformed_instructions() {
    assert_eq!(ExchangeInstruction::unpack(&[]), Err(ExchangeError::InvalidInstruction));
    assert_eq!(ExchangeInstruction::unpack(&[6]), Err(ExchangeError::InvalidInstruction));
    assert_eq!(ExchangeInstruction::unpack(&[99, 1, 2]), Err(ExchangeError::InvalidInstruction));
    assert_eq!(ExchangeInstruction::unpack(&[0, 1, 2, 3]), Err(ExchangeError::InvalidInstruction));
    assert_eq!(ExchangeInstruction::unpack(&[2; 17]), Err(ExchangeError::InvalidInstruction));
    assert_eq!(ExchangeInstruction::unpack(&[3]), Err(ExchangeError::InvalidInstruction));
    assert_eq!(ExchangeInstruction::unpack(&[12, 1]), Err(ExchangeError::InvalidInstruction));
}

#[test]
fn deposit_bump_seed_is_the_last_byte() {
    let mut deposit = vec![0u8];
    deposit.extend_from_slice(&0x0807060504030201u64.to_le_bytes());
    assert_eq!(
        ExchangeInstruction::unpack(&deposit),
        Ok(ExchangeInstruction::Deposit { usdt_amount: 0x0807060504030201, bump_seed: 8 })
    );
}

#[test]
fn outcome_codes() {
    let all = [
        MoneylineMarketOutcome::MarketSide0Won,
        MoneylineMarketOutcome::MarketSide1Won,
        MoneylineMarketOutcome::MarketSide2Won,
        MoneylineMarketOutcome::NotYetCommenced,
        MoneylineMarketOutcome::Commenced,
    ];
    for (i, o) in all.iter().enumerate() {
        assert_eq!(o.pack(), i as u8);
        assert_eq!(MoneylineMarketOutcome::unpack(&(i as u8)), Ok(*o));
    }
    assert_eq!(MoneylineMarketOutcome::unpack(&5), Err(ExchangeError::InvalidInstruction));
    assert_eq!(MoneylineMarketOutcome::Commenced.description(), "Commenced");
}

#[test]
fn bet_type_codes() {
    assert_eq!(BetType::unpack(&0), Ok(BetType::MoneyLine));
    assert_eq!(BetType::unpack(&1), Ok(BetType::Spread));
    assert_eq!(BetType::unpack(&2), Ok(BetType::Total));
    assert_eq!(BetType::unpack(&3), Err(ExchangeError::InvalidInstruction));
    assert_eq!(BetType::Total.pack(), 2);
    assert_eq!(BetType::Spread.pack(), 1);
    assert_eq!(BetType::MoneyLine.pack(), 0);
}

#[test]
fn market_record_round_trip() {
    let m = sample_market();
    let mut buf = vec![0xAAu8; MARKET_LEN + 3];
    m.pack_into_slice(&mut buf);
    assert_eq!(buf[0], 1);
    assert_eq!(&buf[1..33], &[1u8; 32]);
    assert_eq!(&buf[33..41], &0x0102030405060708u64.to_le_bytes());
    assert_eq!(buf[185], 4);
    assert_eq!(&buf[MARKET_LEN..], &[0xAA, 0xAA, 0xAA]);
    let back = Market::unpack_from_slice(&buf).unwrap();
    assert_eq!(format!("{:?}", back), format!("{:?}", m));
}

#[test]
fn market_record_rejects_bad_bytes() {
    let mut buf = vec![0u8; MARKET_LEN];
    sample_market().pack_into_slice(&mut buf);
    assert_eq!(Market::unpack_from_slice(&buf[..MARKET_LEN - 1]).unwrap_err(), ExchangeError::InvalidAccountData);
    let mut bad_flag = buf.clone();
    bad_flag[0] = 2;
    assert_eq!(Market::unpack_from_slice(&bad_flag).unwrap_err(), ExchangeError::InvalidAccountData);
    let mut bad_state = buf.clone();
    bad_state[185] = 5;
    assert_eq!(Market::unpack_from_slice(&bad_state).unwrap_err(), ExchangeError::InvalidAccountData);
}

#[test]
fn pool_record_round_trip() {
    let p = HpLiquidity {
        is_initialized: true,
        locked_liquidity: 1,
        live_liquidity: 2,
        bettor_balance: 3,
        pending_bets: 4,
        ht_mint: addr(5),
        pool_usdt: addr(6),
        insurance_fund_usdt: addr(7),
        divvy_foundation_proceeds_usdt: addr(8),
        frozen_pool: true,
        frozen_betting: false,
    };
    let mut buf = vec![0u8; HP_LIQUIDITY_LEN];
    p.pack_into_slice(&mut buf);
    assert_eq!(&buf[1..9], &1u64.to_le_bytes());
    assert_eq!(buf[161], 1);
    assert_eq!(buf[162], 0);
    let back = HpLiquidity::unpack_from_slice(&buf).unwrap();
    assert_eq!(format!("{:?}", back), format!("{:?}", p));
    assert_eq!(HpLiquidity::unpack_from_slice(&buf[..10]).unwrap_err(), ExchangeError::InvalidAccountData);
    buf[0] = 7;
    assert!(HpLiquidity::unpack_from_slice(&buf).unwrap().is_initialized);
}

#[test]
fn bet_record_round_trip() {
    let b = Bet {
        is_initialized: true,
        market: addr(1),
        user_usdt_account: addr(2),
        user_main_account: addr(3),
        user_risk: 100,
        user_payout: 150,
        user_market_side: 2,
        outcome: 1,
    };
    let mut buf = vec![0u8; BET_LEN];
    b.pack_into_slice(&mut buf);
    assert_eq!(&buf[97..105], &100u64.to_le_bytes());
    assert_eq!(buf[113], 2);
    assert_eq!(buf[114], 1);
    let back = Bet::unpack_from_slice(&buf).unwrap();
    assert_eq!(format!("{:?}", back), format!("{:?}", b));
    buf[0] = 3;
    assert_eq!(Bet::unpack_from_slice(&buf).unwrap_err(), ExchangeError::InvalidAccountData);
    let blank = Bet::unpack_from_slice(&[0u8; BET_LEN]).unwrap();
    assert!(!blank.is_initialized);
}

#[test]
fn address_option_codec() {
    let mut buf = [9u8; 33];
    pack_address_option(&Some(addr(5)), &mut buf);
    assert_eq!(buf[0], 1);
    assert_eq!(&buf[1..], &[5u8; 32]);
    let mut with_tail = buf.to_vec();
    with_tail.push(42);
    let (key, rest) = unpack_address_option(&with_tail).unwrap();
    assert_eq!(key.unwrap().bytes, [5u8; 32]);
    assert_eq!(rest, &[42]);
    pack_address_option(&None, &mut buf);
    assert_eq!(buf, [0u8; 33]);
    let (key, rest) = unpack_address_option(&buf).unwrap();
    assert!(key.is_none());
    assert_eq!(rest.len(), 32);
    assert_eq!(unpack_address_option(&[1, 2, 3]).unwrap_err(), ExchangeError::InvalidInstruction);
    assert_eq!(unpack_address_option(&[]).unwrap_err(), ExchangeError::InvalidInstruction);
    assert_eq!(unpack_address_option(&[2]).unwrap_err(), ExchangeError::InvalidInstruction);
}

#[test]
fn token_records() {
    let mut account = vec![0u8; 165];
    account[64..72].copy_from_slice(&12345u64.to_le_bytes());
    account[108] = 1; // initialized
    assert_eq!(token_account_balance(&account), Ok(12345));
    assert_eq!(token_account_balance(&account[..164]), Err(ExchangeError::InvalidAccountData));
    account[108] = 0;
    assert_eq!(token_account_balance(&account), Err(ExchangeError::InvalidAccountData));
    let mut mint = vec![0u8; 82];
    mint[36..44].copy_from_slice(&777u64.to_le_bytes());
    mint[45] = 1;
    assert_eq!(token_mint_supply(&mint), Ok(777));
    mint[45] = 0;
    assert_eq!(token_mint_supply(&mint), Err(ExchangeError::InvalidAccountData));
}

#[test]
fn error_codes_and_messages() {
    assert_eq!(ExchangeError::InvalidInstruction.code(), 0);
    assert_eq!(ExchangeError::BetAlreadySettled.code(), 7);
    assert_eq!(ExchangeError::UnexpectedAvailableLiquidity.code(), 40);
    assert_eq!(ExchangeError::BetRiskZero.message(), "Bet risk is zero");
}
