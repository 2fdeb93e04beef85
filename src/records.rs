use vstd::prelude::*;

use crate::error::ExchangeError;
use crate::layout::{
    flag_byte, le_bytes, push_address, push_u64, read_address, read_u64, u64_at, write_prefix,
};
use crate::state::{
    outcome_code, outcome_of_code, Address, Bet, HpLiquidity, Market, MarketSide,
    MoneylineMarketOutcome,
};

verus! {

/// Size in bytes of a market record.
pub const MARKET_LEN: usize = 202;

/// Size in bytes of a house pool record.
pub const HP_LIQUIDITY_LEN: usize = 163;

/// Size in bytes of a bet record.
pub const BET_LEN: usize = 115;

pub open spec fn side_bytes(s: MarketSide) -> Seq<u8> {
    s.feed_account.bytes@ + le_bytes(s.payout) + le_bytes(s.risk)
}

/// A market record: flag, the three sides (feed, payout, risk), locked
/// liquidity, result feed, state byte, bettor balance, pending bets.
pub open spec fn market_bytes(m: Market) -> Seq<u8> {
    seq![flag_byte(m.is_initialized)] + side_bytes(m.market_sides[0]) + side_bytes(
        m.market_sides[1],
    ) + side_bytes(m.market_sides[2]) + le_bytes(m.locked_liquidity) + m.result_feed.bytes@
        + seq![outcome_code(m.result)] + le_bytes(m.bettor_balance) + le_bytes(m.pending_bets)
}

/// Whether `s` holds a readable market record.
pub open spec fn market_bytes_valid(s: Seq<u8>) -> bool {
    s.len() >= MARKET_LEN && (s[0] == 0 || s[0] == 1) && outcome_of_code(s[185]) is Some
}

pub open spec fn side_at(s: Seq<u8>, off: int, side: MarketSide) -> bool {
    &&& side.feed_account.bytes@ == s.subrange(off, off + 32)
    &&& side.payout == u64_at(s, off + 32)
    &&& side.risk == u64_at(s, off + 40)
}

/// Whether `m` is the market that the bytes of `s` record.
pub open spec fn market_parses(s: Seq<u8>, m: Market) -> bool {
    &&& m.is_initialized == (s[0] == 1)
    &&& side_at(s, 1, m.market_sides[0])
    &&& side_at(s, 49, m.market_sides[1])
    &&& side_at(s, 97, m.market_sides[2])
    &&& m.locked_liquidity == u64_at(s, 145)
    &&& m.result_feed.bytes@ == s.subrange(153, 185)
    &&& outcome_of_code(s[185]) == Some(m.result)
    &&& m.bettor_balance == u64_at(s, 186)
    &&& m.pending_bets == u64_at(s, 194)
}

/// A house pool record: flag, locked, live, bettor balance, pending bets, the
/// four token account addresses, the two freeze flags.
pub open spec fn hp_liquidity_bytes(p: HpLiquidity) -> Seq<u8> {
    seq![flag_byte(p.is_initialized)] + le_bytes(p.locked_liquidity) + le_bytes(p.live_liquidity)
        + le_bytes(p.bettor_balance) + le_bytes(p.pending_bets) + p.ht_mint.bytes@
        + p.pool_usdt.bytes@ + p.insurance_fund_usdt.bytes@
        + p.divvy_foundation_proceeds_usdt.bytes@ + seq![flag_byte(p.frozen_pool)] + seq![
        flag_byte(p.frozen_betting),
    ]
}

/// Whether `p` is the house pool that the bytes of `s` record; a flag byte
/// other than zero reads as set.
pub open spec fn hp_liquidity_parses(s: Seq<u8>, p: HpLiquidity) -> bool {
    &&& p.is_initialized == (s[0] != 0)
    &&& p.locked_liquidity == u64_at(s, 1)
    &&& p.live_liquidity == u64_at(s, 9)
    &&& p.bettor_balance == u64_at(s, 17)
    &&& p.pending_bets == u64_at(s, 25)
    &&& p.ht_mint.bytes@ == s.subrange(33, 65)
    &&& p.pool_usdt.bytes@ == s.subrange(65, 97)
    &&& p.insurance_fund_usdt.bytes@ == s.subrange(97, 129)
    &&& p.divvy_foundation_proceeds_usdt.bytes@ == s.subrange(129, 161)
    &&& p.frozen_pool == (s[161] != 0)
    &&& p.frozen_betting == (s[162] != 0)
}

/// A bet record: flag, market, the user's token and main accounts, risk,
/// payout, side, outcome.
pub open spec fn bet_bytes(b: Bet) -> Seq<u8> {
    seq![flag_byte(b.is_initialized)] + b.market.bytes@ + b.user_usdt_account.bytes@
        + b.user_main_account.bytes@ + le_bytes(b.user_risk) + le_bytes(b.user_payout) + seq![
        b.user_market_side,
    ] + seq![b.outcome]
}

pub open spec fn bet_bytes_valid(s: Seq<u8>) -> bool {
    s.len() >= BET_LEN && (s[0] == 0 || s[0] == 1)
}

pub open spec fn bet_parses(s: Seq<u8>, b: Bet) -> bool {
    &&& b.is_initialized == (s[0] == 1)
    &&& b.market.bytes@ == s.subrange(1, 33)
    &&& b.user_usdt_account.bytes@ == s.subrange(33, 65)
    &&& b.user_main_account.bytes@ == s.subrange(65, 97)
    &&& b.user_risk == u64_at(s, 97)
    &&& b.user_payout == u64_at(s, 105)
    &&& b.user_market_side == s[113]
    &&& b.outcome == s[114]
}

fn read_side(src: &[u8], off: usize) -> (r: MarketSide)
    requires
        off + 48 <= src@.len(),
    ensures
        side_at(src@, off as int, r),
{
    let n = src.len();
    assert(off + 48 <= n);
    MarketSide {
        feed_account: read_address(src, off),
        payout: read_u64(src, off + 32),
        risk: read_u64(src, off + 40),
    }
}

fn push_side(dst: &mut Vec<u8>, s: &MarketSide)
    ensures
        final(dst)@ == old(dst)@ + side_bytes(*s),
{
    push_address(dst, &s.feed_account);
    push_u64(dst, s.payout);
    push_u64(dst, s.risk);
    assert(dst@ =~= old(dst)@ + side_bytes(*s));
}

impl Market {
    pub fn unpack_from_slice(src: &[u8]) -> (r: Result<Market, ExchangeError>)
        ensures
            market_bytes_valid(src@) ==> r is Ok && market_parses(src@, r->Ok_0),
            !market_bytes_valid(src@) ==> r == Err::<Market, ExchangeError>(
                ExchangeError::InvalidAccountData,
            ),
    {
        if src.len() < MARKET_LEN {
            return Err(ExchangeError::InvalidAccountData);
        }
        let is_initialized = match src[0] {
            0 => false,
            1 => true,
            _ => {
                return Err(ExchangeError::InvalidAccountData);
            },
        };
        let result = match MoneylineMarketOutcome::unpack(&src[185]) {
            Ok(o) => o,
            Err(_) => {
                return Err(ExchangeError::InvalidAccountData);
            },
        };
        Ok(
            Market {
                is_initialized,
                market_sides: [read_side(src, 1), read_side(src, 49), read_side(src, 97)],
                locked_liquidity: read_u64(src, 145),
                result_feed: read_address(src, 153),
                result,
                bettor_balance: read_u64(src, 186),
                pending_bets: read_u64(src, 194),
            },
        )
    }

    fn encode(&self) -> (r: Vec<u8>)
        ensures
            r@ == market_bytes(*self),
    {
        let mut v: Vec<u8> = Vec::new();
        v.push(if self.is_initialized { 1u8 } else { 0u8 });
        push_side(&mut v, &self.market_sides[0]);
        push_side(&mut v, &self.market_sides[1]);
        push_side(&mut v, &self.market_sides[2]);
        push_u64(&mut v, self.locked_liquidity);
        push_address(&mut v, &self.result_feed);
        v.push(self.result.pack());
        push_u64(&mut v, self.bettor_balance);
        push_u64(&mut v, self.pending_bets);
        assert(v@ =~= market_bytes(*self));
        v
    }

    /// Writes the record over the first `MARKET_LEN` bytes of `dst`.
    pub fn pack_into_slice(&self, dst: &mut [u8])
        requires
            old(dst)@.len() >= MARKET_LEN,
        ensures
            final(dst)@ == market_bytes(*self) + old(dst)@.subrange(
                MARKET_LEN as int,
                old(dst)@.len() as int,
            ),
    {
        let v = self.encode();
        proof {
            lemma_market_bytes_len(*self);
        }
        write_prefix(dst, &v);
    }
}

impl HpLiquidity {
    pub fn unpack_from_slice(src: &[u8]) -> (r: Result<HpLiquidity, ExchangeError>)
        ensures
            src@.len() >= HP_LIQUIDITY_LEN ==> r is Ok && hp_liquidity_parses(src@, r->Ok_0),
            src@.len() < HP_LIQUIDITY_LEN ==> r == Err::<HpLiquidity, ExchangeError>(
                ExchangeError::InvalidAccountData,
            ),
    {
        if src.len() < HP_LIQUIDITY_LEN {
            return Err(ExchangeError::InvalidAccountData);
        }
        Ok(
            HpLiquidity {
                is_initialized: src[0] != 0,
                locked_liquidity: read_u64(src, 1),
                live_liquidity: read_u64(src, 9),
                bettor_balance: read_u64(src, 17),
                pending_bets: read_u64(src, 25),
                ht_mint: read_address(src, 33),
                pool_usdt: read_address(src, 65),
                insurance_fund_usdt: read_address(src, 97),
                divvy_foundation_proceeds_usdt: read_address(src, 129),
                frozen_pool: src[161] != 0,
                frozen_betting: src[162] != 0,
            },
        )
    }

    fn encode(&self) -> (r: Vec<u8>)
        ensures
            r@ == hp_liquidity_bytes(*self),
    {
        let mut v: Vec<u8> = Vec::new();
        v.push(if self.is_initialized { 1u8 } else { 0u8 });
        push_u64(&mut v, self.locked_liquidity);
        push_u64(&mut v, self.live_liquidity);
        push_u64(&mut v, self.bettor_balance);
        push_u64(&mut v, self.pending_bets);
        push_address(&mut v, &self.ht_mint);
        push_address(&mut v, &self.pool_usdt);
        push_address(&mut v, &self.insurance_fund_usdt);
        push_address(&mut v, &self.divvy_foundation_proceeds_usdt);
        v.push(if self.frozen_pool { 1u8 } else { 0u8 });
        v.push(if self.frozen_betting { 1u8 } else { 0u8 });
        assert(v@ =~= hp_liquidity_bytes(*self));
        v
    }

    /// Writes the record over the first `HP_LIQUIDITY_LEN` bytes of `dst`.
    pub fn pack_into_slice(&self, dst: &mut [u8])
        requires
            old(dst)@.len() >= HP_LIQUIDITY_LEN,
        ensures
            final(dst)@ == hp_liquidity_bytes(*self) + old(dst)@.subrange(
                HP_LIQUIDITY_LEN as int,
                old(dst)@.len() as int,
            ),
    {
        let v = self.encode();
        proof {
            lemma_hp_liquidity_bytes_len(*self);
        }
        write_prefix(dst, &v);
    }
}

impl Bet {
    pub fn unpack_from_slice(src: &[u8]) -> (r: Result<Bet, ExchangeError>)
        ensures
            bet_bytes_valid(src@) ==> r is Ok && bet_parses(src@, r->Ok_0),
            !bet_bytes_valid(src@) ==> r == Err::<Bet, ExchangeError>(
                ExchangeError::InvalidAccountData,
            ),
    {
        if src.len() < BET_LEN {
            return Err(ExchangeError::InvalidAccountData);
        }
        let is_initialized = match src[0] {
            0 => false,
            1 => true,
            _ => {
                return Err(ExchangeError::InvalidAccountData);
            },
        };
        Ok(
            Bet {
                is_initialized,
                market: read_address(src, 1),
                user_usdt_account: read_address(src, 33),
                user_main_account: read_address(src, 65),
                user_risk: read_u64(src, 97),
                user_payout: read_u64(src, 105),
                user_market_side: src[113],
                outcome: src[114],
            },
        )
    }

    fn encode(&self) -> (r: Vec<u8>)
        ensures
            r@ == bet_bytes(*self),
    {
        let mut v: Vec<u8> = Vec::new();
        v.push(if self.is_initialized { 1u8 } else { 0u8 });
        push_address(&mut v, &self.market);
        push_address(&mut v, &self.user_usdt_account);
        push_address(&mut v, &self.user_main_account);
        push_u64(&mut v, self.user_risk);
        push_u64(&mut v, self.user_payout);
        v.push(self.user_market_side);
        v.push(self.outcome);
        assert(v@ =~= bet_bytes(*self));
        v
    }

    /// Writes the record over the first `BET_LEN` bytes of `dst`.
    pub fn pack_into_slice(&self, dst: &mut [u8])
        requires
            old(dst)@.len() >= BET_LEN,
        ensures
            final(dst)@ == bet_bytes(*self) + old(dst)@.subrange(
                BET_LEN as int,
                old(dst)@.len() as int,
            ),
    {
        let v = self.encode();
        proof {
            lemma_bet_bytes_len(*self);
        }
        write_prefix(dst, &v);
    }
}

pub proof fn lemma_market_bytes_len(m: Market)
    ensures
        market_bytes(m).len() == MARKET_LEN,
{
    vstd::bytes::lemma_auto_spec_u64_to_from_le_bytes();
}

pub proof fn lemma_hp_liquidity_bytes_len(p: HpLiquidity)
    ensures
        hp_liquidity_bytes(p).len() == HP_LIQUIDITY_LEN,
{
    vstd::bytes::lemma_auto_spec_u64_to_from_le_bytes();
}

pub proof fn lemma_bet_bytes_len(b: Bet)
    ensures
        bet_bytes(b).len() == BET_LEN,
{
    vstd::bytes::lemma_auto_spec_u64_to_from_le_bytes();
}

/// Reading back a packed market record gives the market that was packed.
pub proof fn lemma_market_round_trip(m: Market)
    ensures
        market_bytes_valid(market_bytes(m)),
        market_parses(market_bytes(m), m),
{
    vstd::bytes::lemma_auto_spec_u64_to_from_le_bytes();
    let s = market_bytes(m);
    let s0 = m.market_sides[0];
    let s1 = m.market_sides[1];
    let s2 = m.market_sides[2];
    assert(s.subrange(1, 33) =~= s0.feed_account.bytes@);
    assert(s.subrange(33, 41) =~= le_bytes(s0.payout));
    assert(s.subrange(41, 49) =~= le_bytes(s0.risk));
    assert(s.subrange(49, 81) =~= s1.feed_account.bytes@);
    assert(s.subrange(81, 89) =~= le_bytes(s1.payout));
    assert(s.subrange(89, 97) =~= le_bytes(s1.risk));
    assert(s.subrange(97, 129) =~= s2.feed_account.bytes@);
    assert(s.subrange(129, 137) =~= le_bytes(s2.payout));
    assert(s.subrange(137, 145) =~= le_bytes(s2.risk));
    assert(s.subrange(145, 153) =~= le_bytes(m.locked_liquidity));
    assert(s.subrange(153, 185) =~= m.result_feed.bytes@);
    assert(s[185] == outcome_code(m.result));
    assert(s.subrange(186, 194) =~= le_bytes(m.bettor_balance));
    assert(s.subrange(194, 202) =~= le_bytes(m.pending_bets));
}

/// Reading back a packed house pool record gives the pool that was packed.
pub proof fn lemma_hp_liquidity_round_trip(p: HpLiquidity)
    ensures
        hp_liquidity_bytes(p).len() == HP_LIQUIDITY_LEN,
        hp_liquidity_parses(hp_liquidity_bytes(p), p),
{
    vstd::bytes::lemma_auto_spec_u64_to_from_le_bytes();
    let s = hp_liquidity_bytes(p);
    assert(s.subrange(1, 9) =~= le_bytes(p.locked_liquidity));
    assert(s.subrange(9, 17) =~= le_bytes(p.live_liquidity));
    assert(s.subrange(17, 25) =~= le_bytes(p.bettor_balance));
    assert(s.subrange(25, 33) =~= le_bytes(p.pending_bets));
    assert(s.subrange(33, 65) =~= p.ht_mint.bytes@);
    assert(s.subrange(65, 97) =~= p.pool_usdt.bytes@);
    assert(s.subrange(97, 129) =~= p.insurance_fund_usdt.bytes@);
    assert(s.subrange(129, 161) =~= p.divvy_foundation_proceeds_usdt.bytes@);
}

/// Reading back a packed bet record gives the bet that was packed.
pub proof fn lemma_bet_round_trip(b: Bet)
    ensures
        bet_bytes_valid(bet_bytes(b)),
        bet_parses(bet_bytes(b), b),
{
    vstd::bytes::lemma_auto_spec_u64_to_from_le_bytes();
    let s = bet_bytes(b);
    assert(s.subrange(1, 33) =~= b.market.bytes@);
    assert(s.subrange(33, 65) =~= b.user_usdt_account.bytes@);
    assert(s.subrange(65, 97) =~= b.user_main_account.bytes@);
    assert(s.subrange(97, 105) =~= le_bytes(b.user_risk));
    assert(s.subrange(105, 113) =~= le_bytes(b.user_payout));
}

} // verus!
