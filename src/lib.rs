//! A betting exchange's ledger: a house pool that backs three-way moneyline
//! markets priced from oracle odds, and the bets placed on them.
//!
//! Every state transition is a function from the records it touches (and the
//! facts the host supplies) to the new records, with a contract that fixes the
//! result on every input; `laws` proves the properties the ledger keeps across
//! transitions.

pub mod error;
pub mod fixed_point;
pub mod house;
pub mod instruction;
pub mod laws;
pub mod layout;
pub mod liquidity;
pub mod processor;
pub mod records;
pub mod state;
pub mod token;
