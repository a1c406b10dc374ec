//! Settlement core of a periodic up/down price-prediction market.
//!
//! Users stake an asset on the direction a price feed will move over a fixed
//! window; after the window closes, winners split the losing side's stake
//! minus a protocol fee, or every bettor is refunded if the round could not
//! be settled fairly (no price movement, oracle failure, or a one-sided
//! pool).  The round lifecycle, the betting ledger and the payout
//! computation are verified; the host environment supplies a clock, a
//! caller identity and an oracle price per operation.

pub mod contract;
pub mod crypto;
pub mod handler;
pub mod laws;
pub mod manage;
pub mod math;
pub mod query;
pub mod state;
pub mod types;
