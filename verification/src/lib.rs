//! A binary-outcome prediction market engine: participants deposit collateral
//! to mint complementary YES/NO outcome tokens, trade them through a
//! price-time-ordered limit order book, and redeem winning tokens for
//! collateral once the market is resolved.
//!
//! The library is pure computation over plain records.  Custody actions
//! (collateral transfers, token mints and burns) are returned to the caller
//! as effect values; the caller performs them against whatever ledger backs
//! the market.

pub mod buy_position;
pub mod constants;
pub mod errors;
pub mod funding;
pub mod market_order;
pub mod matching;
pub mod order_book;
pub mod platform;
pub mod settlement;
pub mod trading;
pub mod user_position;
pub mod wager;
