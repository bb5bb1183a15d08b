use vstd::prelude::*;

verus! {

/// Outcome tokens minted per whole unit of collateral deposited.
pub const TOKENS_PER_SOL: u64 = 100;

/// Collateral units redeemable per whole token; also the ceiling for an
/// order's limit price.
pub const LAMPORTS_PER_TOKEN: u64 = 10_000_000;

/// Collateral units per whole coin of the base currency.
pub const LAMPORTS_PER_SOL: u64 = 1_000_000_000;

/// Basis points of each trade's notional kept by the platform.
pub const PLATFORM_FEE_BPS: u64 = 25;

/// Basis points of each trade's notional owed to the market creator.
pub const CREATOR_FEE_BPS: u64 = 25;

/// Total fee rate in basis points charged on each trade's notional.
pub const TOTAL_FEE_BPS: u64 = 50;

/// Divisor turning basis points into a fraction.
pub const BPS_DIVISOR: u64 = 10_000;

/// Longest accepted market name, in bytes.
pub const MAX_NAME_LENGTH: usize = 200;

/// Longest accepted market description, in bytes.
pub const MAX_DESCRIPTION_LENGTH: usize = 1000;

/// Capacity of each of the four order queues of a market.
pub const MAX_ORDERS_PER_BOOK: usize = 1000;

/// Flat fee charged when a market is created.
pub const WAGER_CREATION_FEE: u64 = 1_000_000_000;

} // verus!
