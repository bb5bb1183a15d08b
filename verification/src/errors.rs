use vstd::prelude::*;

verus! {

/// Every way an engine invocation can be refused.  An error always means the
/// invocation had no effect: no function of this library commits a partial
/// state change and then fails.
#[derive(Clone, Copy, Debug, PartialEq, Eq, Structural)]
pub enum IpredictError {
    /// Market times are not ordered as opening <= closing <= resolution,
    /// or the opening lies in the past.
    InvalidTimeParameters,
    /// Trading was attempted outside the market's open window.
    WagerNotOpen,
    /// Resolution was attempted on a market already resolved.
    WagerAlreadyResolved,
    /// Resolution or redemption was attempted before the market allows it.
    WagerNotResolvable,
    /// The chosen outcome was not a concrete value.
    InvalidResolution,
    /// A limit price of zero, or above the price ceiling.
    InvalidOrderPrice,
    /// An order quantity of zero.
    InvalidOrderQuantity,
    /// The target queue already holds the maximum number of orders.
    OrderBookFull,
    /// No resting order carries the requested id.
    OrderNotFound,
    /// The caller does not own the addressed record, or has already claimed.
    Unauthorized,
    /// The caller's balance cannot cover the requested amount.
    InsufficientBalance,
    /// The vault cannot cover the computed payout.
    InsufficientFunds,
    /// A market sweep acquired fewer tokens than the caller's minimum.
    SlippageExceeded,
    /// The market name exceeds the accepted length.
    NameTooLong,
    /// The market description exceeds the accepted length.
    DescriptionTooLong,
    /// A checked arithmetic step on a monetary or quantity field overflowed.
    MathOverflow,
}

} // verus!
