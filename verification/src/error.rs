//! The error kinds that the operations of the sale return.

use vstd::prelude::*;

verus! {

/// Why an operation was refused. An operation that returns an error has
/// changed nothing.
#[derive(Clone, Copy, Debug, PartialEq, Eq, Structural)]
pub enum CrowdSaleError {
    /// The start time is not after the current time.
    InvalidStartTime,
    /// The end time is not after the start time.
    InvalidEndTime,
    /// The maximum price is below the minimum price, or the price is zero.
    InvalidPriceRange,
    /// The caller is not the authority of the sale.
    Unauthorized,
    /// The sale has not started yet.
    SaleNotStart,
    /// The sale has ended.
    SaleEnded,
    /// The sale has not ended yet.
    SaleNotEnded,
    /// The amount does not meet the minimum price.
    MinimumPriceNotMet,
    /// The amount exceeds the maximum price.
    ExceedsMaximumPrice,
    /// The amount is outside the price range of the sale.
    InvalidPrice,
    /// The purchase would issue more than the supply that is left.
    ExceedsSupply,
    /// The buyer's cumulative payment would exceed the maximum price.
    InvalidMaximumCanBuy,
    /// A quantity that has to be stored does not fit in 64 bits, or the
    /// price is zero where a rate has to be computed.
    ArithmeticOverflow,
    /// A withdrawal asks for more than the escrow holds.
    InsufficientEscrow,
}

} // verus!
