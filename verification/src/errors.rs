//! Why the engine turns an operation down.

use vstd::prelude::*;

verus! {

/// Every way an operation on a market can be rejected.
///
/// A rejected operation leaves the market and the position exactly as they
/// were.
#[derive(Clone, Copy, Debug, PartialEq, Eq, Structural)]
pub enum MarketError {
    /// The title is empty or longer than 128 bytes.
    InvalidTitle,
    /// The description is empty or longer than 512 bytes.
    InvalidDescription,
    /// The end date is not in the future.
    InvalidEndDate,
    /// A wager of nothing.
    InvalidAmount,
    /// The market no longer takes wagers.
    MarketNotActive,
    /// The end date has been reached.
    MarketEnded,
    /// The wager is below the configured minimum.
    BetTooSmall,
    /// The wager is above the configured maximum.
    BetTooLarge,
    /// The market has not been resolved.
    MarketNotResolved,
    /// The market has already left the active state.
    MarketAlreadyResolved,
    /// The position has already been paid out or refunded.
    AlreadyClaimed,
    /// The position is on the losing side.
    BetLost,
    /// The caller is not who the operation requires.
    Unauthorized,
    /// A pool would exceed the largest representable amount.
    PoolOverflow,
    /// The total volume would exceed the largest representable amount.
    TotalVolumeOverflow,
    /// The wager counter would exceed the largest representable count.
    TotalBetsOverflow,
    /// A fee accumulator would exceed the largest representable amount.
    FeeOverflow,
    /// The end date has not been reached.
    MarketNotEnded,
    /// The winning pool is empty, so no share can be computed.
    NoWinnersCannotClaim,
    /// The payout does not fit the arithmetic it is computed in. The payout
    /// is computed in 128 bits, which hold it always: no operation returns
    /// this.
    PayoutCalculationOverflow,
    /// More has been claimed than the pools hold.
    TotalClaimedOverflow,
    /// The market has not been cancelled.
    MarketNotCancelled,
    /// Only an active market can be cancelled.
    CannotCancelResolvedMarket,
    /// A market cannot be cancelled while it still takes wagers.
    CannotCancelBeforeEndDate,
}

} // verus!
