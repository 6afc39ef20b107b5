use vstd::prelude::*;

verus! {

/// Every way an operation of the protocol can fail. Each operation is
/// all-or-nothing: when it returns one of these, it has changed nothing.
#[derive(Clone, Copy, Debug, PartialEq, Eq, Structural)]
pub enum ErrorCode {
    /// The intent has already been filled (or was never active).
    IntentInactive,
    /// The order's user does not match the intent's user.
    IntentUserMismatch,
    /// The order's input token does not match the intent's input token.
    IntentInputTokenMismatch,
    /// The order's output token does not match the intent's output token.
    IntentOutputTokenMismatch,
    /// The order's input amount does not match the intent's input amount.
    IntentInputAmountMismatch,
    /// The order's minimum receive does not match the intent's.
    IntentMinReceiveMismatch,
    /// The offered receive amount is below the intent's minimum.
    InsufficientOutput,
    /// The payer's balance does not cover the amount to move.
    InsufficientBalance,
    /// The escrow does not hold the intent's input amount.
    InsufficientUserEscrow,
    /// The solver's output-token balance does not cover the offer.
    InsufficientSolverBalance,
    /// An account's data is not what the operation expects.
    InvalidAccountData,
    /// An intent must escrow a positive input amount.
    InvalidInputAmount,
    /// An intent must ask for a positive minimum receive.
    InvalidMinReceive,
    /// A checked computation overflowed; the operation fails closed.
    MathOverflow,
    /// The auction is not in the Started state, or its window has not opened.
    AuctionNotStarted,
    /// The auction's window has closed without a claim.
    AuctionExpired,
    /// A solver has already claimed this auction.
    AuctionAlreadyClaimed,
    /// The auction does not belong to the given intent.
    IntentMismatch,
    /// The price offered or recorded is below the required floor.
    PriceBelowMinimum,
    /// The auction has not been awarded to a solver.
    AuctionNotAwarded,
    /// The caller is not the solver the auction was awarded to.
    AuctionNotSolver,
    /// The exclusive fill window has lapsed.
    TimeExceeded,
}

} // verus!
