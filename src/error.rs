use vstd::prelude::*;

verus! {

/// Every condition on which an auction instruction is refused.
#[derive(Clone, Copy, Debug, PartialEq, Eq, Structural)]
pub enum AuctionError {
    /// The auction would start at or before the present time.
    InvalidStartTime,
    /// The auction would end at or before its start.
    InvalidEndTime,
    /// The organizer cannot fund the escrow of the auctioned asset.
    InsufficientBalance,
    /// A bid arrived before the auction's start time.
    AuctionNotStarted,
    /// A bid arrived at or after the auction's end time.
    AuctionEnded,
    /// The amount of the auctioned asset to escrow is zero.
    InvalidTokenAmount,
    /// The bid mint is not the auction's, or not issued by the confidential
    /// token program.
    InvalidBidMint,
    /// The encrypted bid payload is empty.
    InvalidBidAmount,
    /// The auction no longer accepts bids or a close.
    AuctionNotOpen,
    /// The bid escrow account is not the auction's.
    InvalidBidVault,
    /// The bid counter would overflow.
    MathOverflow,
    /// The caller may not act for the organizer or the bidder.
    Unauthorized,
    /// The auction's end time has not been reached.
    AuctionNotEnded,
    /// Winners are resolved only on a closed auction.
    AuctionNotClosed,
}

} // verus!
