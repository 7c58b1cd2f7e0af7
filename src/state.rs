use vstd::prelude::*;
use crate::encrypted::{Ebool, Euint128, ZERO_HANDLE};

verus! {

/// A 32-byte account address, held as two 128-bit halves.
#[derive(Clone, Copy, Debug, PartialEq, Eq, Structural)]
pub struct Address {
    pub hi: u128,
    pub lo: u128,
}

/// How the clearing price is set.
#[derive(Clone, Copy, Debug, PartialEq, Eq, Structural)]
pub enum AuctionType {
    /// First price: the winner pays their own bid.
    Normal,
    /// Second price: the winner pays the second-highest bid.
    Vickrey,
}

/// The auction's lifecycle. `Settled` and `Cancelled` are reached only by
/// settlement and cancellation flows outside this library.
#[derive(Clone, Copy, Debug, PartialEq, Eq, Structural)]
pub enum AuctionStatus {
    Open,
    Closed,
    Settled,
    Cancelled,
}

/// One auction, under one organizer and auction id.
#[derive(Clone, Copy, Debug, PartialEq, Eq, Structural)]
pub struct AuctionState {
    pub organizer: Address,
    /// Mint of the auctioned asset.
    pub mint: Address,
    /// Escrow holding the auctioned asset.
    pub vault: Address,
    /// Mint of the confidential token that bids are paid in.
    pub bid_token_mint: Address,
    /// Escrow accumulating the bid funds.
    pub bid_vault: Address,
    /// The running highest bid.
    pub highest_bid: Euint128,
    /// The running second-highest bid, present once two bids arrived.
    pub second_highest_bid: Option<Euint128>,
    /// Encrypted submission time of the current leader.
    pub highest_timestamp: Euint128,
    /// Whether the final highest bid clears the reserve, set at close.
    pub reserve_met: Option<Ebool>,
    pub start_time: i64,
    pub end_time: i64,
    /// The plaintext reserve price, fixed at creation.
    pub reserve_price: u64,
    pub auction_id: u64,
    pub bid_count: u32,
    pub auction_status: AuctionStatus,
    pub auction_type: AuctionType,
    pub auction_bump: u8,
}

/// One bidder's sealed bid in one auction.
#[derive(Clone, Copy, Debug, PartialEq, Eq, Structural)]
pub struct Bid {
    pub bidder: Address,
    pub auction: Address,
    pub bid_amount: Euint128,
    /// Encrypted submission time.
    pub time_stamp: Euint128,
    /// Whether this bid won, once resolved.
    pub winner_handle: Option<Ebool>,
    /// Reserved for settlement; this library never sets it.
    pub claimed: bool,
    pub bid_bump: u8,
}

impl AuctionState {
    /// The state invariant: the timing window is ordered, the second-highest
    /// bid exists exactly once two bids arrived, and the reserve verdict
    /// exists exactly once the auction was closed.
    pub open spec fn wf(&self) -> bool {
        &&& self.start_time < self.end_time
        &&& (self.second_highest_bid is Some <==> self.bid_count >= 2)
        &&& (self.reserve_met is Some <==> (self.auction_status == AuctionStatus::Closed
            || self.auction_status == AuctionStatus::Settled))
    }

    /// A freshly created auction: open, with zeroed leader state.
    pub open spec fn is_fresh(&self) -> bool {
        &&& self.highest_bid == Euint128(ZERO_HANDLE)
        &&& self.second_highest_bid is None
        &&& self.highest_timestamp == Euint128(ZERO_HANDLE)
        &&& self.reserve_met is None
        &&& self.bid_count == 0
        &&& self.auction_status == AuctionStatus::Open
    }

    /// The handle that the second leader is compared against: the stored
    /// second-highest bid, or the encrypted zero while fewer than two bids
    /// arrived.
    pub open spec fn spec_prior_second(&self) -> u128 {
        match self.second_highest_bid {
            Some(s) => s.0,
            None => ZERO_HANDLE,
        }
    }

    /// The price the winner pays, for settlement: their own bid in a
    /// first-price auction, the second-highest bid in a second-price one
    /// (none while fewer than two bids arrived).
    pub open spec fn spec_clearing_price(&self, winner: Bid) -> Option<Euint128> {
        match self.auction_type {
            AuctionType::Normal => Some(winner.bid_amount),
            AuctionType::Vickrey => self.second_highest_bid,
        }
    }

    pub fn clearing_price(&self, winner: &Bid) -> (r: Option<Euint128>)
        ensures
            r == self.spec_clearing_price(*winner),
    {
        match self.auction_type {
            AuctionType::Normal => Some(winner.bid_amount),
            AuctionType::Vickrey => self.second_highest_bid,
        }
    }

    #[verifier::when_used_as_spec(spec_prior_second)]
    pub fn prior_second(&self) -> (r: u128)
        ensures
            r == self.spec_prior_second(),
    {
        match self.second_highest_bid {
            Some(s) => s.0,
            None => ZERO_HANDLE,
        }
    }
}

} // verus!
