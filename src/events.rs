use vstd::prelude::*;
use crate::state::{Address, AuctionType};

verus! {

/// Announced once an auction was created.
#[derive(Clone, Copy, Debug, PartialEq, Eq, Structural)]
pub struct AuctionCreated {
    pub auction_id: u64,
    pub organizer: Address,
    pub mint: Address,
    pub amount: u64,
    pub decimals: u8,
    pub start_time: i64,
    pub end_time: i64,
    pub reserve_price: u64,
    pub auction_type: AuctionType,
    pub bid_token_mint: Address,
}

/// Announced once an auction was closed.
#[derive(Clone, Copy, Debug, PartialEq, Eq, Structural)]
pub struct AuctionClosed {
    pub auction_id: u64,
    pub organizer: Address,
    pub timestamp: i64,
}

} // verus!
