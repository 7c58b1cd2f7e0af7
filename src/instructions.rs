use vstd::prelude::*;
use crate::encrypted::{Ebool, Euint128, Op, ZERO_HANDLE};
use crate::error::AuctionError;
use crate::events::{AuctionClosed, AuctionCreated};
use crate::order_stats::{
    bid_ops, commit_bid, reserve_ops, spec_after_bid, spec_bid_ops, spec_reserve_ops,
    spec_winner_ops, winner_ops,
};
use crate::state::{Address, AuctionState, AuctionStatus, AuctionType, Bid};

verus! {

/// What the accounts of a create instruction contribute.
#[derive(Clone, Copy, Debug, PartialEq, Eq, Structural)]
pub struct CreateAuction {
    pub organizer: Address,
    /// Mint of the asset put up for auction.
    pub mint: Address,
    pub mint_decimals: u8,
    /// Escrow that will hold the asset.
    pub vault: Address,
    /// Mint of the confidential token that bids are paid in.
    pub bid_token_mint: Address,
    /// Program that owns `bid_token_mint`.
    pub bid_token_mint_owner: Address,
    /// The recognized confidential token program.
    pub confidential_token_program: Address,
    pub bid_vault: Address,
    /// The organizer's balance of the auctioned asset.
    pub organizer_balance: u64,
}

/// What the accounts of a bid instruction contribute.
///
/// Each bidder bids at most once per auction: the bid record's address is
/// derived from the auction and the bidder, so a second record for the same
/// pair cannot be allocated.
#[derive(Clone, Copy, Debug, PartialEq, Eq, Structural)]
pub struct PlaceBid {
    pub bidder: Address,
    /// Address of the auction record.
    pub auction_key: Address,
    pub bid_mint: Address,
    /// Program that owns `bid_mint`.
    pub bid_mint_owner: Address,
    /// The recognized confidential token program.
    pub confidential_token_program: Address,
    pub bid_vault: Address,
    pub bid_bump: u8,
}

/// What the accounts of a close instruction contribute.
#[derive(Clone, Copy, Debug, PartialEq, Eq, Structural)]
pub struct CloseAuction {
    /// The signer asking to close.
    pub organizer: Address,
}

/// What the accounts of a winner check contribute.
#[derive(Clone, Copy, Debug, PartialEq, Eq, Structural)]
pub struct CheckWinner {
    /// The signer asking for the check.
    pub bidder: Address,
}

/// A standing permission for `grantee` to decrypt `handle`.
#[derive(Clone, Copy, Debug, PartialEq, Eq, Structural)]
pub struct DecryptGrant {
    pub handle: u128,
    pub grantee: Address,
}

impl CreateAuction {
    pub open spec fn spec_validate(&self, now: i64, start_time: i64, end_time: i64, token_amount: u64) -> Result<(), AuctionError> {
        if self.bid_token_mint_owner != self.confidential_token_program {
            Err(AuctionError::InvalidBidMint)
        } else if start_time <= now {
            Err(AuctionError::InvalidStartTime)
        } else if end_time <= start_time {
            Err(AuctionError::InvalidEndTime)
        } else if token_amount == 0 {
            Err(AuctionError::InvalidTokenAmount)
        } else if self.organizer_balance < token_amount {
            Err(AuctionError::InsufficientBalance)
        } else {
            Ok(())
        }
    }

    pub open spec fn spec_new_auction(
        &self,
        auction_id: u64,
        start_time: i64,
        end_time: i64,
        reserve_price: u64,
        auction_type: AuctionType,
        bump: u8,
    ) -> AuctionState {
        AuctionState {
            organizer: self.organizer,
            mint: self.mint,
            vault: self.vault,
            bid_token_mint: self.bid_token_mint,
            bid_vault: self.bid_vault,
            highest_bid: Euint128(ZERO_HANDLE),
            second_highest_bid: None,
            highest_timestamp: Euint128(ZERO_HANDLE),
            reserve_met: None,
            start_time,
            end_time,
            reserve_price,
            auction_id,
            bid_count: 0,
            auction_status: AuctionStatus::Open,
            auction_type,
            auction_bump: bump,
        }
    }

    /// Checks a create request, before any asset moves.
    pub fn validate(&self, now: i64, start_time: i64, end_time: i64, token_amount: u64) -> (r: Result<(), AuctionError>)
        ensures
            r == self.spec_validate(now, start_time, end_time, token_amount),
    {
        if self.bid_token_mint_owner != self.confidential_token_program {
            Err(AuctionError::InvalidBidMint)
        } else if start_time <= now {
            Err(AuctionError::InvalidStartTime)
        } else if end_time <= start_time {
            Err(AuctionError::InvalidEndTime)
        } else if token_amount == 0 {
            Err(AuctionError::InvalidTokenAmount)
        } else if self.organizer_balance < token_amount {
            Err(AuctionError::InsufficientBalance)
        } else {
            Ok(())
        }
    }

    /// Creates an open auction with zeroed leader state, and the notice
    /// that announces it.
    pub fn handler(
        &self,
        now: i64,
        auction_id: u64,
        start_time: i64,
        end_time: i64,
        reserve_price: u64,
        auction_type: AuctionType,
        token_amount: u64,
        bump: u8,
    ) -> (r: Result<(AuctionState, AuctionCreated), AuctionError>)
        ensures
            match r {
                Ok((s, ev)) => {
                    &&& self.spec_validate(now, start_time, end_time, token_amount) is Ok
                    &&& s == self.spec_new_auction(auction_id, start_time, end_time, reserve_price, auction_type, bump)
                    &&& s.wf()
                    &&& s.is_fresh()
                    &&& ev == (AuctionCreated {
                        auction_id,
                        organizer: self.organizer,
                        mint: self.mint,
                        amount: token_amount,
                        decimals: self.mint_decimals,
                        start_time,
                        end_time,
                        reserve_price,
                        auction_type,
                        bid_token_mint: self.bid_token_mint,
                    })
                },
                Err(e) => self.spec_validate(now, start_time, end_time, token_amount) == Err::<(), AuctionError>(e),
            },
    {
        match self.validate(now, start_time, end_time, token_amount) {
            Err(e) => Err(e),
            Ok(()) => {
                let s = AuctionState {
                    organizer: self.organizer,
                    mint: self.mint,
                    vault: self.vault,
                    bid_token_mint: self.bid_token_mint,
                    bid_vault: self.bid_vault,
                    highest_bid: Euint128(ZERO_HANDLE),
                    second_highest_bid: None,
                    highest_timestamp: Euint128(ZERO_HANDLE),
                    reserve_met: None,
                    start_time,
                    end_time,
                    reserve_price,
                    auction_id,
                    bid_count: 0,
                    auction_status: AuctionStatus::Open,
                    auction_type,
                    auction_bump: bump,
                };
                let ev = AuctionCreated {
                    auction_id,
                    organizer: self.organizer,
                    mint: self.mint,
                    amount: token_amount,
                    decimals: self.mint_decimals,
                    start_time,
                    end_time,
                    reserve_price,
                    auction_type,
                    bid_token_mint: self.bid_token_mint,
                };
                Ok((s, ev))
            },
        }
    }
}

impl PlaceBid {
    pub open spec fn spec_validate(&self, a: AuctionState, now: i64, payload_len: nat) -> Result<(), AuctionError> {
        if a.auction_status != AuctionStatus::Open {
            Err(AuctionError::AuctionNotOpen)
        } else if now < a.start_time {
            Err(AuctionError::AuctionNotStarted)
        } else if now >= a.end_time {
            Err(AuctionError::AuctionEnded)
        } else if self.bid_mint != a.bid_token_mint || self.bid_mint_owner != self.confidential_token_program {
            Err(AuctionError::InvalidBidMint)
        } else if self.bid_vault != a.bid_vault {
            Err(AuctionError::InvalidBidVault)
        } else if payload_len == 0 {
            Err(AuctionError::InvalidBidAmount)
        } else if a.bid_count == u32::MAX {
            Err(AuctionError::MathOverflow)
        } else {
            Ok(())
        }
    }

    /// The bid record of this bidder.
    pub open spec fn spec_bid(&self, new_bid: Euint128, new_ts: Euint128) -> Bid {
        Bid {
            bidder: self.bidder,
            auction: self.auction_key,
            bid_amount: new_bid,
            time_stamp: new_ts,
            winner_handle: None,
            claimed: false,
            bid_bump: self.bid_bump,
        }
    }

    /// Checks a bid against the auction before anything is encrypted or
    /// any funds move.
    pub fn validate(&self, a: &AuctionState, now: i64, payload: &Vec<u8>) -> (r: Result<(), AuctionError>)
        ensures
            r == self.spec_validate(*a, now, payload@.len()),
    {
        if a.auction_status != AuctionStatus::Open {
            Err(AuctionError::AuctionNotOpen)
        } else if now < a.start_time {
            Err(AuctionError::AuctionNotStarted)
        } else if now >= a.end_time {
            Err(AuctionError::AuctionEnded)
        } else if self.bid_mint != a.bid_token_mint || self.bid_mint_owner != self.confidential_token_program {
            Err(AuctionError::InvalidBidMint)
        } else if self.bid_vault != a.bid_vault {
            Err(AuctionError::InvalidBidVault)
        } else if payload.len() == 0 {
            Err(AuctionError::InvalidBidAmount)
        } else if a.bid_count == u32::MAX {
            Err(AuctionError::MathOverflow)
        } else {
            Ok(())
        }
    }

    /// The engine operations that fold the encrypted bid `new_bid`, sent at
    /// the encrypted time `new_ts`, into the auction's leader state.
    pub fn leader_ops(&self, a: &AuctionState, new_bid: Euint128, new_ts: Euint128) -> (r: Vec<Op>)
        ensures
            r@ == spec_bid_ops(*a, new_bid, new_ts),
    {
        bid_ops(a, new_bid, new_ts)
    }

    /// Accepts a bid: where it passes `validate`, commits the answers of the
    /// engine to `leader_ops` and returns the bidder's record; otherwise the
    /// auction is left as it was.
    pub fn handler(
        &self,
        a: &mut AuctionState,
        now: i64,
        payload: &Vec<u8>,
        new_bid: Euint128,
        new_ts: Euint128,
        results: &Vec<u128>,
    ) -> (r: Result<Bid, AuctionError>)
        requires
            results@.len() == spec_bid_ops(*old(a), new_bid, new_ts).len(),
        ensures
            match r {
                Ok(b) => {
                    &&& self.spec_validate(*old(a), now, payload@.len()) is Ok
                    &&& *final(a) == spec_after_bid(*old(a), results@)
                    &&& b == self.spec_bid(new_bid, new_ts)
                },
                Err(e) => {
                    &&& self.spec_validate(*old(a), now, payload@.len()) == Err::<(), AuctionError>(e)
                    &&& *final(a) == *old(a)
                },
            },
            old(a).wf() ==> final(a).wf(),
    {
        match self.validate(a, now, payload) {
            Err(e) => Err(e),
            Ok(()) => {
                commit_bid(a, results);
                Ok(Bid {
                    bidder: self.bidder,
                    auction: self.auction_key,
                    bid_amount: new_bid,
                    time_stamp: new_ts,
                    winner_handle: None,
                    claimed: false,
                    bid_bump: self.bid_bump,
                })
            },
        }
    }
}

impl CloseAuction {
    pub open spec fn spec_validate(&self, a: AuctionState, now: i64) -> Result<(), AuctionError> {
        if a.auction_status != AuctionStatus::Open {
            Err(AuctionError::AuctionNotOpen)
        } else if now < a.end_time {
            Err(AuctionError::AuctionNotEnded)
        } else if self.organizer != a.organizer {
            Err(AuctionError::Unauthorized)
        } else {
            Ok(())
        }
    }

    /// The auction once closed with the reserve verdict `reserve_met`.
    pub open spec fn spec_closed(a: AuctionState, reserve_met: u128) -> AuctionState {
        AuctionState { reserve_met: Some(Ebool(reserve_met)), auction_status: AuctionStatus::Closed, ..a }
    }

    pub fn validate(&self, a: &AuctionState, now: i64) -> (r: Result<(), AuctionError>)
        ensures
            r == self.spec_validate(*a, now),
    {
        if a.auction_status != AuctionStatus::Open {
            Err(AuctionError::AuctionNotOpen)
        } else if now < a.end_time {
            Err(AuctionError::AuctionNotEnded)
        } else if self.organizer != a.organizer {
            Err(AuctionError::Unauthorized)
        } else {
            Ok(())
        }
    }

    /// The engine operations that evaluate the reserve against the final
    /// highest bid.
    pub fn reserve_ops(&self, a: &AuctionState) -> (r: Vec<Op>)
        ensures
            r@ == spec_reserve_ops(*a),
    {
        reserve_ops(a)
    }

    /// Closes the auction: where it passes `validate`, stores the engine's
    /// answer to `reserve_ops` as the reserve verdict and moves to `Closed`;
    /// otherwise the auction is left as it was.
    pub fn handler(&self, a: &mut AuctionState, now: i64, results: &Vec<u128>) -> (r: Result<AuctionClosed, AuctionError>)
        requires
            results@.len() == spec_reserve_ops(*old(a)).len(),
        ensures
            match r {
                Ok(ev) => {
                    &&& self.spec_validate(*old(a), now) is Ok
                    &&& *final(a) == Self::spec_closed(*old(a), results@[1])
                    &&& ev == (AuctionClosed { auction_id: old(a).auction_id, organizer: self.organizer, timestamp: now })
                },
                Err(e) => {
                    &&& self.spec_validate(*old(a), now) == Err::<(), AuctionError>(e)
                    &&& *final(a) == *old(a)
                },
            },
            old(a).wf() ==> final(a).wf(),
    {
        match self.validate(a, now) {
            Err(e) => Err(e),
            Ok(()) => {
                a.reserve_met = Some(Ebool(results[1]));
                a.auction_status = AuctionStatus::Closed;
                Ok(AuctionClosed { auction_id: a.auction_id, organizer: self.organizer, timestamp: now })
            },
        }
    }
}

impl CheckWinner {
    pub open spec fn spec_validate(&self, a: AuctionState, b: Bid) -> Result<(), AuctionError> {
        if a.auction_status != AuctionStatus::Closed || a.reserve_met is None {
            Err(AuctionError::AuctionNotClosed)
        } else if self.bidder != b.bidder {
            Err(AuctionError::Unauthorized)
        } else {
            Ok(())
        }
    }

    pub fn validate(&self, a: &AuctionState, b: &Bid) -> (r: Result<(), AuctionError>)
        ensures
            r == self.spec_validate(*a, *b),
    {
        if a.auction_status != AuctionStatus::Closed || a.reserve_met.is_none() {
            Err(AuctionError::AuctionNotClosed)
        } else if self.bidder != b.bidder {
            Err(AuctionError::Unauthorized)
        } else {
            Ok(())
        }
    }

    /// The engine operations that decide whether bid `b` won: where the
    /// check passes `validate`, the winner circuit over the frozen leader
    /// state; otherwise the refusal.
    pub fn winner_ops(&self, a: &AuctionState, b: &Bid) -> (r: Result<Vec<Op>, AuctionError>)
        ensures
            match r {
                Ok(ops) => self.spec_validate(*a, *b) is Ok && ops@ == spec_winner_ops(*a, *b, a.reserve_met->Some_0),
                Err(e) => self.spec_validate(*a, *b) == Err::<(), AuctionError>(e),
            },
    {
        match self.validate(a, b) {
            Err(e) => Err(e),
            Ok(()) => match a.reserve_met {
                Some(reserve) => Ok(winner_ops(a, b, reserve)),
                None => Err(AuctionError::AuctionNotClosed),
            },
        }
    }

    /// Records the engine's answer to `winner_ops` on the bid as its winner
    /// handle. Where `reveal` asks for it, the bidder is to be granted the
    /// right to decrypt that handle. The auction is only read.
    pub fn handler(&self, a: &AuctionState, b: &mut Bid, results: &Vec<u128>, reveal: bool) -> (r: Result<Option<DecryptGrant>, AuctionError>)
        requires
            results@.len() == 4,
        ensures
            match r {
                Ok(g) => {
                    &&& self.spec_validate(*a, *old(b)) is Ok
                    &&& *final(b) == (Bid { winner_handle: Some(Ebool(results@[3])), ..*old(b) })
                    &&& g == (if reveal {
                        Some(DecryptGrant { handle: results@[3], grantee: old(b).bidder })
                    } else {
                        None
                    })
                },
                Err(e) => {
                    &&& self.spec_validate(*a, *old(b)) == Err::<(), AuctionError>(e)
                    &&& *final(b) == *old(b)
                },
            },
    {
        match self.validate(a, b) {
            Err(e) => Err(e),
            Ok(()) => {
                let w = results[3];
                b.winner_handle = Some(Ebool(w));
                if reveal {
                    Ok(Some(DecryptGrant { handle: w, grantee: b.bidder }))
                } else {
                    Ok(None)
                }
            },
        }
    }
}

} // verus!
