use vstd::prelude::*;
use crate::encrypted::{Ebool, Euint128, Op, Operand};
use crate::state::{AuctionState, Bid};

verus! {

/// The circuit that folds a new bid into the leader state. Its operations
/// depend on handles alone, never on what they decrypt to:
/// - step 0: is the new bid above the highest?
/// - step 1: the new highest;
/// - step 2: is the new bid above the prior second?
/// - step 3: the larger of the new bid and the prior second;
/// - step 4: the new second: the old highest if it was displaced, else step 3;
/// - step 5: the leader's timestamp.
pub open spec fn spec_bid_ops(a: AuctionState, new_bid: Euint128, new_ts: Euint128) -> Seq<Op> {
    seq![
        Op::Gt(Operand::Handle(new_bid.0), Operand::Handle(a.highest_bid.0)),
        Op::Select(Operand::Step(0), Operand::Handle(new_bid.0), Operand::Handle(a.highest_bid.0)),
        Op::Gt(Operand::Handle(new_bid.0), Operand::Handle(a.prior_second())),
        Op::Select(Operand::Step(2), Operand::Handle(new_bid.0), Operand::Handle(a.prior_second())),
        Op::Select(Operand::Step(0), Operand::Handle(a.highest_bid.0), Operand::Step(3)),
        Op::Select(Operand::Step(0), Operand::Handle(new_ts.0), Operand::Handle(a.highest_timestamp.0)),
    ]
}

/// The leader state once the bid circuit answered with `results`.
pub open spec fn spec_after_bid(a: AuctionState, results: Seq<u128>) -> AuctionState {
    AuctionState {
        highest_bid: Euint128(results[1]),
        second_highest_bid: if a.bid_count >= 1 { Some(Euint128(results[4])) } else { None },
        highest_timestamp: Euint128(results[5]),
        bid_count: (a.bid_count + 1) as u32,
        ..a
    }
}

pub fn bid_ops(a: &AuctionState, new_bid: Euint128, new_ts: Euint128) -> (r: Vec<Op>)
    ensures
        r@ == spec_bid_ops(*a, new_bid, new_ts),
{
    let h = a.highest_bid.0;
    let s = a.prior_second();
    let r = vec![
        Op::Gt(Operand::Handle(new_bid.0), Operand::Handle(h)),
        Op::Select(Operand::Step(0), Operand::Handle(new_bid.0), Operand::Handle(h)),
        Op::Gt(Operand::Handle(new_bid.0), Operand::Handle(s)),
        Op::Select(Operand::Step(2), Operand::Handle(new_bid.0), Operand::Handle(s)),
        Op::Select(Operand::Step(0), Operand::Handle(h), Operand::Step(3)),
        Op::Select(Operand::Step(0), Operand::Handle(new_ts.0), Operand::Handle(a.highest_timestamp.0)),
    ];
    assert(r@ =~= spec_bid_ops(*a, new_bid, new_ts));
    r
}

/// Commits the bid circuit's answers to the leader state and counts the bid.
pub fn commit_bid(a: &mut AuctionState, results: &Vec<u128>)
    requires
        results@.len() == 6,
        old(a).bid_count < u32::MAX,
    ensures
        *final(a) == spec_after_bid(*old(a), results@),
{
    let had_one = a.bid_count >= 1;
    a.highest_bid = Euint128(results[1]);
    a.second_highest_bid = if had_one { Some(Euint128(results[4])) } else { None };
    a.highest_timestamp = Euint128(results[5]);
    a.bid_count = a.bid_count + 1;
}

/// The circuit that evaluates the reserve at close: encrypt the reserve
/// price, then compare the highest bid against it.
pub open spec fn spec_reserve_ops(a: AuctionState) -> Seq<Op> {
    seq![
        Op::Encrypt(a.reserve_price as u128),
        Op::Ge(Operand::Handle(a.highest_bid.0), Operand::Step(0)),
    ]
}

pub fn reserve_ops(a: &AuctionState) -> (r: Vec<Op>)
    ensures
        r@ == spec_reserve_ops(*a),
{
    let r = vec![
        Op::Encrypt(a.reserve_price as u128),
        Op::Ge(Operand::Handle(a.highest_bid.0), Operand::Step(0)),
    ];
    assert(r@ =~= spec_reserve_ops(*a));
    r
}

/// The circuit that resolves one bidder: is the bid equal to the highest,
/// was it submitted at the leader's time, and does the highest clear the
/// reserve.
pub open spec fn spec_winner_ops(a: AuctionState, b: Bid, reserve_met: Ebool) -> Seq<Op> {
    seq![
        Op::Eq(Operand::Handle(b.bid_amount.0), Operand::Handle(a.highest_bid.0)),
        Op::Eq(Operand::Handle(b.time_stamp.0), Operand::Handle(a.highest_timestamp.0)),
        Op::And(Operand::Step(0), Operand::Step(1)),
        Op::And(Operand::Step(2), Operand::Handle(reserve_met.0)),
    ]
}

pub fn winner_ops(a: &AuctionState, b: &Bid, reserve_met: Ebool) -> (r: Vec<Op>)
    ensures
        r@ == spec_winner_ops(*a, *b, reserve_met),
{
    let r = vec![
        Op::Eq(Operand::Handle(b.bid_amount.0), Operand::Handle(a.highest_bid.0)),
        Op::Eq(Operand::Handle(b.time_stamp.0), Operand::Handle(a.highest_timestamp.0)),
        Op::And(Operand::Step(0), Operand::Step(1)),
        Op::And(Operand::Step(2), Operand::Handle(reserve_met.0)),
    ];
    assert(r@ =~= spec_winner_ops(*a, *b, reserve_met));
    r
}

} // verus!
