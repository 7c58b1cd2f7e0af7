use vstd::prelude::*;
use crate::encrypted::{bool_value, faithful, op_value, Ebool, Euint128, ZERO_HANDLE};
use crate::error::AuctionError;
use crate::instructions::{CheckWinner, CloseAuction, PlaceBid};
use crate::order_stats::{spec_after_bid, spec_bid_ops, spec_reserve_ops, spec_winner_ops};
use crate::state::{AuctionState, Bid};

verus! {

/// The plaintexts behind a sequence of handles.
pub open spec fn plain_values(hs: Seq<Euint128>, dec: spec_fn(u128) -> int) -> Seq<int> {
    hs.map_values(|h: Euint128| dec(h.0))
}

/// `m` is the largest value of `s`, or 0 where `s` is empty.
pub open spec fn is_top(s: Seq<int>, m: int) -> bool {
    if s.len() == 0 {
        m == 0
    } else {
        &&& exists|i: int| 0 <= i < s.len() && s[i] == m
        &&& forall|i: int| 0 <= i < s.len() ==> s[i] <= m
    }
}

/// `m` is the second-largest value of `s`: the largest of what remains once
/// one occurrence of the largest is taken out.
pub open spec fn is_second(s: Seq<int>, m: int) -> bool {
    exists|i: int, j: int|
        0 <= i < s.len() && 0 <= j < s.len() && i != j && s[j] == m && m <= s[i]
            && forall|k: int| 0 <= k < s.len() && k != i ==> s[k] <= m
}

/// `t` is the time of the earliest submission among those that hold the
/// largest value of `s`; `times[i]` is when `s[i]` was submitted.
pub open spec fn is_leader_time(s: Seq<int>, times: Seq<int>, t: int) -> bool {
    exists|i: int|
        0 <= i < s.len() && times[i] == t && (forall|k: int| 0 <= k < s.len() ==> s[k] <= s[i])
            && (forall|k: int| 0 <= k < i ==> s[k] < s[i])
}

/// The leader state of `a` reflects the bids of plaintexts `vals`, submitted
/// at the plaintext times `times`.
pub open spec fn tracks(a: AuctionState, vals: Seq<int>, times: Seq<int>, dec: spec_fn(u128) -> int) -> bool {
    &&& a.bid_count == vals.len()
    &&& times.len() == vals.len()
    &&& (a.second_highest_bid is Some <==> vals.len() >= 2)
    &&& forall|i: int| 0 <= i < vals.len() ==> vals[i] >= 0
    &&& is_top(vals, dec(a.highest_bid.0))
    &&& vals.len() >= 2 ==> is_second(vals, dec(a.prior_second()))
    &&& dec(a.highest_bid.0) > 0 ==> is_leader_time(vals, times, dec(a.highest_timestamp.0))
}

proof fn lemma_top_push(vals: Seq<int>, h: int, x: int)
    requires
        is_top(vals, h),
        x >= 0,
    ensures
        is_top(vals.push(x), if x > h { x } else { h }),
{
    let s2 = vals.push(x);
    let n = vals.len() as int;
    assert(s2[n] == x);
    assert(forall|k: int| 0 <= k < n ==> s2[k] == vals[k]);
    if n > 0 {
        let ih = choose|i: int| 0 <= i < vals.len() && vals[i] == h;
        if x <= h {
            assert(s2[ih] == h);
        }
    }
}

proof fn lemma_second_push(vals: Seq<int>, h: int, p: int, x: int)
    requires
        vals.len() >= 1,
        is_top(vals, h),
        vals.len() >= 2 ==> is_second(vals, p),
        vals.len() == 1 ==> p == 0,
        x >= 0,
    ensures
        is_second(vals.push(x), if x > h { h } else if x > p { x } else { p }),
{
    let s2 = vals.push(x);
    let n = vals.len() as int;
    let m = if x > h { h } else if x > p { x } else { p };
    assert(s2[n] == x);
    assert(forall|k: int| 0 <= k < n ==> s2[k] == vals[k]);
    let ih = choose|i: int| 0 <= i < vals.len() && vals[i] == h;
    if x > h {
        assert(forall|k: int| 0 <= k < s2.len() && k != n ==> s2[k] <= m);
        assert(s2[ih] == m && m <= s2[n]);
    } else if n == 1 {
        assert(ih == 0);
        assert(m == x);
        assert(forall|k: int| 0 <= k < s2.len() && k != 0 ==> s2[k] <= m);
        assert(s2[1] == m && m <= s2[0]);
    } else {
        let (i, j) = choose|i: int, j: int|
            0 <= i < vals.len() && 0 <= j < vals.len() && i != j && vals[j] == p && p <= vals[i]
                && forall|k: int| 0 <= k < vals.len() && k != i ==> vals[k] <= p;
        assert(vals[i] == h) by {
            if ih != i {
                assert(vals[ih] <= p);
            }
        }
        assert(forall|k: int| 0 <= k < s2.len() && k != i ==> s2[k] <= m);
        if x > p {
            assert(s2[n] == m && m <= s2[i]);
        } else {
            assert(s2[j] == m && m <= s2[i]);
        }
    }
}

proof fn lemma_time_push(vals: Seq<int>, times: Seq<int>, h: int, told: int, x: int, t: int)
    requires
        is_top(vals, h),
        times.len() == vals.len(),
        h > 0 ==> is_leader_time(vals, times, told),
        forall|i: int| 0 <= i < vals.len() ==> vals[i] >= 0,
    ensures
        (if x > h { x } else { h }) > 0 ==> is_leader_time(
            vals.push(x),
            times.push(t),
            if x > h { t } else { told },
        ),
{
    let s2 = vals.push(x);
    let ts2 = times.push(t);
    let n = vals.len() as int;
    assert(s2[n] == x);
    assert(ts2[n] == t);
    assert(forall|k: int| 0 <= k < n ==> s2[k] == vals[k] && ts2[k] == times[k]);
    if x > h {
        if n > 0 {
            assert(forall|k: int| 0 <= k < n ==> s2[k] < s2[n]);
        }
    } else if h > 0 {
        let ih = choose|i: int| 0 <= i < vals.len() && vals[i] == h;
        let i = choose|i: int|
            0 <= i < vals.len() && times[i] == told && (forall|k: int|
                0 <= k < vals.len() ==> vals[k] <= vals[i]) && (forall|k: int|
                0 <= k < i ==> vals[k] < vals[i]);
        assert(vals[ih] <= vals[i]);
        assert(forall|k: int| 0 <= k < s2.len() ==> s2[k] <= s2[i]);
        assert(forall|k: int| 0 <= k < i ==> s2[k] < s2[i]);
    }
}

/// What the engine's answers to the bid circuit decrypt to.
proof fn lemma_bid_circuit(
    a: AuctionState,
    new_bid: Euint128,
    new_ts: Euint128,
    results: Seq<u128>,
    dec: spec_fn(u128) -> int,
)
    requires
        faithful(spec_bid_ops(a, new_bid, new_ts), results, dec),
    ensures
        ({
            let x = dec(new_bid.0);
            let h = dec(a.highest_bid.0);
            let p = dec(a.prior_second());
            &&& dec(results[1]) == if x > h { x } else { h }
            &&& dec(results[4]) == if x > h { h } else if x > p { x } else { p }
            &&& dec(results[5]) == if x > h { dec(new_ts.0) } else { dec(a.highest_timestamp.0) }
        }),
{
    let ops = spec_bid_ops(a, new_bid, new_ts);
    assert(dec(results[0]) == op_value(ops[0], results, dec));
    assert(dec(results[1]) == op_value(ops[1], results, dec));
    assert(dec(results[2]) == op_value(ops[2], results, dec));
    assert(dec(results[3]) == op_value(ops[3], results, dec));
    assert(dec(results[4]) == op_value(ops[4], results, dec));
    assert(dec(results[5]) == op_value(ops[5], results, dec));
}

/// One accepted bid keeps the leader state in step with the bids seen.
proof fn lemma_bid_step(
    a: AuctionState,
    new_bid: Euint128,
    new_ts: Euint128,
    results: Seq<u128>,
    dec: spec_fn(u128) -> int,
    vals: Seq<int>,
    times: Seq<int>,
)
    requires
        tracks(a, vals, times, dec),
        dec(ZERO_HANDLE) == 0,
        dec(new_bid.0) >= 0,
        a.bid_count < u32::MAX,
        faithful(spec_bid_ops(a, new_bid, new_ts), results, dec),
    ensures
        tracks(spec_after_bid(a, results), vals.push(dec(new_bid.0)), times.push(dec(new_ts.0)), dec),
{
    let x = dec(new_bid.0);
    let h = dec(a.highest_bid.0);
    let p = dec(a.prior_second());
    let b = spec_after_bid(a, results);
    lemma_bid_circuit(a, new_bid, new_ts, results, dec);
    lemma_top_push(vals, h, x);
    if vals.len() >= 1 {
        lemma_second_push(vals, h, p, x);
        assert(b.prior_second() == results[4]);
    }
    lemma_time_push(vals, times, h, dec(a.highest_timestamp.0), x, dec(new_ts.0));
    let s2 = vals.push(x);
    assert(forall|i: int| 0 <= i < s2.len() ==> s2[i] >= 0) by {
        assert(forall|i: int| 0 <= i < vals.len() ==> s2[i] == vals[i]);
    }
}

/// A run of `bids.len()` accepted bids: `states[0]` is a fresh auction, and
/// each `states[i + 1]` is what accepting `bids[i]`, submitted at `stamps[i]`,
/// committed, with `runs[i]` the engine's faithful answers to the circuit.
pub open spec fn accepted_run(
    states: Seq<AuctionState>,
    bids: Seq<Euint128>,
    stamps: Seq<Euint128>,
    runs: Seq<Seq<u128>>,
    dec: spec_fn(u128) -> int,
) -> bool {
    &&& states.len() == bids.len() + 1
    &&& stamps.len() == bids.len()
    &&& runs.len() == bids.len()
    &&& states[0].is_fresh()
    &&& forall|i: int| #![trigger runs[i]] 0 <= i < bids.len() ==> {
        &&& states[i].bid_count < u32::MAX
        &&& faithful(spec_bid_ops(states[i], bids[i], stamps[i]), runs[i], dec)
        &&& states[i + 1] == spec_after_bid(states[i], runs[i])
    }
}

proof fn lemma_run_tracks(
    states: Seq<AuctionState>,
    bids: Seq<Euint128>,
    stamps: Seq<Euint128>,
    runs: Seq<Seq<u128>>,
    dec: spec_fn(u128) -> int,
    k: int,
)
    requires
        accepted_run(states, bids, stamps, runs, dec),
        dec(ZERO_HANDLE) == 0,
        forall|i: int| 0 <= i < bids.len() ==> dec(#[trigger] bids[i].0) >= 0,
        0 <= k <= bids.len(),
    ensures
        tracks(states[k], plain_values(bids.take(k), dec), plain_values(stamps.take(k), dec), dec),
    decreases k,
{
    if k == 0 {
        assert(plain_values(bids.take(0), dec) =~= Seq::<int>::empty());
        assert(plain_values(stamps.take(0), dec) =~= Seq::<int>::empty());
    } else {
        lemma_run_tracks(states, bids, stamps, runs, dec, k - 1);
        assert(faithful(spec_bid_ops(states[k - 1], bids[k - 1], stamps[k - 1]), runs[k - 1], dec));
        lemma_bid_step(
            states[k - 1],
            bids[k - 1],
            stamps[k - 1],
            runs[k - 1],
            dec,
            plain_values(bids.take(k - 1), dec),
            plain_values(stamps.take(k - 1), dec),
        );
        assert(plain_values(bids.take(k), dec) =~= plain_values(bids.take(k - 1), dec).push(dec(bids[k - 1].0)));
        assert(plain_values(stamps.take(k), dec) =~= plain_values(stamps.take(k - 1), dec).push(dec(stamps[k - 1].0)));
    }
}

/// Over any run of accepted bids, after each bid: the highest bid decrypts
/// to the largest bid so far; the second-highest bid, once two bids arrived,
/// decrypts to the second-largest; and, once the largest bid is positive,
/// the leader's timestamp decrypts to the submission time of the earliest
/// bid that holds the largest value.
///
/// `dec` is any reading of handles as plaintexts under which the engine
/// answered faithfully and the zero handle is an encrypted zero.
pub proof fn lemma_leaders_follow_bids(
    states: Seq<AuctionState>,
    bids: Seq<Euint128>,
    stamps: Seq<Euint128>,
    runs: Seq<Seq<u128>>,
    dec: spec_fn(u128) -> int,
)
    requires
        accepted_run(states, bids, stamps, runs, dec),
        dec(ZERO_HANDLE) == 0,
        forall|i: int| 0 <= i < bids.len() ==> dec(#[trigger] bids[i].0) >= 0,
    ensures
        forall|k: int| 0 <= k <= bids.len() ==> {
            let vals = plain_values(bids.take(k), dec);
            &&& is_top(vals, dec(#[trigger] states[k].highest_bid.0))
            &&& (states[k].second_highest_bid is Some <==> k >= 2)
            &&& k >= 2 ==> is_second(vals, dec(states[k].second_highest_bid->Some_0.0))
            &&& dec(states[k].highest_bid.0) > 0 ==> is_leader_time(
                vals,
                plain_values(stamps.take(k), dec),
                dec(states[k].highest_timestamp.0),
            )
        },
{
    assert forall|k: int| 0 <= k <= bids.len() implies {
        let vals = plain_values(bids.take(k), dec);
        &&& is_top(vals, dec(#[trigger] states[k].highest_bid.0))
        &&& (states[k].second_highest_bid is Some <==> k >= 2)
        &&& k >= 2 ==> is_second(vals, dec(states[k].second_highest_bid->Some_0.0))
        &&& dec(states[k].highest_bid.0) > 0 ==> is_leader_time(
            vals,
            plain_values(stamps.take(k), dec),
            dec(states[k].highest_timestamp.0),
        )
    } by {
        lemma_run_tracks(states, bids, stamps, runs, dec, k);
    }
}

/// Once an auction was closed, closing it again is refused as not open,
/// whoever asks and whenever, and so is any bid: nothing can change the
/// leader state or the reserve verdict again.
pub proof fn lemma_close_at_most_once(
    closer: CloseAuction,
    a: AuctionState,
    now: i64,
    results: Seq<u128>,
    again: CloseAuction,
    later: i64,
    bidder: PlaceBid,
    bid_time: i64,
    payload_len: nat,
)
    requires
        closer.spec_validate(a, now) is Ok,
    ensures
        ({
            let closed = CloseAuction::spec_closed(a, results[1]);
            &&& closed.reserve_met == Some(Ebool(results[1]))
            &&& again.spec_validate(closed, later) == Err::<(), AuctionError>(AuctionError::AuctionNotOpen)
            &&& bidder.spec_validate(closed, bid_time, payload_len) == Err::<(), AuctionError>(AuctionError::AuctionNotOpen)
        }),
{
}

/// What the engine's answer to the winner circuit decrypts to: 1 exactly
/// when the bid equals the highest, was sent at the leader's time, and the
/// reserve verdict is true.
proof fn lemma_winner_circuit(a: AuctionState, b: Bid, reserve_met: Ebool, results: Seq<u128>, dec: spec_fn(u128) -> int)
    requires
        faithful(spec_winner_ops(a, b, reserve_met), results, dec),
    ensures
        dec(results[3]) == bool_value(
            dec(b.bid_amount.0) == dec(a.highest_bid.0) && dec(b.time_stamp.0) == dec(a.highest_timestamp.0)
                && dec(reserve_met.0) != 0,
        ),
{
    let ops = spec_winner_ops(a, b, reserve_met);
    assert(dec(results[0]) == op_value(ops[0], results, dec));
    assert(dec(results[1]) == op_value(ops[1], results, dec));
    assert(dec(results[2]) == op_value(ops[2], results, dec));
    assert(dec(results[3]) == op_value(ops[3], results, dec));
}

/// Checking the same bid twice on unchanged state asks the engine for the
/// same circuit, is accepted again, and gives a winner handle that decrypts
/// the same way.
pub proof fn lemma_check_winner_repeatable(
    checker: CheckWinner,
    a: AuctionState,
    b: Bid,
    first: Seq<u128>,
    second: Seq<u128>,
    dec: spec_fn(u128) -> int,
)
    requires
        checker.spec_validate(a, b) is Ok,
        faithful(spec_winner_ops(a, b, a.reserve_met->Some_0), first, dec),
        faithful(
            spec_winner_ops(a, Bid { winner_handle: Some(Ebool(first[3])), ..b }, a.reserve_met->Some_0),
            second,
            dec,
        ),
    ensures
        ({
            let b1 = Bid { winner_handle: Some(Ebool(first[3])), ..b };
            &&& checker.spec_validate(a, b1) is Ok
            &&& spec_winner_ops(a, b1, a.reserve_met->Some_0) == spec_winner_ops(a, b, a.reserve_met->Some_0)
            &&& dec(second[3]) == dec(first[3])
        }),
{
    let b1 = Bid { winner_handle: Some(Ebool(first[3])), ..b };
    lemma_winner_circuit(a, b, a.reserve_met->Some_0, first, dec);
    lemma_winner_circuit(a, b1, a.reserve_met->Some_0, second, dec);
}

/// The records of a run's bidders resolved on the closed auction: each
/// record holds its bid and time, and `winner_runs[i]` holds the engine's
/// faithful answers to the winner circuit of `records[i]`.
pub open spec fn resolved(
    closed: AuctionState,
    bids: Seq<Euint128>,
    stamps: Seq<Euint128>,
    records: Seq<Bid>,
    winner_runs: Seq<Seq<u128>>,
    dec: spec_fn(u128) -> int,
) -> bool {
    &&& closed.reserve_met is Some
    &&& records.len() == bids.len()
    &&& winner_runs.len() == bids.len()
    &&& forall|i: int| #![trigger records[i]] 0 <= i < bids.len() ==> {
        &&& records[i].bid_amount == bids[i]
        &&& records[i].time_stamp == stamps[i]
        &&& faithful(spec_winner_ops(closed, records[i], closed.reserve_met->Some_0), winner_runs[i], dec)
    }
}

/// Where the reserve was met, the bid amounts are pairwise distinct and
/// some bid is positive, exactly one bidder's winner handle decrypts true.
pub proof fn lemma_unique_winner(
    states: Seq<AuctionState>,
    bids: Seq<Euint128>,
    stamps: Seq<Euint128>,
    runs: Seq<Seq<u128>>,
    dec: spec_fn(u128) -> int,
    close_results: Seq<u128>,
    records: Seq<Bid>,
    winner_runs: Seq<Seq<u128>>,
)
    requires
        accepted_run(states, bids, stamps, runs, dec),
        dec(ZERO_HANDLE) == 0,
        forall|i: int| 0 <= i < bids.len() ==> dec(#[trigger] bids[i].0) >= 0,
        faithful(spec_reserve_ops(states.last()), close_results, dec),
        resolved(CloseAuction::spec_closed(states.last(), close_results[1]), bids, stamps, records, winner_runs, dec),
        dec(close_results[1]) != 0,
        forall|i: int, j: int|
            0 <= i < bids.len() && 0 <= j < bids.len() && i != j ==> dec(#[trigger] bids[i].0) != dec(#[trigger] bids[j].0),
        exists|i: int| 0 <= i < bids.len() && dec(#[trigger] bids[i].0) > 0,
    ensures
        exists|i: int|
            0 <= i < bids.len() && dec(#[trigger] winner_runs[i][3]) != 0 && forall|j: int|
                0 <= j < bids.len() && j != i ==> dec(#[trigger] winner_runs[j][3]) == 0,
{
    let n = bids.len() as int;
    let last = states.last();
    let closed = CloseAuction::spec_closed(last, close_results[1]);
    lemma_leaders_follow_bids(states, bids, stamps, runs, dec);
    assert(bids.take(n) =~= bids);
    assert(stamps.take(n) =~= stamps);
    let vals = plain_values(bids, dec);
    let times = plain_values(stamps, dec);
    assert(states[n] == last);
    let m = dec(last.highest_bid.0);
    assert(is_top(vals, m));
    let ip = choose|i: int| 0 <= i < bids.len() && dec(#[trigger] bids[i].0) > 0;
    assert(vals[ip] > 0);
    assert(m > 0);
    let w = choose|i: int|
        0 <= i < vals.len() && times[i] == dec(last.highest_timestamp.0) && (forall|k: int|
            0 <= k < vals.len() ==> vals[k] <= vals[i]) && (forall|k: int| 0 <= k < i ==> vals[k] < vals[i]);
    let iw = choose|i: int| 0 <= i < vals.len() && vals[i] == m;
    assert(vals[iw] <= vals[w]);
    assert(vals[w] == m);
    assert(dec(bids[w].0) == m);
    assert(records[w].bid_amount == bids[w]);
    lemma_winner_circuit(closed, records[w], closed.reserve_met->Some_0, winner_runs[w], dec);
    assert(dec(winner_runs[w][3]) != 0);
    assert forall|j: int| 0 <= j < bids.len() && j != w implies dec(#[trigger] winner_runs[j][3]) == 0 by {
        assert(records[j].bid_amount == bids[j]);
        assert(vals[j] == dec(bids[j].0));
        assert(dec(bids[j].0) != dec(bids[w].0));
        lemma_winner_circuit(closed, records[j], closed.reserve_met->Some_0, winner_runs[j], dec);
    }
}

/// Where every bid is below the reserve, no bidder's winner handle decrypts
/// true.
pub proof fn lemma_no_winner_below_reserve(
    states: Seq<AuctionState>,
    bids: Seq<Euint128>,
    stamps: Seq<Euint128>,
    runs: Seq<Seq<u128>>,
    dec: spec_fn(u128) -> int,
    close_results: Seq<u128>,
    records: Seq<Bid>,
    winner_runs: Seq<Seq<u128>>,
)
    requires
        accepted_run(states, bids, stamps, runs, dec),
        dec(ZERO_HANDLE) == 0,
        forall|i: int| 0 <= i < bids.len() ==> dec(#[trigger] bids[i].0) >= 0,
        faithful(spec_reserve_ops(states.last()), close_results, dec),
        resolved(CloseAuction::spec_closed(states.last(), close_results[1]), bids, stamps, records, winner_runs, dec),
        forall|i: int| 0 <= i < bids.len() ==> dec(#[trigger] bids[i].0) < states.last().reserve_price,
    ensures
        forall|i: int| 0 <= i < bids.len() ==> dec(#[trigger] winner_runs[i][3]) == 0,
{
    let n = bids.len() as int;
    let last = states.last();
    let closed = CloseAuction::spec_closed(last, close_results[1]);
    lemma_leaders_follow_bids(states, bids, stamps, runs, dec);
    assert(bids.take(n) =~= bids);
    assert(states[n] == last);
    let vals = plain_values(bids, dec);
    let m = dec(last.highest_bid.0);
    assert(is_top(vals, m));
    if n > 0 {
        let iw = choose|i: int| 0 <= i < vals.len() && vals[i] == m;
        assert(dec(bids[iw].0) == m);
        let ops = spec_reserve_ops(last);
        assert(dec(close_results[0]) == op_value(ops[0], close_results, dec));
        assert(dec(close_results[1]) == op_value(ops[1], close_results, dec));
        assert(dec(close_results[1]) == 0);
        assert forall|i: int| 0 <= i < bids.len() implies dec(#[trigger] winner_runs[i][3]) == 0 by {
            assert(records[i].bid_amount == bids[i]);
            lemma_winner_circuit(closed, records[i], closed.reserve_met->Some_0, winner_runs[i], dec);
        }
    }
}

} // verus!
