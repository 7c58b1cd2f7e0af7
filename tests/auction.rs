use confidential_bid::{
    Address, AuctionError, AuctionState, AuctionStatus, AuctionType, Bid, CheckWinner, CloseAuction,
    CreateAuction, DecryptGrant, Euint128, Op, Operand, PlaceBid, ZERO_HANDLE,
};

/// A plaintext stand-in for the confidential compute engine: each handle it
/// hands out indexes its store, and the zero handle reads as zero.
struct Engine {
    store: Vec<u128>,
}

impl Engine {
    fn new() -> Engine {
        Engine { store: Vec::new() }
    }

    fn value(&self, h: u128) -> u128 {
        if h == ZERO_HANDLE {
            0
        } else {
            self.store[(h - 1000) as usize]
        }
    }

    fn fresh(&mut self, v: u128) -> u128 {
        self.store.push(v);
        999 + self.store.len() as u128
    }

    fn run(&mut self, ops: &[Op]) -> Vec<u128> {
        let mut results: Vec<u128> = Vec::new();
        for op in ops {
            let val = |o: &Operand, results: &Vec<u128>, e: &Engine| match o {
                Operand::Handle(h) => e.value(*h),
                Operand::Step(i) => e.value(results[*i]),
            };
            let v = match op {
                Op::Encrypt(p) => *p,
                Op::Gt(a, b) => (val(a, &results, self) > val(b, &results, self)) as u128,
                Op::Ge(a, b) => (val(a, &results, self) >= val(b, &results, self)) as u128,
                Op::Eq(a, b) => (val(a, &results, self) == val(b, &results, self)) as u128,
                Op::Select(c, a, b) => {
                    if val(c, &results, self) != 0 {
                        val(a, &results, self)
                    } else {
                        val(b, &results, self)
                    }
                }
                Op::And(a, b) => (val(a, &results, self) != 0 && val(b, &results, self) != 0) as u128,
            };
            let h = self.fresh(v);
            results.push(h);
        }
        results
    }
}

fn addr(n: u128) -> Address {
    Address { hi: 0, lo: n }
}

const ORGANIZER: u128 = 1;
const TOKEN_PROGRAM: u128 = 2;
const BID_MINT: u128 = 3;
const BID_VAULT: u128 = 4;
const START: i64 = 1_000;
const END: i64 = 2_000;

fn creator(balance: u64) -> CreateAuction {
    CreateAuction {
        organizer: addr(ORGANIZER),
        mint: addr(10),
        mint_decimals: 0,
        vault: addr(11),
        bid_token_mint: addr(BID_MINT),
        bid_token_mint_owner: addr(TOKEN_PROGRAM),
        confidential_token_program: addr(TOKEN_PROGRAM),
        bid_vault: addr(BID_VAULT),
        organizer_balance: balance,
    }
}

fn new_auction(reserve: u64) -> AuctionState {
    let (s, _) = creator(5).handler(500, 7, START, END, reserve, AuctionType::Normal, 1, 254).unwrap();
    s
}

fn bidder(n: u128) -> PlaceBid {
    PlaceBid {
        bidder: addr(100 + n),
        auction_key: addr(50),
        bid_mint: addr(BID_MINT),
        bid_mint_owner: addr(TOKEN_PROGRAM),
        confidential_token_program: addr(TOKEN_PROGRAM),
        bid_vault: addr(BID_VAULT),
        bid_bump: 255,
    }
}

/// Runs a whole bid through the engine, as the program does.
fn bid(e: &mut Engine, a: &mut AuctionState, who: u128, amount: u128, now: i64) -> Result<Bid, AuctionError> {
    let pb = bidder(who);
    let payload = vec![1u8, 2, 3];
    pb.validate(a, now, &payload)?;
    let ts = Euint128(e.fresh(now as u128));
    let b = Euint128(e.fresh(amount));
    let ops = pb.leader_ops(a, b, ts);
    let results = e.run(&ops);
    pb.handler(a, now, &payload, b, ts, &results)
}

fn close(e: &mut Engine, a: &mut AuctionState, now: i64) -> Result<(), AuctionError> {
    let c = CloseAuction { organizer: addr(ORGANIZER) };
    c.validate(a, now)?;
    let ops = c.reserve_ops(a);
    let results = e.run(&ops);
    c.handler(a, now, &results).map(|_| ())
}

fn check(e: &mut Engine, a: &AuctionState, b: &mut Bid) -> Result<bool, AuctionError> {
    let c = CheckWinner { bidder: b.bidder };
    let ops = c.winner_ops(a, b)?;
    let results = e.run(&ops);
    c.handler(a, b, &results, false)?;
    Ok(e.value(b.winner_handle.unwrap().0) != 0)
}

#[test]
fn three_bids_reserve_met() {
    let mut e = Engine::new();
    let mut a = new_auction(100);
    let mut ba = bid(&mut e, &mut a, 1, 50, 1_100).unwrap();
    let mut bb = bid(&mut e, &mut a, 2, 120, 1_200).unwrap();
    let mut bc = bid(&mut e, &mut a, 3, 90, 1_300).unwrap();
    assert_eq!(e.value(a.highest_bid.0), 120);
    assert_eq!(e.value(a.second_highest_bid.unwrap().0), 90);
    assert_eq!(e.value(a.highest_timestamp.0), 1_200);
    assert_eq!(a.bid_count, 3);
    close(&mut e, &mut a, END).unwrap();
    assert_eq!(a.auction_status, AuctionStatus::Closed);
    assert_eq!(e.value(a.reserve_met.unwrap().0), 1);
    assert!(check(&mut e, &a, &mut bb).unwrap());
    assert!(!check(&mut e, &a, &mut ba).unwrap());
    assert!(!check(&mut e, &a, &mut bc).unwrap());
}

#[test]
fn single_bid_below_reserve() {
    let mut e = Engine::new();
    let mut a = new_auction(200);
    let mut ba = bid(&mut e, &mut a, 1, 150, 1_500).unwrap();
    close(&mut e, &mut a, 2_500).unwrap();
    assert_eq!(e.value(a.reserve_met.unwrap().0), 0);
    assert_eq!(e.value(a.highest_bid.0), 150);
    assert_eq!(e.value(a.highest_timestamp.0), 1_500);
    assert!(!check(&mut e, &a, &mut ba).unwrap());
}

#[test]
fn bid_window_boundaries() {
    let mut e = Engine::new();
    let mut a = new_auction(1);
    assert_eq!(bid(&mut e, &mut a, 1, 10, END), Err(AuctionError::AuctionEnded));
    assert_eq!(a.bid_count, 0);
    assert!(bid(&mut e, &mut a, 1, 10, START).is_ok());
    assert_eq!(bid(&mut e, &mut a, 2, 10, START - 1), Err(AuctionError::AuctionNotStarted));
    assert_eq!(a.bid_count, 1);
}

#[test]
fn leaders_follow_any_order() {
    let amounts: [u128; 5] = [30, 70, 70, 10, 50];
    let mut e = Engine::new();
    let mut a = new_auction(1);
    for (i, v) in amounts.iter().enumerate() {
        bid(&mut e, &mut a, i as u128, *v, START + i as i64).unwrap();
        let seen = &amounts[..=i];
        let mut sorted: Vec<u128> = seen.to_vec();
        sorted.sort();
        sorted.reverse();
        assert_eq!(e.value(a.highest_bid.0), sorted[0]);
        if i >= 1 {
            assert_eq!(e.value(a.second_highest_bid.unwrap().0), sorted[1]);
        } else {
            assert!(a.second_highest_bid.is_none());
        }
    }
    // the first of the two bids of 70 leads
    assert_eq!(e.value(a.highest_timestamp.0), (START + 1) as u128);
}

#[test]
fn second_bid_below_first() {
    let mut e = Engine::new();
    let mut a = new_auction(1);
    bid(&mut e, &mut a, 1, 80, START).unwrap();
    bid(&mut e, &mut a, 2, 20, START + 1).unwrap();
    assert_eq!(e.value(a.highest_bid.0), 80);
    assert_eq!(e.value(a.second_highest_bid.unwrap().0), 20);
    assert_eq!(e.value(a.highest_timestamp.0), START as u128);
}

#[test]
fn tie_goes_to_earliest() {
    let mut e = Engine::new();
    let mut a = new_auction(10);
    let mut first = bid(&mut e, &mut a, 1, 60, START + 5).unwrap();
    let mut second = bid(&mut e, &mut a, 2, 60, START + 9).unwrap();
    assert_eq!(e.value(a.highest_timestamp.0), (START + 5) as u128);
    close(&mut e, &mut a, END).unwrap();
    assert!(check(&mut e, &a, &mut first).unwrap());
    assert!(!check(&mut e, &a, &mut second).unwrap());
}

#[test]
fn close_only_once() {
    let mut e = Engine::new();
    let mut a = new_auction(100);
    bid(&mut e, &mut a, 1, 150, START).unwrap();
    close(&mut e, &mut a, END).unwrap();
    let verdict = a.reserve_met;
    assert_eq!(close(&mut e, &mut a, END + 10), Err(AuctionError::AuctionNotOpen));
    assert_eq!(bid(&mut e, &mut a, 2, 500, END - 1), Err(AuctionError::AuctionNotOpen));
    assert_eq!(a.reserve_met, verdict);
}

#[test]
fn check_winner_repeatable() {
    let mut e = Engine::new();
    let mut a = new_auction(100);
    let mut b = bid(&mut e, &mut a, 1, 150, START).unwrap();
    close(&mut e, &mut a, END).unwrap();
    let c = CheckWinner { bidder: b.bidder };
    let ops1 = c.winner_ops(&a, &b).unwrap();
    let won1 = check(&mut e, &a, &mut b).unwrap();
    let ops2 = c.winner_ops(&a, &b).unwrap();
    let won2 = check(&mut e, &a, &mut b).unwrap();
    assert_eq!(ops1, ops2);
    assert_eq!(won1, won2);
    assert!(won1);
}

#[test]
fn exactly_one_winner_with_distinct_bids() {
    let amounts: [u128; 6] = [15, 99, 42, 7, 98, 60];
    let mut e = Engine::new();
    let mut a = new_auction(50);
    let mut bids: Vec<Bid> = Vec::new();
    for (i, v) in amounts.iter().enumerate() {
        bids.push(bid(&mut e, &mut a, i as u128, *v, START + i as i64).unwrap());
    }
    close(&mut e, &mut a, END).unwrap();
    let mut winners: Vec<usize> = Vec::new();
    for (i, b) in bids.iter_mut().enumerate() {
        if check(&mut e, &a, b).unwrap() {
            winners.push(i);
        }
    }
    assert_eq!(winners, vec![1]);
}

#[test]
fn no_winner_below_reserve() {
    let amounts: [u128; 3] = [15, 99, 42];
    let mut e = Engine::new();
    let mut a = new_auction(100);
    let mut bids: Vec<Bid> = Vec::new();
    for (i, v) in amounts.iter().enumerate() {
        bids.push(bid(&mut e, &mut a, i as u128, *v, START + i as i64).unwrap());
    }
    close(&mut e, &mut a, END).unwrap();
    for b in bids.iter_mut() {
        assert!(!check(&mut e, &a, b).unwrap());
    }
}

#[test]
fn create_sets_fresh_state_and_notice() {
    let (s, ev) = creator(9).handler(500, 7, START, END, 300, AuctionType::Vickrey, 4, 254).unwrap();
    assert_eq!(s.highest_bid, Euint128(ZERO_HANDLE));
    assert_eq!(s.highest_timestamp, Euint128(ZERO_HANDLE));
    assert!(s.second_highest_bid.is_none());
    assert!(s.reserve_met.is_none());
    assert_eq!(s.auction_status, AuctionStatus::Open);
    assert_eq!(s.bid_count, 0);
    assert_eq!(s.reserve_price, 300);
    assert_eq!(s.auction_type, AuctionType::Vickrey);
    assert_eq!(ev.amount, 4);
    assert_eq!(ev.auction_id, 7);
    assert_eq!(ev.organizer, addr(ORGANIZER));
}

#[test]
fn create_errors() {
    let c = creator(5);
    let mut bad_mint = c;
    bad_mint.bid_token_mint_owner = addr(77);
    assert_eq!(bad_mint.validate(500, START, END, 1), Err(AuctionError::InvalidBidMint));
    assert_eq!(c.validate(START, START, END, 1), Err(AuctionError::InvalidStartTime));
    assert_eq!(c.validate(500, START, START, 1), Err(AuctionError::InvalidEndTime));
    assert_eq!(c.validate(500, START, END, 0), Err(AuctionError::InvalidTokenAmount));
    assert_eq!(c.validate(500, START, END, 6), Err(AuctionError::InsufficientBalance));
    assert_eq!(c.validate(500, START, END, 5), Ok(()));
    assert!(c.handler(500, 7, START, END, 1, AuctionType::Normal, 6, 0).is_err());
}

#[test]
fn place_bid_errors() {
    let a = new_auction(1);
    let payload = vec![9u8];
    let ok = bidder(1);
    let mut wrong_mint = ok;
    wrong_mint.bid_mint = addr(88);
    let mut foreign_mint = ok;
    foreign_mint.bid_mint_owner = addr(88);
    let mut wrong_vault = ok;
    wrong_vault.bid_vault = addr(88);
    assert_eq!(wrong_mint.validate(&a, START, &payload), Err(AuctionError::InvalidBidMint));
    assert_eq!(foreign_mint.validate(&a, START, &payload), Err(AuctionError::InvalidBidMint));
    assert_eq!(wrong_vault.validate(&a, START, &payload), Err(AuctionError::InvalidBidVault));
    assert_eq!(ok.validate(&a, START, &Vec::new()), Err(AuctionError::InvalidBidAmount));
    let mut full = a;
    full.bid_count = u32::MAX;
    assert_eq!(ok.validate(&full, START, &payload), Err(AuctionError::MathOverflow));
    let mut closed = a;
    closed.auction_status = AuctionStatus::Cancelled;
    assert_eq!(ok.validate(&closed, START, &payload), Err(AuctionError::AuctionNotOpen));
    assert_eq!(ok.validate(&a, START, &payload), Ok(()));
}

#[test]
fn place_bid_leaves_state_on_error() {
    let mut a = new_auction(1);
    let before = a;
    let pb = bidder(1);
    let r = pb.handler(&mut a, END, &vec![1u8], Euint128(5), Euint128(6), &vec![1, 2, 3, 4, 5, 6]);
    assert_eq!(r, Err(AuctionError::AuctionEnded));
    assert_eq!(a, before);
}

#[test]
fn close_errors() {
    let mut e = Engine::new();
    let mut a = new_auction(1);
    let stranger = CloseAuction { organizer: addr(99) };
    assert_eq!(stranger.validate(&a, END), Err(AuctionError::Unauthorized));
    assert_eq!(close(&mut e, &mut a, END - 1), Err(AuctionError::AuctionNotEnded));
    assert_eq!(a.auction_status, AuctionStatus::Open);
    let r = stranger.handler(&mut a, END, &vec![1, 2]);
    assert_eq!(r, Err(AuctionError::Unauthorized));
    assert!(a.reserve_met.is_none());
}

#[test]
fn close_records_verdict_and_notice() {
    let mut a = new_auction(1);
    let c = CloseAuction { organizer: addr(ORGANIZER) };
    let ev = c.handler(&mut a, END + 3, &vec![41, 42]).unwrap();
    assert_eq!(a.reserve_met.unwrap().0, 42);
    assert_eq!(a.auction_status, AuctionStatus::Closed);
    assert_eq!(ev.timestamp, END + 3);
    assert_eq!(ev.auction_id, 7);
}

#[test]
fn check_winner_errors_and_grant() {
    let mut e = Engine::new();
    let mut a = new_auction(1);
    let mut b = bid(&mut e, &mut a, 1, 5, START).unwrap();
    let c = CheckWinner { bidder: b.bidder };
    assert_eq!(c.winner_ops(&a, &b), Err(AuctionError::AuctionNotClosed));
    close(&mut e, &mut a, END).unwrap();
    let other = CheckWinner { bidder: addr(999) };
    assert_eq!(other.winner_ops(&a, &b), Err(AuctionError::Unauthorized));
    assert_eq!(other.handler(&a, &mut b, &vec![1, 2, 3, 4], true), Err(AuctionError::Unauthorized));
    assert!(b.winner_handle.is_none());
    let g = c.handler(&a, &mut b, &vec![1, 2, 3, 4], true).unwrap();
    assert_eq!(g, Some(DecryptGrant { handle: 4, grantee: b.bidder }));
    assert_eq!(b.winner_handle.unwrap().0, 4);
    assert_eq!(c.handler(&a, &mut b, &vec![1, 2, 3, 8], false), Ok(None));
}

#[test]
fn bid_circuit_shape() {
    let mut a = new_auction(1);
    a.highest_bid = Euint128(20);
    a.highest_timestamp = Euint128(21);
    let ops = bidder(1).leader_ops(&a, Euint128(30), Euint128(31));
    assert_eq!(ops.len(), 6);
    assert_eq!(ops[0], Op::Gt(Operand::Handle(30), Operand::Handle(20)));
    // with no second bid yet, the prior second is the encrypted zero
    assert_eq!(ops[2], Op::Gt(Operand::Handle(30), Operand::Handle(ZERO_HANDLE)));
    assert_eq!(ops[5], Op::Select(Operand::Step(0), Operand::Handle(31), Operand::Handle(21)));
    let c = CloseAuction { organizer: addr(ORGANIZER) };
    let r = c.reserve_ops(&a);
    assert_eq!(r, vec![Op::Encrypt(1), Op::Ge(Operand::Handle(20), Operand::Step(0))]);
}

#[test]
fn clearing_price_by_kind() {
    let mut e = Engine::new();
    let mut a = new_auction(1);
    let only = bid(&mut e, &mut a, 1, 40, START).unwrap();
    a.auction_type = AuctionType::Vickrey;
    assert_eq!(a.clearing_price(&only), None);
    let top = bid(&mut e, &mut a, 2, 90, START + 1).unwrap();
    let second = a.clearing_price(&top).unwrap();
    assert_eq!(e.value(second.0), 40);
    a.auction_type = AuctionType::Normal;
    assert_eq!(a.clearing_price(&top), Some(top.bid_amount));
}
