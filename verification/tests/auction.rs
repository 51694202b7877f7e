use ft_auction::AccountId;
use ft_auction::AuctionError;
use ft_auction::Contract;
use ft_auction::Liability;
use ft_auction::PendingRefund;
use ft_auction::RefundInstruction;
use ft_auction::RefundStatus;

fn account(id: u64) -> AccountId {
    AccountId::new(id)
}

/// A fresh instance: `end_time = 1000`, auctioneer 1, accepted token 2,
/// own identity 3.
fn fresh() -> Contract {
    Contract::init(1000, account(1), account(2), account(3))
}

#[test]
fn init_seeds_sentinel_bid() {
    let c = fresh();
    let hb = c.get_highest_bid();
    assert_eq!(hb.bidder, account(3));
    assert_eq!(hb.amount, 0);
    assert_eq!(c.get_auction_end_time(), 1000);
    assert_eq!(c.pending_refund_count(), 0);
    assert_eq!(c.liability_count(), 0);
}

#[test]
fn is_open_boundary() {
    let c = fresh();
    assert!(c.is_open(0));
    assert!(c.is_open(999));
    assert!(!c.is_open(1000));
    assert!(!c.is_open(1001));
}

#[test]
fn accepts_only_the_declared_token() {
    let c = fresh();
    assert!(c.accepts(account(2)));
    assert!(!c.accepts(account(4)));
    assert!(!c.accepts(account(3)));
}

#[test]
fn scenario_two_bids_tie_low_and_late() {
    let t = account(2);
    let b1 = account(10);
    let b2 = account(11);
    let b3 = account(12);
    let b4 = account(13);
    let mut c = fresh();

    // Bid from B1, amount 50, at time 1: accepted, no refund issued
    // because the previous amount was the zero sentinel.
    let r1 = c.ft_on_transfer(t, 1, b1, 50, String::new());
    assert_eq!(r1, Ok(None));
    assert_eq!(c.get_highest_bid().bidder, b1);
    assert_eq!(c.get_highest_bid().amount, 50);
    assert_eq!(c.pending_refund_count(), 0);

    // Bid from B2, amount 50, at time 2: the tie is accepted and
    // displaces B1, whose 50 must be refunded.
    let r2 = c.ft_on_transfer(t, 2, b2, 50, String::new());
    assert_eq!(r2, Ok(Some(RefundInstruction { to: b1, amount: 50, seq: 0 })));
    assert_eq!(c.get_highest_bid().bidder, b2);
    assert_eq!(c.get_highest_bid().amount, 50);
    assert_eq!(c.pending_refund_count(), 1);

    // Bid from B3, amount 10, at time 3: too low, state unchanged.
    let r3 = c.ft_on_transfer(t, 3, b3, 10, String::new());
    assert_eq!(r3, Err(AuctionError::BidTooLow));
    assert_eq!(c.get_highest_bid().bidder, b2);
    assert_eq!(c.get_highest_bid().amount, 50);
    assert_eq!(c.pending_refund_count(), 1);

    // Bid from B4, amount 60, at time 1001: the auction has ended,
    // state unchanged.
    let r4 = c.ft_on_transfer(t, 1001, b4, 60, String::new());
    assert_eq!(r4, Err(AuctionError::AuctionEnded));
    assert_eq!(c.get_highest_bid().bidder, b2);
    assert_eq!(c.get_highest_bid().amount, 50);
    assert_eq!(c.pending_refund_count(), 1);
}

#[test]
fn highest_amount_never_decreases() {
    let t = account(2);
    let mut c = fresh();
    let amounts = [5u128, 5, 7, 3, 7, 100, 99, 100, 101];
    let mut hi = 0u128;
    for (i, &a) in amounts.iter().enumerate() {
        let _ = c.ft_on_transfer(t, i as u64, account(20 + i as u64), a, String::new());
        assert!(c.get_highest_bid().amount >= hi);
        hi = c.get_highest_bid().amount;
    }
    assert_eq!(hi, 101);
}

#[test]
fn low_bid_rejected_and_state_unchanged() {
    let t = account(2);
    let mut c = fresh();
    c.ft_on_transfer(t, 1, account(10), 50, String::new()).unwrap();
    let r = c.ft_on_transfer(t, 2, account(11), 49, String::new());
    assert_eq!(r, Err(AuctionError::BidTooLow));
    assert_eq!(c.get_highest_bid().bidder, account(10));
    assert_eq!(c.get_highest_bid().amount, 50);
    assert_eq!(c.pending_refund_count(), 0);
}

#[test]
fn equal_bid_displaces_previous_leader() {
    let t = account(2);
    let mut c = fresh();
    c.ft_on_transfer(t, 1, account(10), 75, String::new()).unwrap();
    let r = c.ft_on_transfer(t, 2, account(11), 75, String::new());
    assert_eq!(r, Ok(Some(RefundInstruction { to: account(10), amount: 75, seq: 0 })));
    assert_eq!(c.get_highest_bid().bidder, account(11));
    assert_eq!(c.get_highest_bid().amount, 75);
}

#[test]
fn foreign_token_never_mutates() {
    let mut c = fresh();
    // High amount, valid timing: still rejected, nothing changes.
    let r = c.ft_on_transfer(account(4), 1, account(10), 1_000_000, String::new());
    assert_eq!(r, Err(AuctionError::UnsupportedToken));
    assert_eq!(c.get_highest_bid().bidder, account(3));
    assert_eq!(c.get_highest_bid().amount, 0);
    assert_eq!(c.pending_refund_count(), 0);
    // Even the auctioneer's own account is not an accepted notifier.
    let r2 = c.ft_on_transfer(account(1), 1, account(10), 1, String::new());
    assert_eq!(r2, Err(AuctionError::UnsupportedToken));
}

#[test]
fn bid_at_end_time_rejected() {
    let t = account(2);
    let mut c = fresh();
    // Exactly at end_time counts as ended; the time check comes first.
    let r = c.ft_on_transfer(t, 1000, account(10), 60, String::new());
    assert_eq!(r, Err(AuctionError::AuctionEnded));
    let r2 = c.ft_on_transfer(account(4), 2000, account(10), 60, String::new());
    assert_eq!(r2, Err(AuctionError::AuctionEnded));
    assert_eq!(c.get_highest_bid().amount, 0);
    assert_eq!(c.pending_refund_count(), 0);
}

#[test]
fn first_real_bid_issues_no_refund() {
    let t = account(2);
    let mut c = fresh();
    let r = c.ft_on_transfer(t, 1, account(10), 1, String::new());
    assert_eq!(r, Ok(None));
    assert_eq!(c.pending_refund_count(), 0);
}

#[test]
fn each_displacement_issues_exactly_one_refund() {
    let t = account(2);
    let mut c = fresh();
    c.ft_on_transfer(t, 1, account(10), 10, String::new()).unwrap();
    let r2 = c.ft_on_transfer(t, 2, account(11), 20, String::new());
    assert_eq!(r2, Ok(Some(RefundInstruction { to: account(10), amount: 10, seq: 0 })));
    let r3 = c.ft_on_transfer(t, 3, account(12), 30, String::new());
    assert_eq!(r3, Ok(Some(RefundInstruction { to: account(11), amount: 20, seq: 1 })));
    assert_eq!(c.pending_refund_count(), 2);
    assert_eq!(
        c.pending_refund_at(0),
        PendingRefund { bidder: account(10), amount: 10, status: RefundStatus::Dispatched }
    );
    assert_eq!(
        c.pending_refund_at(1),
        PendingRefund { bidder: account(11), amount: 20, status: RefundStatus::Dispatched }
    );
}

#[test]
fn callback_from_external_caller_unauthorized() {
    let t = account(2);
    let mut c = fresh();
    c.ft_on_transfer(t, 1, account(10), 10, String::new()).unwrap();
    c.ft_on_transfer(t, 2, account(11), 20, String::new()).unwrap();
    // Neither a bidder nor the token ledger may settle; only the
    // contract's own identity (account 3) may.
    let r = c.ft_transfer_callback(account(10), 0, true);
    assert_eq!(r, Err(AuctionError::Unauthorized));
    let r2 = c.ft_transfer_callback(account(2), 0, true);
    assert_eq!(r2, Err(AuctionError::Unauthorized));
    assert_eq!(c.pending_refund_at(0).status, RefundStatus::Dispatched);
    assert_eq!(c.liability_count(), 0);
}

#[test]
fn delivered_refund_settles_without_liability() {
    let t = account(2);
    let mut c = fresh();
    c.ft_on_transfer(t, 1, account(10), 10, String::new()).unwrap();
    c.ft_on_transfer(t, 2, account(11), 20, String::new()).unwrap();
    let r = c.ft_transfer_callback(account(3), 0, true);
    assert_eq!(r, Ok(()));
    assert_eq!(c.pending_refund_at(0).status, RefundStatus::Settled { delivered: true });
    assert_eq!(c.liability_count(), 0);
}

#[test]
fn failed_refund_recorded_as_liability() {
    let t = account(2);
    let mut c = fresh();
    c.ft_on_transfer(t, 1, account(10), 10, String::new()).unwrap();
    c.ft_on_transfer(t, 2, account(11), 20, String::new()).unwrap();
    let r = c.ft_transfer_callback(account(3), 0, false);
    assert_eq!(r, Err(AuctionError::RefundTransferFailed));
    assert_eq!(c.pending_refund_at(0).status, RefundStatus::Settled { delivered: false });
    assert_eq!(c.liability_count(), 1);
    assert_eq!(c.liability_at(0), Liability { bidder: account(10), amount: 10 });
    // The bid swap stays final: the failure does not touch the leader.
    assert_eq!(c.get_highest_bid().bidder, account(11));
    assert_eq!(c.get_highest_bid().amount, 20);
}

#[test]
fn unknown_or_repeated_settlement_rejected() {
    let t = account(2);
    let own = account(3);
    let mut c = fresh();
    c.ft_on_transfer(t, 1, account(10), 10, String::new()).unwrap();
    // No refund was ever dispatched: seq 0 names nothing.
    assert_eq!(c.ft_transfer_callback(own, 0, true), Err(AuctionError::UnknownRefund));
    c.ft_on_transfer(t, 2, account(11), 20, String::new()).unwrap();
    assert_eq!(c.ft_transfer_callback(own, 1, true), Err(AuctionError::UnknownRefund));
    assert_eq!(c.ft_transfer_callback(own, 0, true), Ok(()));
    // Settling the same refund twice is rejected and records nothing.
    assert_eq!(c.ft_transfer_callback(own, 0, false), Err(AuctionError::UnknownRefund));
    assert_eq!(c.liability_count(), 0);
}

#[test]
fn largest_amount_accepted() {
    let t = account(2);
    let mut c = fresh();
    c.ft_on_transfer(t, 1, account(10), u128::MAX, String::new()).unwrap();
    assert_eq!(c.get_highest_bid().amount, u128::MAX);
    // Only an equal bid can still displace the leader.
    let r = c.ft_on_transfer(t, 2, account(11), u128::MAX - 1, String::new());
    assert_eq!(r, Err(AuctionError::BidTooLow));
    let r2 = c.ft_on_transfer(t, 3, account(11), u128::MAX, String::new());
    assert_eq!(
        r2,
        Ok(Some(RefundInstruction { to: account(10), amount: u128::MAX, seq: 0 }))
    );
}
