//! The mathematical model of the auction and its transition functions.
//!
//! Every executable entry point's contract says that the new state's view
//! equals the corresponding transition function applied to the old view, so
//! the whole protocol can be reasoned about at this level alone.

use vstd::prelude::*;

use crate::auction::AccountId;
use crate::auction::AuctionError;
use crate::auction::Bid;
use crate::auction::Liability;
use crate::auction::PendingRefund;
use crate::auction::RefundInstruction;
use crate::auction::RefundStatus;

verus! {

/// The abstract state of one auction instance.
#[verifier::ext_equal]
pub ghost struct AuctionModel {
    /// The current leading offer; its amount never decreases.
    pub highest_bid: Bid,
    /// Fixed at initialization; never mutated.
    pub end_time: u64,
    /// Fixed at initialization; never mutated.
    pub auctioneer: AccountId,
    /// Initially false; becomes true at most once, never reset.
    pub claimed: bool,
    /// The sole token ledger whose notifications are honored.
    pub accepted_token: AccountId,
    /// The deployed instance's own identity; only it may settle refunds.
    pub own_account: AccountId,
    /// The pending-operations registry, keyed by position: one entry per
    /// refund ever dispatched.
    pub pending: Seq<PendingRefund>,
    /// Reclaimable liabilities: one entry per refund that failed.
    pub liabilities: Seq<Liability>,
}

/// The state produced by initialization.
pub open spec fn init_model(
    end_time: u64,
    auctioneer: AccountId,
    accepted_token: AccountId,
    own_account: AccountId,
) -> AuctionModel {
    AuctionModel {
        highest_bid: Bid { bidder: own_account, amount: 0 },
        end_time,
        auctioneer,
        claimed: false,
        accepted_token,
        own_account,
        pending: Seq::empty(),
        liabilities: Seq::empty(),
    }
}

/// One incoming bid notification: the ledger account that sent the
/// notification, the bidder, the transferred amount, and the current time.
#[derive(Clone, Copy, PartialEq, Eq, Structural, Debug)]
pub struct BidEvent {
    pub notifier: AccountId,
    pub sender: AccountId,
    pub amount: u128,
    pub now: u64,
}

/// Why a bid is rejected, if it is. The checks happen in this order: the
/// auction must still be open, the notifier must be the accepted token
/// ledger, and the amount must reach the current highest bid (ties win).
pub open spec fn bid_error(m: AuctionModel, e: BidEvent) -> Option<AuctionError> {
    if e.now >= m.end_time {
        Some(AuctionError::AuctionEnded)
    } else if e.notifier != m.accepted_token {
        Some(AuctionError::UnsupportedToken)
    } else if e.amount < m.highest_bid.amount {
        Some(AuctionError::BidTooLow)
    } else {
        None
    }
}

/// The refund instruction an accepted bid issues: the displaced leader's
/// full amount back to them, unless no real bidder existed yet.
pub open spec fn bid_refund(m: AuctionModel, e: BidEvent) -> Option<RefundInstruction> {
    if bid_error(m, e) is None && m.highest_bid.amount > 0 {
        Some(
            RefundInstruction {
                to: m.highest_bid.bidder,
                amount: m.highest_bid.amount,
                seq: m.pending.len() as usize,
            },
        )
    } else {
        None
    }
}

/// How a bid notification transforms the state: a rejected bid changes
/// nothing; an accepted bid replaces the highest bid wholesale and, if a
/// real bidder was displaced, registers their refund as dispatched.
pub open spec fn bid_step(m: AuctionModel, e: BidEvent) -> AuctionModel {
    if bid_error(m, e) is None {
        AuctionModel {
            highest_bid: Bid { bidder: e.sender, amount: e.amount },
            pending: if m.highest_bid.amount > 0 {
                m.pending.push(
                    PendingRefund {
                        bidder: m.highest_bid.bidder,
                        amount: m.highest_bid.amount,
                        status: RefundStatus::Dispatched,
                    },
                )
            } else {
                m.pending
            },
            ..m
        }
    } else {
        m
    }
}

/// One settlement report: who invoked the continuation, which dispatched
/// refund it concerns, and whether the transfer was delivered.
#[derive(Clone, Copy, PartialEq, Eq, Structural, Debug)]
pub struct SettleEvent {
    pub caller: AccountId,
    pub seq: usize,
    pub delivered: bool,
}

/// Why a settlement is rejected, if it is: only the contract's own identity
/// may settle, and only a refund that is currently dispatched.
pub open spec fn settle_error(m: AuctionModel, e: SettleEvent) -> Option<AuctionError> {
    if e.caller != m.own_account {
        Some(AuctionError::Unauthorized)
    } else if e.seq >= m.pending.len() || !(m.pending[e.seq as int].status is Dispatched) {
        Some(AuctionError::UnknownRefund)
    } else {
        None
    }
}

/// How a settlement transforms the state: a rejected settlement changes
/// nothing; an accepted one marks the refund settled with its outcome and,
/// if the transfer failed, records the stranded funds as a liability.
pub open spec fn settle_step(m: AuctionModel, e: SettleEvent) -> AuctionModel {
    if settle_error(m, e) is None {
        let entry = m.pending[e.seq as int];
        AuctionModel {
            pending: m.pending.update(
                e.seq as int,
                PendingRefund { status: RefundStatus::Settled { delivered: e.delivered }, ..entry },
            ),
            liabilities: if e.delivered {
                m.liabilities
            } else {
                m.liabilities.push(Liability { bidder: entry.bidder, amount: entry.amount })
            },
            ..m
        }
    } else {
        m
    }
}

} // verus!
