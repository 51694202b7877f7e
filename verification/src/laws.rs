//! Protocol-wide laws, proved over the model of `crate::model`.
//!
//! Since every executable entry point's contract equates the new view with
//! `bid_step` or `settle_step` of the old one, each law below holds of any
//! sequence of calls on a real `Contract` as well.

use vstd::prelude::*;

use crate::auction::AuctionError;
use crate::auction::Bid;
use crate::auction::Liability;
use crate::auction::PendingRefund;
use crate::auction::RefundInstruction;
use crate::auction::RefundStatus;
use crate::model::bid_error;
use crate::model::bid_refund;
use crate::model::bid_step;
use crate::model::settle_error;
use crate::model::settle_step;
use crate::model::AuctionModel;
use crate::model::BidEvent;
use crate::model::SettleEvent;

verus! {

/// Anything that can happen to a deployed instance after initialization: a
/// bid notification or a refund settlement.
pub enum AuctionEvent {
    Bid(BidEvent),
    Settle(SettleEvent),
}

/// The state after one event.
pub open spec fn step(m: AuctionModel, e: AuctionEvent) -> AuctionModel {
    match e {
        AuctionEvent::Bid(b) => bid_step(m, b),
        AuctionEvent::Settle(s) => settle_step(m, s),
    }
}

/// The state after a whole sequence of events, oldest first.
pub open spec fn run(m: AuctionModel, evs: Seq<AuctionEvent>) -> AuctionModel
    decreases evs.len(),
{
    if evs.len() == 0 {
        m
    } else {
        run(step(m, evs[0]), evs.drop_first())
    }
}

/// Across any sequence of events, the highest bid's amount never
/// decreases, the fields fixed at initialization — end time, auctioneer,
/// accepted token, own identity — never change, and the claimed flag,
/// once true, is never reset.
pub proof fn lemma_lifetime_invariants(m: AuctionModel, evs: Seq<AuctionEvent>)
    ensures
        run(m, evs).highest_bid.amount >= m.highest_bid.amount,
        run(m, evs).end_time == m.end_time,
        run(m, evs).auctioneer == m.auctioneer,
        run(m, evs).accepted_token == m.accepted_token,
        run(m, evs).own_account == m.own_account,
        m.claimed ==> run(m, evs).claimed,
    decreases evs.len(),
{
    if evs.len() != 0 {
        lemma_lifetime_invariants(step(m, evs[0]), evs.drop_first());
    }
}

/// One event never loses or rewrites bookkeeping: refund records are only
/// appended, a record's bidder and amount never change, a settled record
/// never changes again, and liabilities are never removed or altered.
pub proof fn lemma_step_preserves_records(m: AuctionModel, e: AuctionEvent)
    ensures
        step(m, e).pending.len() >= m.pending.len(),
        forall|i: int|
            0 <= i < m.pending.len() ==> {
                &&& (#[trigger] step(m, e).pending[i]).bidder == m.pending[i].bidder
                &&& step(m, e).pending[i].amount == m.pending[i].amount
                &&& (m.pending[i].status is Settled ==> step(m, e).pending[i] == m.pending[i])
            },
        step(m, e).liabilities.len() >= m.liabilities.len(),
        forall|i: int|
            0 <= i < m.liabilities.len() ==> #[trigger] step(m, e).liabilities[i]
                == m.liabilities[i],
{
}

/// Across any sequence of events, no displaced bidder's record is ever
/// dropped and no recorded liability ever disappears: funds owed to
/// someone stay visibly owed until their refund settles, and a failure
/// stays on the books.
pub proof fn lemma_no_record_lost(m: AuctionModel, evs: Seq<AuctionEvent>)
    ensures
        run(m, evs).pending.len() >= m.pending.len(),
        forall|i: int|
            0 <= i < m.pending.len() ==> {
                &&& (#[trigger] run(m, evs).pending[i]).bidder == m.pending[i].bidder
                &&& run(m, evs).pending[i].amount == m.pending[i].amount
                &&& (m.pending[i].status is Settled ==> run(m, evs).pending[i] == m.pending[i])
            },
        run(m, evs).liabilities.len() >= m.liabilities.len(),
        forall|i: int|
            0 <= i < m.liabilities.len() ==> #[trigger] run(m, evs).liabilities[i]
                == m.liabilities[i],
    decreases evs.len(),
{
    if evs.len() != 0 {
        lemma_step_preserves_records(m, evs[0]);
        lemma_no_record_lost(step(m, evs[0]), evs.drop_first());
    }
}

/// A refund is never counted twice: once settled, a second settlement of
/// the same record is rejected and changes nothing.
pub proof fn lemma_settlement_is_final(m: AuctionModel, e: SettleEvent)
    requires
        0 <= e.seq < m.pending.len(),
        m.pending[e.seq as int].status is Settled,
    ensures
        settle_error(m, e) is Some,
        settle_step(m, e) == m,
{
}

/// A bid whose amount is strictly below the current highest bid is always
/// rejected and never mutates the state, whatever its timing or origin.
pub proof fn lemma_low_bid_never_mutates(m: AuctionModel, e: BidEvent)
    requires
        e.amount < m.highest_bid.amount,
    ensures
        bid_error(m, e) is Some,
        bid_step(m, e) == m,
{
}

/// A bid equal in amount to the current highest bid, arriving while the
/// auction is open and from the accepted token ledger, is accepted and
/// displaces the previous leader: the tie-break favors the later bidder.
pub proof fn lemma_tie_displaces_leader(m: AuctionModel, e: BidEvent)
    requires
        e.now < m.end_time,
        e.notifier == m.accepted_token,
        e.amount == m.highest_bid.amount,
    ensures
        bid_error(m, e) is None,
        bid_step(m, e).highest_bid == (Bid { bidder: e.sender, amount: e.amount }),
{
}

/// A bid notification from a token account other than the accepted one is
/// rejected and never mutates the state, regardless of amount or timing.
pub proof fn lemma_foreign_token_never_mutates(m: AuctionModel, e: BidEvent)
    requires
        e.notifier != m.accepted_token,
    ensures
        bid_error(m, e) is Some,
        bid_step(m, e) == m,
{
}

/// A bid arriving at or after the end time is rejected as `AuctionEnded`
/// and never mutates the state.
pub proof fn lemma_late_bid_never_mutates(m: AuctionModel, e: BidEvent)
    requires
        e.now >= m.end_time,
    ensures
        bid_error(m, e) == Some(AuctionError::AuctionEnded),
        bid_step(m, e) == m,
{
}

/// A successful bid issues exactly one refund instruction, for the
/// displaced leader's full amount back to them, and registers exactly that
/// refund as dispatched — unless the displaced amount was the zero
/// sentinel, in which case no refund is issued and none is registered.
pub proof fn lemma_exactly_one_refund(m: AuctionModel, e: BidEvent)
    requires
        bid_error(m, e) is None,
    ensures
        m.highest_bid.amount > 0 ==> bid_refund(m, e) == Some(
            (RefundInstruction {
                to: m.highest_bid.bidder,
                amount: m.highest_bid.amount,
                seq: m.pending.len() as usize,
            }),
        ),
        m.highest_bid.amount > 0 ==> bid_step(m, e).pending == m.pending.push(
            (PendingRefund {
                bidder: m.highest_bid.bidder,
                amount: m.highest_bid.amount,
                status: RefundStatus::Dispatched,
            }),
        ),
        m.highest_bid.amount == 0 ==> bid_refund(m, e) is None,
        m.highest_bid.amount == 0 ==> bid_step(m, e).pending == m.pending,
{
}

/// A settlement invoked by any identity other than the contract's own is
/// rejected as `Unauthorized` and never mutates the state.
pub proof fn lemma_external_settle_rejected(m: AuctionModel, e: SettleEvent)
    requires
        e.caller != m.own_account,
    ensures
        settle_error(m, e) == Some(AuctionError::Unauthorized),
        settle_step(m, e) == m,
{
}

/// A settlement never touches the highest bid: the bid swap that
/// dispatched the refund stays final whatever the refund's outcome.
pub proof fn lemma_settle_preserves_highest_bid(m: AuctionModel, e: SettleEvent)
    ensures
        settle_step(m, e).highest_bid == m.highest_bid,
{
}

/// A failed refund is never silently dropped: an accepted settlement that
/// reports the transfer undelivered records exactly one new liability, for
/// the displaced bidder and amount of the refund it settles.
pub proof fn lemma_failed_refund_recorded(m: AuctionModel, e: SettleEvent)
    requires
        settle_error(m, e) is None,
        !e.delivered,
    ensures
        settle_step(m, e).liabilities == m.liabilities.push(
            (Liability {
                bidder: m.pending[e.seq as int].bidder,
                amount: m.pending[e.seq as int].amount,
            }),
        ),
{
}

} // verus!
