//! The auction's data types and its authoritative state.

use vstd::prelude::*;

use crate::model::bid_error;
use crate::model::bid_refund;
use crate::model::bid_step;
use crate::model::init_model;
use crate::model::settle_error;
use crate::model::settle_step;
use crate::model::AuctionModel;
use crate::model::BidEvent;
use crate::model::SettleEvent;

verus! {

/// An opaque identifier for an external ledger account. The surrounding
/// runtime owns the mapping between real account names and these numeric
/// identifiers; the protocol only ever compares them for equality.
#[derive(Clone, Copy, PartialEq, Eq, Structural, Debug, Hash)]
pub struct AccountId {
    pub id: u64,
}

impl AccountId {
    pub fn new(id: u64) -> (r: AccountId)
        ensures
            r.id == id,
    {
        AccountId { id }
    }
}

/// A bid: who placed it and how much, in the token's smallest unit.
/// Immutable once constructed; the auction replaces it wholesale.
#[derive(Clone, Copy, PartialEq, Eq, Structural, Debug)]
pub struct Bid {
    pub bidder: AccountId,
    pub amount: u128,
}

/// Why a call was rejected, or why a refund needs remediation.
#[derive(Clone, Copy, PartialEq, Eq, Structural, Debug)]
pub enum AuctionError {
    /// A bid arrived at or after the auction's end time.
    AuctionEnded,
    /// A bid notification came from a token account other than the accepted one.
    UnsupportedToken,
    /// A bid's amount is strictly below the current highest bid.
    BidTooLow,
    /// A privileged entry point was invoked by a non-permitted identity.
    Unauthorized,
    /// The asynchronous refund did not complete; the displaced bidder's
    /// funds were recorded as a reclaimable liability.
    RefundTransferFailed,
    /// A settlement referred to no refund that is currently in flight.
    UnknownRefund,
}

/// Where an in-flight refund stands: dispatched to the ledger, or settled
/// with the ledger's reported outcome.
#[derive(Clone, Copy, PartialEq, Eq, Structural, Debug)]
pub enum RefundStatus {
    Dispatched,
    Settled { delivered: bool },
}

/// One entry of the pending-operations registry: a refund owed to a
/// displaced bidder, keyed by its position in the registry.
#[derive(Clone, Copy, PartialEq, Eq, Structural, Debug)]
pub struct PendingRefund {
    pub bidder: AccountId,
    pub amount: u128,
    pub status: RefundStatus,
}

/// A recorded obligation to return funds to a bidder whose refund transfer
/// failed.
#[derive(Clone, Copy, PartialEq, Eq, Structural, Debug)]
pub struct Liability {
    pub bidder: AccountId,
    pub amount: u128,
}

/// An instruction the runtime must carry out: transfer `amount` back to
/// `to` on the external ledger, then report the outcome through
/// `ft_transfer_callback` with the same `seq`.
#[derive(Clone, Copy, PartialEq, Eq, Structural, Debug)]
pub struct RefundInstruction {
    pub to: AccountId,
    pub amount: u128,
    pub seq: usize,
}

/// The authoritative record of one deployed auction instance.
pub struct Contract {
    highest_bid: Bid,
    auction_end_time: u64,
    auctioneer: AccountId,
    auction_was_claimed: bool,
    ft_contract: AccountId,
    own_account: AccountId,
    pending_refunds: Vec<PendingRefund>,
    liabilities: Vec<Liability>,
}

impl View for Contract {
    type V = AuctionModel;

    closed spec fn view(&self) -> AuctionModel {
        AuctionModel {
            highest_bid: self.highest_bid,
            end_time: self.auction_end_time,
            auctioneer: self.auctioneer,
            claimed: self.auction_was_claimed,
            accepted_token: self.ft_contract,
            own_account: self.own_account,
            pending: self.pending_refunds@,
            liabilities: self.liabilities@,
        }
    }
}

impl Contract {
    /// Constructs the initial state: the highest bid is seeded with the
    /// contract's own identity and a zero amount, a sentinel meaning "no
    /// real bidder yet, refundable to nobody".
    pub fn init(
        end_time: u64,
        auctioneer: AccountId,
        ft_contract: AccountId,
        current_account: AccountId,
    ) -> (r: Contract)
        ensures
            r@ == init_model(end_time, auctioneer, ft_contract, current_account),
    {
        let r = Contract {
            highest_bid: Bid { bidder: current_account, amount: 0 },
            auction_end_time: end_time,
            auctioneer,
            auction_was_claimed: false,
            ft_contract,
            own_account: current_account,
            pending_refunds: Vec::new(),
            liabilities: Vec::new(),
        };
        proof {
            assert(r@ =~= init_model(end_time, auctioneer, ft_contract, current_account));
        }
        r
    }

    /// Reassembles an instance from previously extracted state, exactly as
    /// given. The surrounding runtime persists the state between calls and
    /// rebuilds it with this before each one.
    pub fn from_parts(
        highest_bid: Bid,
        end_time: u64,
        auctioneer: AccountId,
        claimed: bool,
        accepted_token: AccountId,
        own_account: AccountId,
        pending: Vec<PendingRefund>,
        liabilities: Vec<Liability>,
    ) -> (r: Contract)
        ensures
            r@ == (AuctionModel {
                highest_bid,
                end_time,
                auctioneer,
                claimed,
                accepted_token,
                own_account,
                pending: pending@,
                liabilities: liabilities@,
            }),
    {
        Contract {
            highest_bid,
            auction_end_time: end_time,
            auctioneer,
            auction_was_claimed: claimed,
            ft_contract: accepted_token,
            own_account,
            pending_refunds: pending,
            liabilities,
        }
    }

    /// Read-only snapshot of the current highest bid.
    pub fn get_highest_bid(&self) -> (r: Bid)
        ensures
            r == self@.highest_bid,
    {
        self.highest_bid
    }

    /// The fixed time at which the auction stops accepting bids.
    pub fn get_auction_end_time(&self) -> (r: u64)
        ensures
            r == self@.end_time,
    {
        self.auction_end_time
    }

    /// Whether the auction is still accepting bids at `now`.
    pub fn is_open(&self, now: u64) -> (r: bool)
        ensures
            r == (now < self@.end_time),
    {
        now < self.auction_end_time
    }

    /// Whether notifications from `token` are honored: only the single
    /// accepted token ledger's are.
    pub fn accepts(&self, token: AccountId) -> (r: bool)
        ensures
            r == (token == self@.accepted_token),
    {
        token == self.ft_contract
    }

    /// How many refunds have ever been dispatched, settled or not.
    pub fn pending_refund_count(&self) -> (n: usize)
        ensures
            n == self@.pending.len(),
    {
        self.pending_refunds.len()
    }

    /// The registry entry for the refund keyed by `seq`.
    pub fn pending_refund_at(&self, seq: usize) -> (r: PendingRefund)
        requires
            seq < self@.pending.len(),
        ensures
            r == self@.pending[seq as int],
    {
        self.pending_refunds[seq]
    }

    /// How many reclaimable liabilities have been recorded.
    pub fn liability_count(&self) -> (n: usize)
        ensures
            n == self@.liabilities.len(),
    {
        self.liabilities.len()
    }

    /// The `i`-th recorded reclaimable liability, oldest first.
    pub fn liability_at(&self, i: usize) -> (r: Liability)
        requires
            i < self@.liabilities.len(),
        ensures
            r == self@.liabilities[i as int],
    {
        self.liabilities[i]
    }

    /// Handles the external token ledger's notification that `sender_id`
    /// transferred `amount` to this contract as a bid. `notifier` is the
    /// account that delivered the notification and `now` the current time;
    /// the message accompanying the transfer carries no meaning here.
    ///
    /// A rejected bid leaves the state untouched, and the caller must have
    /// the triggering transfer fully reversed. An accepted bid replaces the
    /// highest bid before anything else happens — there is no window where
    /// it is provisional — and is always fully consumed; any refund of the
    /// displaced leader travels as the returned instruction, a separate
    /// reverse transfer the runtime must dispatch, never as partial
    /// consumption of the new bid.
    pub fn ft_on_transfer(
        &mut self,
        notifier: AccountId,
        now: u64,
        sender_id: AccountId,
        amount: u128,
        _msg: String,
    ) -> (r: Result<Option<RefundInstruction>, AuctionError>)
        ensures
            final(self)@ == bid_step(
                old(self)@,
                (BidEvent { notifier, sender: sender_id, amount, now }),
            ),
            (match r {
                Ok(refund) => {
                    &&& bid_error(old(self)@, (BidEvent { notifier, sender: sender_id, amount, now })) is None
                    &&& refund == bid_refund(
                        old(self)@,
                        (BidEvent { notifier, sender: sender_id, amount, now }),
                    )
                },
                Err(e) => Some(e) == bid_error(
                    old(self)@,
                    (BidEvent { notifier, sender: sender_id, amount, now }),
                ),
            }),
            final(self)@.highest_bid.amount >= old(self)@.highest_bid.amount,
    {
        let ghost ev = BidEvent { notifier, sender: sender_id, amount, now };
        if now >= self.auction_end_time {
            return Err(AuctionError::AuctionEnded);
        }
        if notifier != self.ft_contract {
            return Err(AuctionError::UnsupportedToken);
        }
        let last_bidder = self.highest_bid.bidder;
        let last_amount = self.highest_bid.amount;
        if amount < last_amount {
            return Err(AuctionError::BidTooLow);
        }
        self.highest_bid = Bid { bidder: sender_id, amount };
        if last_amount > 0 {
            let seq = self.pending_refunds.len();
            self.pending_refunds.push(
                PendingRefund {
                    bidder: last_bidder,
                    amount: last_amount,
                    status: RefundStatus::Dispatched,
                },
            );
            proof {
                assert(self@ =~= bid_step(old(self)@, ev));
            }
            Ok(Some(RefundInstruction { to: last_bidder, amount: last_amount, seq }))
        } else {
            proof {
                assert(self@ =~= bid_step(old(self)@, ev));
            }
            Ok(None)
        }
    }

    /// The continuation scheduled after a refund transfer resolves. Only
    /// the contract's own identity may invoke it; `seq` names the refund it
    /// settles and `refund_delivered` reports the transfer's outcome.
    ///
    /// A delivered refund is simply marked settled. A failed one is marked
    /// settled as undelivered, the displaced bidder's stranded funds are
    /// recorded as a reclaimable liability, and the failure is surfaced as
    /// `RefundTransferFailed` — the bid swap that dispatched the refund
    /// stays final either way.
    pub fn ft_transfer_callback(
        &mut self,
        caller: AccountId,
        seq: usize,
        refund_delivered: bool,
    ) -> (r: Result<(), AuctionError>)
        ensures
            final(self)@ == settle_step(
                old(self)@,
                (SettleEvent { caller, seq, delivered: refund_delivered }),
            ),
            (match r {
                Ok(()) => {
                    &&& settle_error(
                        old(self)@,
                        (SettleEvent { caller, seq, delivered: refund_delivered }),
                    ) is None
                    &&& refund_delivered
                },
                Err(e) => {
                    if e == AuctionError::RefundTransferFailed {
                        &&& settle_error(
                            old(self)@,
                            (SettleEvent { caller, seq, delivered: refund_delivered }),
                        ) is None
                        &&& !refund_delivered
                    } else {
                        Some(e) == settle_error(
                            old(self)@,
                            (SettleEvent { caller, seq, delivered: refund_delivered }),
                        )
                    }
                },
            }),
    {
        let ghost ev = SettleEvent { caller, seq, delivered: refund_delivered };
        if caller != self.own_account {
            return Err(AuctionError::Unauthorized);
        }
        if seq >= self.pending_refunds.len() {
            return Err(AuctionError::UnknownRefund);
        }
        let entry = self.pending_refunds[seq];
        match entry.status {
            RefundStatus::Dispatched => {},
            RefundStatus::Settled { .. } => {
                return Err(AuctionError::UnknownRefund);
            },
        }
        self.pending_refunds.set(
            seq,
            PendingRefund {
                bidder: entry.bidder,
                amount: entry.amount,
                status: RefundStatus::Settled { delivered: refund_delivered },
            },
        );
        if refund_delivered {
            proof {
                assert(self@ =~= settle_step(old(self)@, ev));
            }
            Ok(())
        } else {
            self.liabilities.push(Liability { bidder: entry.bidder, amount: entry.amount });
            proof {
                assert(self@ =~= settle_step(old(self)@, ev));
            }
            Err(AuctionError::RefundTransferFailed)
        }
    }
}

} // verus!
