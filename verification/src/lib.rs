//! A single-auction escrow state machine.
//!
//! The library accepts bids denominated in a fungible token, tracks the
//! current highest bid, and refunds a displaced bidder through an
//! asynchronous, possibly failing cross-ledger transfer. All decisions are
//! made here over plain values; the surrounding runtime performs the actual
//! token transfers and delivers their outcomes back as events.

pub mod auction;
pub mod laws;
pub mod model;

pub use auction::AccountId;
pub use auction::AuctionError;
pub use auction::Bid;
pub use auction::Contract;
pub use auction::Liability;
pub use auction::PendingRefund;
pub use auction::RefundInstruction;
pub use auction::RefundStatus;
