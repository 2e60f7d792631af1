//! Transaction engine for a single-asset auction contract.
//!
//! The auction coordinates a unique digital asset (held by an external asset
//! registry) and fungible funds (held by an external value ledger) across
//! asynchronous message calls.  Every external call may fail or be interrupted
//! mid-flight, so each caller-facing operation persists a single pending
//! `Transaction` record before causing side effects and drives it to
//! completion step by step.  The engine here is purely the decision logic:
//! each step yields an [`Effect`] describing the one external call to
//! perform next, and the host feeds the collaborator's reply back in.  The
//! host loop itself (message I/O, gas reservation) lives outside the library.

mod laws;
mod protocol;
mod state;
mod types;

pub use laws::{
    lemma_caller_operations_keep_current_bid, lemma_default_satisfies_inv,
    lemma_make_bid_emits_consistent_step,
    lemma_make_bid_preserves_inv, lemma_make_bid_rejects_low_bid,
    lemma_make_reservation_preserves_inv, lemma_matching_reply_never_misread,
    lemma_on_interruption_preserves_inv,
    lemma_on_reply_emits_consistent_step, lemma_on_reply_monotonic,
    lemma_on_reply_preserves_inv, lemma_resume_emits_consistent_step,
    lemma_settle_auction_emits_consistent_step, lemma_settle_auction_preserves_inv,
    lemma_settlement_totality, lemma_start_auction_emits_consistent_step,
    lemma_start_auction_idempotent, lemma_start_auction_preserves_inv,
};
pub use protocol::{
    complete_tx_tr, ends_at_fits, finished, inv, make_bid_tr, make_reservation_tr, next_counter,
    on_interruption_tr, on_reply_tr, reply_matches, reset, resume_tr, settle_auction_tr,
    start_auction_tr, step_wf,
};
pub use state::{Auction, AuctionView};
pub use types::{
    ActorId, AuctionAction, AuctionError, AuctionEvent, Bid, CollabReply, Effect, Progress,
    ReservationId, Status, TamagotchiId, Transaction, TransactionId, TxStep, MIN_DURATION,
};
