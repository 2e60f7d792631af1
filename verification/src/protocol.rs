//! The commit protocol as a mathematical transition system.
//!
//! Every executable operation on [`crate::state::Auction`] promises that its
//! new state and its outcome equal one of the transition functions below,
//! applied to the old state's view.  A run of the protocol alternates one
//! transition with one external call: a transition that returns
//! [`Progress::Pending`] names the call to perform and the [`TxStep`] at
//! which to re-enter once the collaborator has replied.

use crate::state::AuctionView;
use crate::types::{
    ActorId, AuctionError, AuctionEvent, Bid, CollabReply, Effect, Progress, ReservationId,
    Status, TamagotchiId, Transaction, TransactionId, TxStep, MIN_DURATION,
};
use vstd::prelude::*;

verus! {

/// The next counter value after drawing `used` ids (wrap-on-overflow).
pub open spec fn next_counter(id: TransactionId, used: u64) -> TransactionId {
    vstd::wrapping::u64_specs::wrapping_add(id, used)
}

/// The auction record reset to its idle defaults: phase, identities and the
/// deadline are cleared, while the counter, the collaborator identities and
/// the retry credits survive the cycle.
pub open spec fn reset(pre: AuctionView) -> AuctionView {
    AuctionView {
        status: Status::ReadyToStart,
        tamagotchi_id: 0,
        current_bidder: 0,
        prev_tmg_owner: 0,
        ended_at: 0,
        transaction: None,
        ..pre
    }
}

/// A terminal outcome with no follow-up message to schedule.
pub open spec fn finished(result: Result<AuctionEvent, AuctionError>) -> Progress {
    Progress::Finished { result, schedule_settle: false }
}

/// Entering the commit protocol for `tx`: the first external call of each
/// transaction kind.  No state changes until a reply arrives.
pub open spec fn complete_tx_tr(pre: AuctionView, tx: Transaction) -> Progress {
    match tx {
        Transaction::StartAuction { tamagotchi_id, bid, duration } => Progress::Pending {
            step: TxStep::StartQueryOwner { tamagotchi_id, bid, duration },
            effect: Effect::QueryOwner { asset: tamagotchi_id },
        },
        Transaction::MakeBid { transaction_id, bidder, bid } => Progress::Pending {
            step: TxStep::BidCharge { transaction_id, bidder, bid },
            effect: Effect::LedgerTransfer {
                ledger: pre.ft_contract_id,
                tx_id: transaction_id,
                from: bidder,
                to: pre.auctioner,
                amount: bid,
            },
        },
        Transaction::SettleAuction { transaction_id } => Progress::Pending {
            step: TxStep::SettleQueryOwner { transaction_id },
            effect: Effect::QueryOwner { asset: pre.tamagotchi_id },
        },
        Transaction::MakeReservation => finished(Err(AuctionError::WrongTx)),
    }
}

/// Which reply shapes answer which suspended step; the host builds the reply
/// from the very call it performed, so this always holds of a faithful host.
pub open spec fn reply_matches(step: TxStep, reply: CollabReply) -> bool {
    match step {
        TxStep::StartQueryOwner { .. } | TxStep::SettleQueryOwner { .. } => {
            reply is OwnerIs || reply is NoReply
        },
        TxStep::StartChangeOwner { .. }
        | TxStep::SettleRestoreOwner { .. }
        | TxStep::SettleGiveToWinner { .. } => {
            reply is TransferOwnerOk || reply is TransferOwnerFailed
        },
        TxStep::BidCharge { .. } | TxStep::BidRefund { .. } | TxStep::SettlePay { .. } => {
            reply is LedgerOk || reply is LedgerFailed
        },
    }
}

/// The deadline a re-entered start step would compute stays within the
/// timestamp type; a machine limit the host checks before re-entering.
pub open spec fn ends_at_fits(step: TxStep, now: u64) -> bool {
    match step {
        TxStep::StartQueryOwner { duration, .. } | TxStep::StartChangeOwner { duration, .. } => {
            now + duration <= u64::MAX
        },
        _ => true,
    }
}

/// A suspended step agrees with the pending transaction it was derived from.
/// Every `Pending` the engine emits satisfies this of the state it leaves
/// behind; it is the hypothesis under which replayed steps stay sound.
pub open spec fn step_wf(pre: AuctionView, step: TxStep) -> bool {
    match step {
        TxStep::StartQueryOwner { tamagotchi_id, bid, duration }
        | TxStep::StartChangeOwner { tamagotchi_id, bid, duration, .. } => {
            pre.transaction == Some(Transaction::StartAuction { tamagotchi_id, bid, duration })
        },
        TxStep::BidCharge { transaction_id, bidder, bid }
        | TxStep::BidRefund { transaction_id, bidder, bid } => {
            pre.transaction == Some(Transaction::MakeBid { transaction_id, bidder, bid })
        },
        TxStep::SettleQueryOwner { transaction_id }
        | TxStep::SettleRestoreOwner { transaction_id }
        | TxStep::SettlePay { transaction_id }
        | TxStep::SettleGiveToWinner { transaction_id } => {
            pre.transaction == Some(Transaction::SettleAuction { transaction_id })
        },
    }
}

/// Re-entering the protocol at `step` with the collaborator's `reply`.
///
/// `source` is the caller of the operation that began the run and `now` the
/// timestamp it was dequeued at; the host carries both across the suspension
/// unchanged.  Steps whose reply shape does not match leave the state alone
/// and report an uninterpretable message.
pub open spec fn on_reply_tr(
    pre: AuctionView,
    step: TxStep,
    reply: CollabReply,
    source: ActorId,
    now: u64,
) -> (AuctionView, Progress) {
    match step {
        TxStep::StartQueryOwner { tamagotchi_id, bid, duration } => match reply {
            CollabReply::OwnerIs { owner } => {
                if owner == pre.auctioner {
                    // The auction already holds the asset (a repeat run):
                    // no ownership transfer is needed.
                    (
                        AuctionView {
                            status: Status::InProcess,
                            current_bid: bid,
                            tamagotchi_id,
                            ended_at: (now + duration) as u64,
                            transaction: None,
                            ..pre
                        },
                        finished(Ok(AuctionEvent::AuctionStarted)),
                    )
                } else if owner != source {
                    // The caller does not control the asset; the pending
                    // record is left for a correct caller to retry.
                    (pre, finished(Err(AuctionError::NotOwner)))
                } else {
                    (
                        pre,
                        Progress::Pending {
                            step: TxStep::StartChangeOwner { tamagotchi_id, bid, duration, owner },
                            effect: Effect::TransferOwner {
                                asset: tamagotchi_id,
                                to: pre.auctioner,
                            },
                        },
                    )
                }
            },
            _ => (pre, finished(Err(AuctionError::WrongReceivedMessage))),
        },
        TxStep::StartChangeOwner { tamagotchi_id, bid, duration, owner } => match reply {
            CollabReply::TransferOwnerOk => (
                AuctionView {
                    status: Status::InProcess,
                    current_bid: bid,
                    tamagotchi_id,
                    prev_tmg_owner: owner,
                    ended_at: (now + duration) as u64,
                    transaction: None,
                    ..pre
                },
                Progress::Finished {
                    result: Ok(AuctionEvent::AuctionStarted),
                    schedule_settle: true,
                },
            ),
            _ => (
                // Abort: the caller must restart from scratch.
                AuctionView { transaction: None, ..pre },
                finished(Err(AuctionError::UnableToChangeOwner)),
            ),
        },
        TxStep::BidCharge { transaction_id, bidder, bid } => match reply {
            CollabReply::LedgerOk => {
                if pre.current_bidder == 0 {
                    // First bid: nothing to refund.
                    (
                        AuctionView {
                            current_bid: bid,
                            current_bidder: bidder,
                            transaction: None,
                            ..pre
                        },
                        finished(Ok(AuctionEvent::BidMade { bid })),
                    )
                } else {
                    (
                        pre,
                        Progress::Pending {
                            step: TxStep::BidRefund { transaction_id, bidder, bid },
                            effect: Effect::LedgerTransfer {
                                ledger: pre.ft_contract_id,
                                tx_id: next_counter(transaction_id, 1),
                                from: pre.auctioner,
                                to: pre.current_bidder,
                                amount: pre.current_bid,
                            },
                        },
                    )
                }
            },
            _ => (
                // Abort: the bidder was not charged.
                AuctionView { transaction: None, ..pre },
                finished(Err(AuctionError::UnableToTransferTokens)),
            ),
        },
        TxStep::BidRefund { transaction_id, bidder, bid } => match reply {
            CollabReply::LedgerOk => (
                AuctionView { current_bid: bid, current_bidder: bidder, transaction: None, ..pre },
                finished(Ok(AuctionEvent::BidMade { bid })),
            ),
            // The charge already committed on the ledger: keep the pending
            // record so a retry re-attempts exactly the refund.
            _ => (pre, finished(Err(AuctionError::RerunTransaction))),
        },
        TxStep::SettleQueryOwner { transaction_id } => match reply {
            CollabReply::OwnerIs { owner } => {
                if owner != pre.auctioner {
                    // The asset already left the auction's control: treat as
                    // settled without moving funds.
                    (reset(pre), finished(Ok(AuctionEvent::AuctionSettled)))
                } else if pre.current_bidder == 0 {
                    (
                        pre,
                        Progress::Pending {
                            step: TxStep::SettleRestoreOwner { transaction_id },
                            effect: Effect::TransferOwner {
                                asset: pre.tamagotchi_id,
                                to: pre.prev_tmg_owner,
                            },
                        },
                    )
                } else {
                    (
                        pre,
                        Progress::Pending {
                            step: TxStep::SettlePay { transaction_id },
                            effect: Effect::LedgerTransfer {
                                ledger: pre.ft_contract_id,
                                tx_id: transaction_id,
                                from: pre.auctioner,
                                to: pre.prev_tmg_owner,
                                amount: pre.current_bid,
                            },
                        },
                    )
                }
            },
            _ => (pre, finished(Err(AuctionError::WrongReceivedMessage))),
        },
        TxStep::SettleRestoreOwner { .. } => match reply {
            CollabReply::TransferOwnerOk => {
                (reset(pre), finished(Ok(AuctionEvent::AuctionSettled)))
            },
            _ => (pre, finished(Err(AuctionError::RerunTransaction))),
        },
        TxStep::SettlePay { transaction_id } => match reply {
            CollabReply::LedgerOk => (
                pre,
                Progress::Pending {
                    step: TxStep::SettleGiveToWinner { transaction_id },
                    effect: Effect::TransferOwner {
                        asset: pre.tamagotchi_id,
                        to: pre.current_bidder,
                    },
                },
            ),
            _ => (pre, finished(Err(AuctionError::RerunTransaction))),
        },
        TxStep::SettleGiveToWinner { .. } => match reply {
            CollabReply::TransferOwnerOk => {
                (reset(pre), finished(Ok(AuctionEvent::AuctionSettled)))
            },
            _ => (pre, finished(Err(AuctionError::RerunTransaction))),
        },
    }
}

/// Starting an auction: validate, then persist a `StartAuction` record and
/// enter the protocol; or resume an identical pending one.
pub open spec fn start_auction_tr(
    pre: AuctionView,
    tamagotchi_id: TamagotchiId,
    minimum_bid: Bid,
    duration: u64,
) -> (AuctionView, Progress) {
    if pre.status != Status::ReadyToStart {
        (pre, finished(Err(AuctionError::WrongState)))
    } else {
        match pre.transaction {
            Some(Transaction::StartAuction { tamagotchi_id: p_id, bid: p_bid, duration: p_dur }) => {
                if p_id != tamagotchi_id || p_bid != minimum_bid || p_dur != duration {
                    (pre, finished(Err(AuctionError::WrongParams)))
                } else {
                    let tx = Transaction::StartAuction { tamagotchi_id, bid: minimum_bid, duration };
                    (pre, complete_tx_tr(pre, tx))
                }
            },
            Some(_) => (pre, finished(Err(AuctionError::WrongTx))),
            None => {
                if duration < MIN_DURATION {
                    (pre, finished(Err(AuctionError::WrongDuration)))
                } else {
                    let tx = Transaction::StartAuction { tamagotchi_id, bid: minimum_bid, duration };
                    let post = AuctionView { transaction: Some(tx), ..pre };
                    (post, complete_tx_tr(post, tx))
                }
            },
        }
    }
}

/// Bidding: validate, allocate two counter values (payment and the refund it
/// may later owe), persist a `MakeBid` record and enter the protocol; or
/// resume a pending `MakeBid` by the same bidder over the same amount.
pub open spec fn make_bid_tr(
    pre: AuctionView,
    bid: Bid,
    source: ActorId,
) -> (AuctionView, Progress) {
    if pre.status != Status::InProcess {
        (pre, finished(Err(AuctionError::WrongState)))
    } else {
        match pre.transaction {
            Some(Transaction::MakeBid { transaction_id, bidder, bid: p_bid }) => {
                if bidder == source && bid == p_bid {
                    let tx = Transaction::MakeBid { transaction_id, bidder, bid: p_bid };
                    (pre, complete_tx_tr(pre, tx))
                } else {
                    (pre, finished(Err(AuctionError::WrongTx)))
                }
            },
            Some(_) => (pre, finished(Err(AuctionError::WrongTx))),
            None => {
                if bid <= pre.current_bid {
                    (pre, finished(Err(AuctionError::WrongBid)))
                } else {
                    let tx = Transaction::MakeBid {
                        transaction_id: pre.transaction_id,
                        bidder: source,
                        bid,
                    };
                    let post = AuctionView {
                        transaction_id: next_counter(pre.transaction_id, 2),
                        transaction: Some(tx),
                        ..pre
                    };
                    (post, complete_tx_tr(post, tx))
                }
            },
        }
    }
}

/// Settling: permitted once the deadline has passed; resumes a pending
/// `MakeBid` or `SettleAuction`, otherwise allocates one counter value,
/// persists a `SettleAuction` record and enters the protocol.
pub open spec fn settle_auction_tr(pre: AuctionView, now: u64) -> (AuctionView, Progress) {
    if now < pre.ended_at {
        (pre, finished(Err(AuctionError::WrongState)))
    } else {
        match pre.transaction {
            Some(Transaction::MakeBid { transaction_id, bidder, bid }) => {
                (pre, complete_tx_tr(pre, Transaction::MakeBid { transaction_id, bidder, bid }))
            },
            Some(Transaction::SettleAuction { transaction_id }) => {
                (pre, complete_tx_tr(pre, Transaction::SettleAuction { transaction_id }))
            },
            Some(_) => (pre, finished(Err(AuctionError::WrongTx))),
            None => {
                let tx = Transaction::SettleAuction { transaction_id: pre.transaction_id };
                let post = AuctionView {
                    transaction_id: next_counter(pre.transaction_id, 1),
                    transaction: Some(tx),
                    ..pre
                };
                (post, complete_tx_tr(post, tx))
            },
        }
    }
}

/// Resuming by explicit request (the recovery scheduler's self-addressed
/// message, or a caller retrying a stuck run): only the transaction equal to
/// the pending one may re-enter the protocol.
pub open spec fn resume_tr(pre: AuctionView, tx: Transaction) -> Progress {
    match pre.transaction {
        Some(pending) => {
            if pending == tx {
                complete_tx_tr(pre, tx)
            } else {
                finished(Err(AuctionError::WrongTx))
            }
        },
        None => finished(Err(AuctionError::NoTx)),
    }
}

/// Banking one prepaid retry credit.
pub open spec fn make_reservation_tr(
    pre: AuctionView,
    credit: ReservationId,
) -> (AuctionView, Result<AuctionEvent, AuctionError>) {
    (
        AuctionView { reservations: pre.reservations.push(credit), ..pre },
        Ok(AuctionEvent::ReservationMade),
    )
}

/// The interruption callback's decision: with a pending transaction and at
/// least one credit banked, consume the front credit and re-submit the
/// pending transaction; otherwise do nothing (a run out of credits stays
/// stuck until `make_reservation` is called again).
pub open spec fn on_interruption_tr(
    pre: AuctionView,
) -> (AuctionView, Option<(ReservationId, Transaction)>) {
    match pre.transaction {
        Some(tx) => {
            if pre.reservations.len() == 0 {
                (pre, None)
            } else {
                (
                    AuctionView { reservations: pre.reservations.drop_first(), ..pre },
                    Some((pre.reservations[0], tx)),
                )
            }
        },
        None => (pre, None),
    }
}

/// The state invariant every operation preserves (see [`crate::laws`]):
/// a pending `MakeBid` or `SettleAuction` only exists while the auction is
/// in process, a pending `StartAuction` only while it is ready to start, an
/// idle auction has its identities cleared, and a pending bid always exceeds
/// the current one.
pub open spec fn inv(a: AuctionView) -> bool {
    &&& (a.transaction matches Some(Transaction::MakeBid { .. }) ==> a.status == Status::InProcess)
    &&& (a.transaction matches Some(Transaction::SettleAuction { .. }) ==> a.status
        == Status::InProcess)
    &&& (a.transaction matches Some(Transaction::StartAuction { .. }) ==> a.status
        == Status::ReadyToStart)
    &&& !(a.transaction matches Some(Transaction::MakeReservation))
    &&& (a.status == Status::ReadyToStart ==> a.tamagotchi_id == 0 && a.current_bidder == 0
        && a.prev_tmg_owner == 0)
    &&& (a.transaction matches Some(Transaction::MakeBid { bid, .. }) ==> bid > a.current_bid)
}

} // verus!
