//! One input for every error variant, and the validation rules around them.

use auction::{
    Auction, AuctionError, AuctionEvent, CollabReply, Effect, Progress, Status, Transaction,
    TxStep,
};

fn fresh(auctioner: u64, ledger: u64) -> Auction {
    let mut a = Auction::default();
    a.auctioner = auctioner;
    a.ft_contract_id = ledger;
    a
}

fn expect_pending(p: Progress) -> (TxStep, Effect) {
    match p {
        Progress::Pending { step, effect } => (step, effect),
        Progress::Finished { result, .. } => panic!("expected a suspended run, got {:?}", result),
    }
}

fn expect_err(p: Progress) -> AuctionError {
    match p {
        Progress::Finished { result: Err(e), .. } => e,
        other => panic!("expected an error, got {:?}", other),
    }
}

fn started_auction() -> Auction {
    let mut a = fresh(7, 9);
    let (step, _) = expect_pending(a.start_auction(3, 100, 60, 1_000, 7));
    match a.on_reply(step, CollabReply::OwnerIs { owner: 7 }, 7, 1_000) {
        Progress::Finished { result: Ok(AuctionEvent::AuctionStarted), .. } => {},
        other => panic!("start did not complete: {:?}", other),
    }
    a
}

#[test]
fn start_in_process_is_wrong_state() {
    let mut a = started_auction();
    assert_eq!(expect_err(a.start_auction(3, 100, 60, 1_100, 7)), AuctionError::WrongState);
}

#[test]
fn start_below_minimum_duration_is_wrong_duration() {
    let mut a = fresh(7, 9);
    assert_eq!(expect_err(a.start_auction(3, 100, 59, 1_000, 7)), AuctionError::WrongDuration);
    assert_eq!(a.transaction, None);
}

#[test]
fn start_resume_with_different_params_is_wrong_params() {
    let mut a = fresh(7, 9);
    expect_pending(a.start_auction(3, 100, 60, 1_000, 42));
    assert_eq!(expect_err(a.start_auction(3, 101, 60, 1_001, 42)), AuctionError::WrongParams);
    assert_eq!(
        a.transaction,
        Some(Transaction::StartAuction { tamagotchi_id: 3, bid: 100, duration: 60 }),
    );
}

#[test]
fn start_over_pending_settle_is_wrong_tx() {
    let mut a = fresh(7, 9);
    a.transaction = Some(Transaction::SettleAuction { transaction_id: 5 });
    assert_eq!(expect_err(a.start_auction(3, 100, 60, 1_000, 7)), AuctionError::WrongTx);
}

#[test]
fn unreadable_owner_reply_leaves_pending_start() {
    let mut a = fresh(7, 9);
    let (step, _) = expect_pending(a.start_auction(3, 100, 60, 1_000, 42));
    assert_eq!(
        expect_err(a.on_reply(step, CollabReply::NoReply, 42, 1_000)),
        AuctionError::WrongReceivedMessage,
    );
    assert_eq!(
        a.transaction,
        Some(Transaction::StartAuction { tamagotchi_id: 3, bid: 100, duration: 60 }),
    );
    assert_eq!(a.status, Status::ReadyToStart);
}

#[test]
fn foreign_owner_is_not_owner_and_keeps_pending() {
    let mut a = fresh(7, 9);
    let (step, _) = expect_pending(a.start_auction(3, 100, 60, 1_000, 42));
    assert_eq!(
        expect_err(a.on_reply(step, CollabReply::OwnerIs { owner: 999 }, 42, 1_000)),
        AuctionError::NotOwner,
    );
    assert!(a.transaction.is_some());
}

#[test]
fn refused_ownership_transfer_aborts_start() {
    let mut a = fresh(7, 9);
    let (step, _) = expect_pending(a.start_auction(3, 100, 60, 1_000, 42));
    let next = a.on_reply(step, CollabReply::OwnerIs { owner: 42 }, 42, 1_000);
    let (step, _) = expect_pending(next);
    assert_eq!(
        expect_err(a.on_reply(step, CollabReply::TransferOwnerFailed, 42, 1_000)),
        AuctionError::UnableToChangeOwner,
    );
    assert_eq!(a.transaction, None);
    assert_eq!(a.status, Status::ReadyToStart);
}

#[test]
fn bid_before_start_is_wrong_state() {
    let mut a = fresh(7, 9);
    assert_eq!(expect_err(a.make_bid(150, 11, 1_000)), AuctionError::WrongState);
}

#[test]
fn bid_not_exceeding_current_is_wrong_bid() {
    let mut a = started_auction();
    assert_eq!(expect_err(a.make_bid(100, 11, 1_010)), AuctionError::WrongBid);
    assert_eq!(expect_err(a.make_bid(99, 11, 1_010)), AuctionError::WrongBid);
    assert_eq!(a.transaction, None);
    assert_eq!(a.current_bid, 100);
}

#[test]
fn bid_resume_by_other_caller_is_wrong_tx() {
    let mut a = started_auction();
    expect_pending(a.make_bid(150, 11, 1_010));
    assert_eq!(expect_err(a.make_bid(150, 22, 1_011)), AuctionError::WrongTx);
    assert_eq!(expect_err(a.make_bid(160, 11, 1_011)), AuctionError::WrongTx);
}

#[test]
fn refused_charge_aborts_bid() {
    let mut a = started_auction();
    let (step, _) = expect_pending(a.make_bid(150, 11, 1_010));
    assert_eq!(
        expect_err(a.on_reply(step, CollabReply::LedgerFailed, 11, 1_010)),
        AuctionError::UnableToTransferTokens,
    );
    assert_eq!(a.transaction, None);
    assert_eq!(a.current_bid, 100);
    assert_eq!(a.current_bidder, 0);
}

#[test]
fn settle_before_deadline_is_wrong_state() {
    let mut a = started_auction();
    assert_eq!(expect_err(a.settle_auction(5, 1_059)), AuctionError::WrongState);
}

#[test]
fn settle_over_pending_start_is_wrong_tx() {
    let mut a = fresh(7, 9);
    expect_pending(a.start_auction(3, 100, 60, 1_000, 42));
    assert_eq!(expect_err(a.settle_auction(5, 2_000)), AuctionError::WrongTx);
}

#[test]
fn failed_owner_restore_keeps_pending_settle() {
    let mut a = started_auction();
    let (step, _) = expect_pending(a.settle_auction(5, 2_000));
    let next = a.on_reply(step, CollabReply::OwnerIs { owner: 7 }, 5, 2_000);
    let (step, _) = expect_pending(next);
    assert_eq!(
        expect_err(a.on_reply(step, CollabReply::TransferOwnerFailed, 5, 2_000)),
        AuctionError::RerunTransaction,
    );
    assert_eq!(a.transaction, Some(Transaction::SettleAuction { transaction_id: 0 }));
}

#[test]
fn resume_without_pending_is_no_tx() {
    let a = fresh(7, 9);
    assert_eq!(
        expect_err(a.resume(Transaction::SettleAuction { transaction_id: 0 })),
        AuctionError::NoTx,
    );
}

#[test]
fn resume_with_unequal_transaction_is_wrong_tx() {
    let mut a = fresh(7, 9);
    expect_pending(a.start_auction(3, 100, 60, 1_000, 42));
    assert_eq!(
        expect_err(a.resume(Transaction::StartAuction { tamagotchi_id: 3, bid: 99, duration: 60 })),
        AuctionError::WrongTx,
    );
}

#[test]
fn reservation_record_cannot_be_driven() {
    let a = fresh(7, 9);
    assert_eq!(expect_err(a.complete_tx(Transaction::MakeReservation)), AuctionError::WrongTx);
}
