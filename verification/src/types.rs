//! Plain data carried between the auction engine, its callers, and the host
//! loop that performs the external calls.
//!
//! Identities are modelled as plain integers; the zero identity stands for
//! "absent" (no bidder yet, no asset under auction).

use vstd::prelude::*;

verus! {

/// Identity of an actor (a contract instance or a user account).
pub type ActorId = u64;

/// Identity of the unique asset under auction.
pub type TamagotchiId = ActorId;

/// A fungible amount offered for the asset.
pub type Bid = u128;

/// Counter value used to key a ledger transfer; the ledger deduplicates
/// repeated submissions of the same id.
pub type TransactionId = u64;

/// A prepaid retry credit handed out by the host's reservation primitive.
pub type ReservationId = u64;

/// Shortest duration, in timestamp units, an auction may run for.
pub const MIN_DURATION: u64 = 60;

/// Phase of the auction cycle.
#[derive(Clone, Copy, Debug, PartialEq, Eq, Structural)]
pub enum Status {
    ReadyToStart,
    InProcess,
}

/// The single persisted record of a multi-step operation that has begun side
/// effects but is not yet confirmed complete.
#[derive(Clone, Copy, Debug, PartialEq, Eq, Structural)]
pub enum Transaction {
    StartAuction { tamagotchi_id: TamagotchiId, bid: Bid, duration: u64 },
    MakeBid { transaction_id: TransactionId, bidder: ActorId, bid: Bid },
    SettleAuction { transaction_id: TransactionId },
    MakeReservation,
}

/// Caller-facing request shapes.
#[derive(Clone, Copy, Debug, PartialEq, Eq, Structural)]
pub enum AuctionAction {
    StartAuction { tamagotchi_id: TamagotchiId, minimum_bid: Bid, duration: u64 },
    MakeBid { bid: Bid },
    SettleAuction,
    MakeReservation,
    CompleteTx(Transaction),
}

/// Reply reported to the caller when an operation reaches a terminal outcome.
#[derive(Clone, Copy, Debug, PartialEq, Eq, Structural)]
pub enum AuctionEvent {
    AuctionStarted,
    BidMade { bid: Bid },
    AuctionSettled,
    ReservationMade,
}

/// Why an operation did not succeed.
#[derive(Clone, Copy, Debug, PartialEq, Eq, Structural)]
pub enum AuctionError {
    /// The auction is in the wrong phase, or settlement was attempted early.
    WrongState,
    /// A resumed `StartAuction` was given parameters differing from the
    /// pending record.
    WrongParams,
    /// The asset registry's reply could not be understood.
    WrongReceivedMessage,
    /// The caller does not own the asset it tried to put under auction.
    NotOwner,
    /// The registry refused to move the asset to the auctioneer; the pending
    /// record is aborted.
    UnableToChangeOwner,
    /// The pending transaction (or the given one) is of a kind the operation
    /// cannot resume.
    WrongTx,
    /// The requested duration is below [`MIN_DURATION`].
    WrongDuration,
    /// The offered bid does not exceed the current one.
    WrongBid,
    /// A later sub-step failed after an earlier one committed; the pending
    /// record is kept so a retry completes the missing steps.
    RerunTransaction,
    /// The ledger refused the bidder's payment; the pending record is aborted.
    UnableToTransferTokens,
    /// A resume was requested but no transaction is pending.
    NoTx,
}

/// The one external call the host must perform next.
#[derive(Clone, Copy, Debug, PartialEq, Eq, Structural)]
pub enum Effect {
    /// Ask the asset registry who currently owns `asset`.
    QueryOwner { asset: TamagotchiId },
    /// Ask the asset registry to move `asset` to `to`.
    TransferOwner { asset: TamagotchiId, to: ActorId },
    /// Ask the value ledger to move `amount` from `from` to `to`, keyed by
    /// `tx_id` for deduplication.
    LedgerTransfer {
        ledger: ActorId,
        tx_id: TransactionId,
        from: ActorId,
        to: ActorId,
        amount: Bid,
    },
}

/// What the collaborator answered to the matching [`Effect`].
#[derive(Clone, Copy, Debug, PartialEq, Eq, Structural)]
pub enum CollabReply {
    /// The registry names the asset's current owner.
    OwnerIs { owner: ActorId },
    /// The registry's reply to an ownership query could not be decoded.
    NoReply,
    TransferOwnerOk,
    TransferOwnerFailed,
    LedgerOk,
    LedgerFailed,
}

/// Where within the commit protocol a suspended run stands; handed back to
/// the engine together with the collaborator's reply.
#[derive(Clone, Copy, Debug, PartialEq, Eq, Structural)]
pub enum TxStep {
    /// Awaiting the owner of the asset a `StartAuction` names.
    StartQueryOwner { tamagotchi_id: TamagotchiId, bid: Bid, duration: u64 },
    /// Awaiting the registry moving the asset to the auctioneer; `owner` is
    /// the owner the registry reported a step earlier.
    StartChangeOwner { tamagotchi_id: TamagotchiId, bid: Bid, duration: u64, owner: ActorId },
    /// Awaiting the ledger charging the new bidder.
    BidCharge { transaction_id: TransactionId, bidder: ActorId, bid: Bid },
    /// Awaiting the ledger refunding the previous bidder.
    BidRefund { transaction_id: TransactionId, bidder: ActorId, bid: Bid },
    /// Awaiting the owner of the asset at settlement.
    SettleQueryOwner { transaction_id: TransactionId },
    /// Awaiting the registry returning the asset to its previous owner
    /// (settlement without any bid).
    SettleRestoreOwner { transaction_id: TransactionId },
    /// Awaiting the ledger paying the proceeds to the previous owner.
    SettlePay { transaction_id: TransactionId },
    /// Awaiting the registry handing the asset to the winning bidder.
    SettleGiveToWinner { transaction_id: TransactionId },
}

/// Outcome of one engine call: either the run suspends on an external call,
/// or it reaches a terminal result.
#[derive(Clone, Copy, Debug, PartialEq, Eq)]
pub enum Progress {
    /// Perform `effect`, then hand its reply and `step` back to the engine.
    Pending { step: TxStep, effect: Effect },
    /// The operation is over.  When `schedule_settle` holds, the host must
    /// additionally schedule an immediate self-directed settle request, so
    /// settlement is eventually attempted even with no further bids.
    Finished { result: Result<AuctionEvent, AuctionError>, schedule_settle: bool },
}

} // verus!
