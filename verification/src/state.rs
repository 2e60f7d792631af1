//! The durable auction record and its mathematical view.

use crate::protocol::{
    complete_tx_tr, ends_at_fits, make_bid_tr, make_reservation_tr, on_interruption_tr,
    on_reply_tr, resume_tr, settle_auction_tr, start_auction_tr,
};
use crate::types::{
    ActorId, AuctionError, AuctionEvent, Bid, CollabReply, Effect, Progress, ReservationId,
    Status, TamagotchiId, Transaction, TransactionId, TxStep, MIN_DURATION,
};
use vstd::prelude::*;

verus! {

/// The single auction record a contract instance holds for its entire life.
///
/// It is created zero-valued and cycled between `ReadyToStart` and
/// `InProcess` by the operations below; it is never destroyed.
#[derive(Debug)]
pub struct Auction {
    /// The party running the auction; proceeds and refunds flow through it.
    pub auctioner: ActorId,
    /// The asset currently under auction (zero when idle).
    pub tamagotchi_id: TamagotchiId,
    pub status: Status,
    /// Highest accepted bid so far (the minimum bid until one is accepted).
    pub current_bid: Bid,
    /// Owner of the highest accepted bid; zero when no bid has been made.
    pub current_bidder: ActorId,
    /// The value ledger used for all fund movements.
    pub ft_contract_id: ActorId,
    /// Monotonically increasing (wrap-on-overflow) counter from which ledger
    /// transfer ids are drawn.
    pub transaction_id: TransactionId,
    /// Timestamp after which settlement is permitted.
    pub ended_at: u64,
    /// The asset owner recorded at auction start, to restore ownership if no
    /// bid is made.
    pub prev_tmg_owner: ActorId,
    /// The sole in-flight transaction record; the unit of resumability.
    pub transaction: Option<Transaction>,
    /// Prepaid retry credits, consumed front-first by the recovery path.
    pub reservations: Vec<ReservationId>,
}

/// Ghost image of an [`Auction`]: the same fields, with the credit list as a
/// sequence.  All contracts and transition functions speak of this view.
#[verifier::ext_equal]
pub struct AuctionView {
    pub auctioner: ActorId,
    pub tamagotchi_id: TamagotchiId,
    pub status: Status,
    pub current_bid: Bid,
    pub current_bidder: ActorId,
    pub ft_contract_id: ActorId,
    pub transaction_id: TransactionId,
    pub ended_at: u64,
    pub prev_tmg_owner: ActorId,
    pub transaction: Option<Transaction>,
    pub reservations: Seq<ReservationId>,
}

impl View for Auction {
    type V = AuctionView;

    open spec fn view(&self) -> AuctionView {
        AuctionView {
            auctioner: self.auctioner,
            tamagotchi_id: self.tamagotchi_id,
            status: self.status,
            current_bid: self.current_bid,
            current_bidder: self.current_bidder,
            ft_contract_id: self.ft_contract_id,
            transaction_id: self.transaction_id,
            ended_at: self.ended_at,
            prev_tmg_owner: self.prev_tmg_owner,
            transaction: self.transaction,
            reservations: self.reservations@,
        }
    }
}

impl AuctionView {
    /// The zero-valued record a contract instance starts its life with.
    pub open spec fn initial() -> AuctionView {
        AuctionView {
            auctioner: 0,
            tamagotchi_id: 0,
            status: Status::ReadyToStart,
            current_bid: 0,
            current_bidder: 0,
            ft_contract_id: 0,
            transaction_id: 0,
            ended_at: 0,
            prev_tmg_owner: 0,
            transaction: None,
            reservations: Seq::empty(),
        }
    }
}

impl Auction {
    /// Enter the commit protocol for `tx`: names the first external call of
    /// the transaction's kind, or rejects a kind that cannot be driven.
    /// Causes no state change by itself.
    pub fn complete_tx(&self, tx: Transaction) -> (r: Progress)
        ensures
            r == complete_tx_tr(self@, tx),
    {
        match tx {
            Transaction::StartAuction { tamagotchi_id, bid, duration } => Progress::Pending {
                step: TxStep::StartQueryOwner { tamagotchi_id, bid, duration },
                effect: Effect::QueryOwner { asset: tamagotchi_id },
            },
            Transaction::MakeBid { transaction_id, bidder, bid } => Progress::Pending {
                step: TxStep::BidCharge { transaction_id, bidder, bid },
                effect: Effect::LedgerTransfer {
                    ledger: self.ft_contract_id,
                    tx_id: transaction_id,
                    from: bidder,
                    to: self.auctioner,
                    amount: bid,
                },
            },
            Transaction::SettleAuction { transaction_id } => Progress::Pending {
                step: TxStep::SettleQueryOwner { transaction_id },
                effect: Effect::QueryOwner { asset: self.tamagotchi_id },
            },
            Transaction::MakeReservation => Progress::Finished {
                result: Err(AuctionError::WrongTx),
                schedule_settle: false,
            },
        }
    }

    /// Start an auction over `tamagotchi_id`, or resume an identical pending
    /// start.  `current_time` and `source` are bound by the host across the
    /// run's suspensions and consumed when the registry replies.
    #[allow(unused_variables)]
    pub fn start_auction(
        &mut self,
        tamagotchi_id: TamagotchiId,
        minimum_bid: Bid,
        duration: u64,
        current_time: u64,
        source: ActorId,
    ) -> (r: Progress)
        ensures
            final(self)@ == start_auction_tr(old(self)@, tamagotchi_id, minimum_bid, duration).0,
            r == start_auction_tr(old(self)@, tamagotchi_id, minimum_bid, duration).1,
    {
        if self.status != Status::ReadyToStart {
            return Progress::Finished {
                result: Err(AuctionError::WrongState),
                schedule_settle: false,
            };
        }
        match self.transaction {
            Some(Transaction::StartAuction { tamagotchi_id: p_id, bid: p_bid, duration: p_dur }) => {
                if p_id != tamagotchi_id || p_bid != minimum_bid || p_dur != duration {
                    Progress::Finished {
                        result: Err(AuctionError::WrongParams),
                        schedule_settle: false,
                    }
                } else {
                    self.complete_tx(
                        Transaction::StartAuction { tamagotchi_id, bid: minimum_bid, duration },
                    )
                }
            },
            Some(_) => Progress::Finished {
                result: Err(AuctionError::WrongTx),
                schedule_settle: false,
            },
            None => {
                if duration < MIN_DURATION {
                    Progress::Finished {
                        result: Err(AuctionError::WrongDuration),
                        schedule_settle: false,
                    }
                } else {
                    let tx = Transaction::StartAuction {
                        tamagotchi_id,
                        bid: minimum_bid,
                        duration,
                    };
                    self.transaction = Some(tx);
                    self.complete_tx(tx)
                }
            },
        }
    }

    /// Offer `bid`, or resume a pending bid by the same caller over the same
    /// amount.  A fresh bid draws two counter values: one keys the bidder's
    /// payment, the next the refund it may later owe the previous bidder.
    #[allow(unused_variables)]
    pub fn make_bid(&mut self, bid: Bid, source: ActorId, current_time: u64) -> (r: Progress)
        ensures
            final(self)@ == make_bid_tr(old(self)@, bid, source).0,
            r == make_bid_tr(old(self)@, bid, source).1,
    {
        if self.status != Status::InProcess {
            return Progress::Finished {
                result: Err(AuctionError::WrongState),
                schedule_settle: false,
            };
        }
        match self.transaction {
            Some(Transaction::MakeBid { transaction_id, bidder, bid: p_bid }) => {
                if bidder == source && bid == p_bid {
                    self.complete_tx(Transaction::MakeBid { transaction_id, bidder, bid: p_bid })
                } else {
                    Progress::Finished {
                        result: Err(AuctionError::WrongTx),
                        schedule_settle: false,
                    }
                }
            },
            Some(_) => Progress::Finished {
                result: Err(AuctionError::WrongTx),
                schedule_settle: false,
            },
            None => {
                if bid <= self.current_bid {
                    Progress::Finished {
                        result: Err(AuctionError::WrongBid),
                        schedule_settle: false,
                    }
                } else {
                    let transaction_id = self.transaction_id;
                    self.transaction_id = transaction_id.wrapping_add(2);
                    let tx = Transaction::MakeBid { transaction_id, bidder: source, bid };
                    self.transaction = Some(tx);
                    self.complete_tx(tx)
                }
            },
        }
    }

    /// Settle once the deadline has passed: resumes a pending `MakeBid` or
    /// `SettleAuction`, otherwise persists a fresh `SettleAuction` record.
    #[allow(unused_variables)]
    pub fn settle_auction(&mut self, source: ActorId, current_time: u64) -> (r: Progress)
        ensures
            final(self)@ == settle_auction_tr(old(self)@, current_time).0,
            r == settle_auction_tr(old(self)@, current_time).1,
    {
        if current_time < self.ended_at {
            return Progress::Finished {
                result: Err(AuctionError::WrongState),
                schedule_settle: false,
            };
        }
        match self.transaction {
            Some(Transaction::MakeBid { transaction_id, bidder, bid }) => {
                self.complete_tx(Transaction::MakeBid { transaction_id, bidder, bid })
            },
            Some(Transaction::SettleAuction { transaction_id }) => {
                self.complete_tx(Transaction::SettleAuction { transaction_id })
            },
            Some(_) => Progress::Finished {
                result: Err(AuctionError::WrongTx),
                schedule_settle: false,
            },
            None => {
                let transaction_id = self.transaction_id;
                self.transaction_id = transaction_id.wrapping_add(1);
                let tx = Transaction::SettleAuction { transaction_id };
                self.transaction = Some(tx);
                self.complete_tx(tx)
            },
        }
    }

    /// Re-enter a suspended run at `step` with the collaborator's `reply`.
    /// The host carries `source` and `current_time` from the operation that
    /// began the run.
    pub fn on_reply(
        &mut self,
        step: TxStep,
        reply: CollabReply,
        source: ActorId,
        current_time: u64,
    ) -> (r: Progress)
        requires
            ends_at_fits(step, current_time),
        ensures
            final(self)@ == on_reply_tr(old(self)@, step, reply, source, current_time).0,
            r == on_reply_tr(old(self)@, step, reply, source, current_time).1,
    {
        match step {
            TxStep::StartQueryOwner { tamagotchi_id, bid, duration } => match reply {
                CollabReply::OwnerIs { owner } => {
                    if owner == self.auctioner {
                        self.status = Status::InProcess;
                        self.current_bid = bid;
                        self.tamagotchi_id = tamagotchi_id;
                        self.ended_at = current_time + duration;
                        self.transaction = None;
                        Progress::Finished {
                            result: Ok(AuctionEvent::AuctionStarted),
                            schedule_settle: false,
                        }
                    } else if owner != source {
                        Progress::Finished {
                            result: Err(AuctionError::NotOwner),
                            schedule_settle: false,
                        }
                    } else {
                        Progress::Pending {
                            step: TxStep::StartChangeOwner { tamagotchi_id, bid, duration, owner },
                            effect: Effect::TransferOwner {
                                asset: tamagotchi_id,
                                to: self.auctioner,
                            },
                        }
                    }
                },
                _ => Progress::Finished {
                    result: Err(AuctionError::WrongReceivedMessage),
                    schedule_settle: false,
                },
            },
            TxStep::StartChangeOwner { tamagotchi_id, bid, duration, owner } => match reply {
                CollabReply::TransferOwnerOk => {
                    self.status = Status::InProcess;
                    self.current_bid = bid;
                    self.tamagotchi_id = tamagotchi_id;
                    self.prev_tmg_owner = owner;
                    self.ended_at = current_time + duration;
                    self.transaction = None;
                    Progress::Finished {
                        result: Ok(AuctionEvent::AuctionStarted),
                        schedule_settle: true,
                    }
                },
                _ => {
                    self.transaction = None;
                    Progress::Finished {
                        result: Err(AuctionError::UnableToChangeOwner),
                        schedule_settle: false,
                    }
                },
            },
            TxStep::BidCharge { transaction_id, bidder, bid } => match reply {
                CollabReply::LedgerOk => {
                    if self.current_bidder == 0 {
                        self.current_bid = bid;
                        self.current_bidder = bidder;
                        self.transaction = None;
                        Progress::Finished {
                            result: Ok(AuctionEvent::BidMade { bid }),
                            schedule_settle: false,
                        }
                    } else {
                        Progress::Pending {
                            step: TxStep::BidRefund { transaction_id, bidder, bid },
                            effect: Effect::LedgerTransfer {
                                ledger: self.ft_contract_id,
                                tx_id: transaction_id.wrapping_add(1),
                                from: self.auctioner,
                                to: self.current_bidder,
                                amount: self.current_bid,
                            },
                        }
                    }
                },
                _ => {
                    self.transaction = None;
                    Progress::Finished {
                        result: Err(AuctionError::UnableToTransferTokens),
                        schedule_settle: false,
                    }
                },
            },
            TxStep::BidRefund { transaction_id: _, bidder, bid } => match reply {
                CollabReply::LedgerOk => {
                    self.current_bid = bid;
                    self.current_bidder = bidder;
                    self.transaction = None;
                    Progress::Finished {
                        result: Ok(AuctionEvent::BidMade { bid }),
                        schedule_settle: false,
                    }
                },
                _ => Progress::Finished {
                    result: Err(AuctionError::RerunTransaction),
                    schedule_settle: false,
                },
            },
            TxStep::SettleQueryOwner { transaction_id } => match reply {
                CollabReply::OwnerIs { owner } => {
                    if owner != self.auctioner {
                        self.reset_to_idle();
                        Progress::Finished {
                            result: Ok(AuctionEvent::AuctionSettled),
                            schedule_settle: false,
                        }
                    } else if self.current_bidder == 0 {
                        Progress::Pending {
                            step: TxStep::SettleRestoreOwner { transaction_id },
                            effect: Effect::TransferOwner {
                                asset: self.tamagotchi_id,
                                to: self.prev_tmg_owner,
                            },
                        }
                    } else {
                        Progress::Pending {
                            step: TxStep::SettlePay { transaction_id },
                            effect: Effect::LedgerTransfer {
                                ledger: self.ft_contract_id,
                                tx_id: transaction_id,
                                from: self.auctioner,
                                to: self.prev_tmg_owner,
                                amount: self.current_bid,
                            },
                        }
                    }
                },
                _ => Progress::Finished {
                    result: Err(AuctionError::WrongReceivedMessage),
                    schedule_settle: false,
                },
            },
            TxStep::SettleRestoreOwner { .. } => match reply {
                CollabReply::TransferOwnerOk => {
                    self.reset_to_idle();
                    Progress::Finished {
                        result: Ok(AuctionEvent::AuctionSettled),
                        schedule_settle: false,
                    }
                },
                _ => Progress::Finished {
                    result: Err(AuctionError::RerunTransaction),
                    schedule_settle: false,
                },
            },
            TxStep::SettlePay { transaction_id } => match reply {
                CollabReply::LedgerOk => Progress::Pending {
                    step: TxStep::SettleGiveToWinner { transaction_id },
                    effect: Effect::TransferOwner {
                        asset: self.tamagotchi_id,
                        to: self.current_bidder,
                    },
                },
                _ => Progress::Finished {
                    result: Err(AuctionError::RerunTransaction),
                    schedule_settle: false,
                },
            },
            TxStep::SettleGiveToWinner { .. } => match reply {
                CollabReply::TransferOwnerOk => {
                    self.reset_to_idle();
                    Progress::Finished {
                        result: Ok(AuctionEvent::AuctionSettled),
                        schedule_settle: false,
                    }
                },
                _ => Progress::Finished {
                    result: Err(AuctionError::RerunTransaction),
                    schedule_settle: false,
                },
            },
        }
    }

    /// Resume by explicit request: only the transaction equal to the pending
    /// one may re-enter the protocol.
    pub fn resume(&self, tx: Transaction) -> (r: Progress)
        ensures
            r == resume_tr(self@, tx),
    {
        match self.transaction {
            Some(pending) => {
                if pending == tx {
                    self.complete_tx(tx)
                } else {
                    Progress::Finished {
                        result: Err(AuctionError::WrongTx),
                        schedule_settle: false,
                    }
                }
            },
            None => Progress::Finished {
                result: Err(AuctionError::NoTx),
                schedule_settle: false,
            },
        }
    }

    /// Bank one prepaid retry credit obtained from the host's reservation
    /// primitive.
    pub fn make_reservation(&mut self, credit: ReservationId) -> (r: Result<
        AuctionEvent,
        AuctionError,
    >)
        ensures
            final(self)@ == make_reservation_tr(old(self)@, credit).0,
            r == make_reservation_tr(old(self)@, credit).1,
    {
        self.reservations.push(credit);
        Ok(AuctionEvent::ReservationMade)
    }

    /// The interruption callback's decision: consume the front retry credit,
    /// if any, to re-submit the pending transaction, if any.  The host sends
    /// the returned transaction to the auction itself as a resume request
    /// funded by the returned credit.
    pub fn on_interruption(&mut self) -> (r: Option<(ReservationId, Transaction)>)
        ensures
            final(self)@ == on_interruption_tr(old(self)@).0,
            r == on_interruption_tr(old(self)@).1,
    {
        match self.transaction {
            Some(tx) => {
                if self.reservations.len() == 0 {
                    None
                } else {
                    let credit = self.reservations.remove(0);
                    proof {
                        assert(self.reservations@ =~= old(self).reservations@.drop_first());
                    }
                    Some((credit, tx))
                }
            },
            None => None,
        }
    }

    /// Clear phase, identities, deadline and the pending record; the counter,
    /// the collaborator identities and the retry credits survive the cycle.
    fn reset_to_idle(&mut self)
        ensures
            final(self)@ == crate::protocol::reset(old(self)@),
    {
        self.transaction = None;
        self.prev_tmg_owner = 0;
        self.current_bidder = 0;
        self.status = Status::ReadyToStart;
        self.ended_at = 0;
        self.tamagotchi_id = 0;
    }
}

impl Default for Auction {
    /// The zero-valued record created once at contract instantiation.
    fn default() -> (a: Auction)
        ensures
            a@ == AuctionView::initial(),
    {
        let a = Auction {
            auctioner: 0,
            tamagotchi_id: 0,
            status: Status::ReadyToStart,
            current_bid: 0,
            current_bidder: 0,
            ft_contract_id: 0,
            transaction_id: 0,
            ended_at: 0,
            prev_tmg_owner: 0,
            transaction: None,
            reservations: Vec::new(),
        };
        proof {
            assert(a@ =~= AuctionView::initial());
        }
        a
    }
}

} // verus!
