//! Laws of the transition system.
//!
//! [`inv`] holds of the zero-valued initial record and is preserved by every
//! transition, so it holds of all states reachable through the operations.
//! The replayed-step hypothesis `step_wf` used by the reply transitions is
//! itself discharged along any run: the `emits_consistent_step` lemmas show
//! that every `Pending` the engine hands out satisfies it of the state the
//! engine leaves behind.

use crate::protocol::{
    finished, inv, make_bid_tr, make_reservation_tr, on_interruption_tr, on_reply_tr,
    reply_matches, reset, resume_tr, settle_auction_tr, start_auction_tr, step_wf,
};
use crate::state::AuctionView;
use crate::types::{
    ActorId, AuctionError, AuctionEvent, Bid, CollabReply, Effect, Progress, ReservationId,
    Status, TamagotchiId, Transaction, TxStep, MIN_DURATION,
};
use vstd::prelude::*;

verus! {

/// The invariant holds of the record a contract instance is created with.
pub proof fn lemma_default_satisfies_inv()
    ensures
        inv(AuctionView::initial()),
{
}

/// Starting an auction preserves the invariant.
pub proof fn lemma_start_auction_preserves_inv(
    pre: AuctionView,
    tamagotchi_id: TamagotchiId,
    minimum_bid: Bid,
    duration: u64,
)
    requires
        inv(pre),
    ensures
        inv(start_auction_tr(pre, tamagotchi_id, minimum_bid, duration).0),
{
}

/// Bidding preserves the invariant; in particular a freshly persisted bid
/// record strictly exceeds the current bid.
pub proof fn lemma_make_bid_preserves_inv(pre: AuctionView, bid: Bid, source: ActorId)
    requires
        inv(pre),
    ensures
        inv(make_bid_tr(pre, bid, source).0),
{
}

/// Settling preserves the invariant.  The one excluded input: settling an
/// idle, never-started auction (ready to start, nothing pending, deadline
/// zero) would persist a `SettleAuction` record outside `InProcess`.
pub proof fn lemma_settle_auction_preserves_inv(pre: AuctionView, now: u64)
    requires
        inv(pre),
        pre.transaction is None && now >= pre.ended_at ==> pre.status == Status::InProcess,
    ensures
        inv(settle_auction_tr(pre, now).0),
{
}

/// Banking a retry credit preserves the invariant.
pub proof fn lemma_make_reservation_preserves_inv(pre: AuctionView, credit: ReservationId)
    requires
        inv(pre),
    ensures
        inv(make_reservation_tr(pre, credit).0),
{
}

/// The interruption callback preserves the invariant.
pub proof fn lemma_on_interruption_preserves_inv(pre: AuctionView)
    requires
        inv(pre),
    ensures
        inv(on_interruption_tr(pre).0),
{
}

/// Processing a collaborator reply preserves the invariant, for any reply,
/// provided the replayed step agrees with the pending record it was derived
/// from.
pub proof fn lemma_on_reply_preserves_inv(
    pre: AuctionView,
    step: TxStep,
    reply: CollabReply,
    source: ActorId,
    now: u64,
)
    requires
        inv(pre),
        step_wf(pre, step),
    ensures
        inv(on_reply_tr(pre, step, reply, source, now).0),
{
}

/// Every step `start_auction` suspends on agrees with the state it leaves.
pub proof fn lemma_start_auction_emits_consistent_step(
    pre: AuctionView,
    tamagotchi_id: TamagotchiId,
    minimum_bid: Bid,
    duration: u64,
)
    ensures
        start_auction_tr(pre, tamagotchi_id, minimum_bid, duration).1 matches Progress::Pending {
            step,
            ..
        } ==> step_wf(start_auction_tr(pre, tamagotchi_id, minimum_bid, duration).0, step),
{
}

/// Every step `make_bid` suspends on agrees with the state it leaves.
pub proof fn lemma_make_bid_emits_consistent_step(pre: AuctionView, bid: Bid, source: ActorId)
    ensures
        make_bid_tr(pre, bid, source).1 matches Progress::Pending { step, .. } ==> step_wf(
            make_bid_tr(pre, bid, source).0,
            step,
        ),
{
}

/// Every step `settle_auction` suspends on agrees with the state it leaves.
pub proof fn lemma_settle_auction_emits_consistent_step(pre: AuctionView, now: u64)
    ensures
        settle_auction_tr(pre, now).1 matches Progress::Pending { step, .. } ==> step_wf(
            settle_auction_tr(pre, now).0,
            step,
        ),
{
}

/// Every step an explicit resume suspends on agrees with the (unchanged)
/// state.
pub proof fn lemma_resume_emits_consistent_step(pre: AuctionView, tx: Transaction)
    ensures
        resume_tr(pre, tx) matches Progress::Pending { step, .. } ==> step_wf(pre, step),
{
}

/// Every step a reply transition suspends on agrees with the state it
/// leaves, provided the step it re-entered at did.
pub proof fn lemma_on_reply_emits_consistent_step(
    pre: AuctionView,
    step: TxStep,
    reply: CollabReply,
    source: ActorId,
    now: u64,
)
    requires
        step_wf(pre, step),
    ensures
        on_reply_tr(pre, step, reply, source, now).1 matches Progress::Pending {
            step: next,
            ..
        } ==> step_wf(on_reply_tr(pre, step, reply, source, now).0, next),
{
}

/// A host that answers each step with a reply of the matching shape never
/// has a run misread: the uninterpretable-message outcome arises only from
/// an ownership query whose reply could not be decoded.
pub proof fn lemma_matching_reply_never_misread(
    pre: AuctionView,
    step: TxStep,
    reply: CollabReply,
    source: ActorId,
    now: u64,
)
    requires
        reply_matches(step, reply),
    ensures
        on_reply_tr(pre, step, reply, source, now).1 == finished(
            Err::<AuctionEvent, AuctionError>(AuctionError::WrongReceivedMessage),
        ) ==> (step is StartQueryOwner || step is SettleQueryOwner) && reply is NoReply,
{
}

/// Starting an auction is idempotent while the start is still pending: a
/// second call with identical parameters changes nothing and yields the very
/// same suspended step, an ownership query — so no duplicate ownership
/// transfer is ever requested.
pub proof fn lemma_start_auction_idempotent(
    pre: AuctionView,
    tamagotchi_id: TamagotchiId,
    minimum_bid: Bid,
    duration: u64,
)
    requires
        pre.status == Status::ReadyToStart,
        pre.transaction is None,
        duration >= MIN_DURATION,
    ensures
        ({
            let (s1, p1) = start_auction_tr(pre, tamagotchi_id, minimum_bid, duration);
            &&& start_auction_tr(s1, tamagotchi_id, minimum_bid, duration) == (s1, p1)
            &&& p1 == Progress::Pending {
                step: TxStep::StartQueryOwner { tamagotchi_id, bid: minimum_bid, duration },
                effect: Effect::QueryOwner { asset: tamagotchi_id },
            }
        }),
{
}

/// A bid that does not exceed the current one is always rejected with
/// `WrongBid`, and nothing changes.
pub proof fn lemma_make_bid_rejects_low_bid(pre: AuctionView, bid: Bid, source: ActorId)
    requires
        pre.status == Status::InProcess,
        pre.transaction is None,
        bid <= pre.current_bid,
    ensures
        make_bid_tr(pre, bid, source) == (pre, finished(Err(AuctionError::WrongBid))),
{
}

/// Accepted bids are strictly increasing: a reply that completes a bid sets
/// the current bid to the persisted one, which strictly exceeds the prior
/// current bid; and no reply ever lowers the current bid while the auction
/// stays in process.
pub proof fn lemma_on_reply_monotonic(
    pre: AuctionView,
    step: TxStep,
    reply: CollabReply,
    source: ActorId,
    now: u64,
)
    requires
        inv(pre),
        step_wf(pre, step),
    ensures
        ({
            let (post, p) = on_reply_tr(pre, step, reply, source, now);
            &&& (p matches Progress::Finished {
                result: Ok(AuctionEvent::BidMade { bid }),
                ..
            } ==> bid > pre.current_bid && post.current_bid == bid)
            &&& (pre.status == Status::InProcess && post.status == Status::InProcess
                ==> post.current_bid >= pre.current_bid)
        }),
{
}

/// The caller-facing operations never move the current bid themselves: only
/// a ledger reply that completes a bid does, and [`lemma_on_reply_monotonic`]
/// shows it then strictly rises.  Together the two give monotonicity over any
/// run of the machine.
pub proof fn lemma_caller_operations_keep_current_bid(
    pre: AuctionView,
    tamagotchi_id: TamagotchiId,
    minimum_bid: Bid,
    duration: u64,
    bid: Bid,
    source: ActorId,
    now: u64,
)
    ensures
        start_auction_tr(pre, tamagotchi_id, minimum_bid, duration).0.current_bid
            == pre.current_bid,
        make_bid_tr(pre, bid, source).0.current_bid == pre.current_bid,
        settle_auction_tr(pre, now).0.current_bid == pre.current_bid,
{
}

/// Settlement totality: however a run reaches the `AuctionSettled` outcome,
/// the auction is reset whole — ready to start, no asset, no bidder, no
/// previous owner, no deadline, nothing pending — whether or not a bidder
/// existed.
pub proof fn lemma_settlement_totality(
    pre: AuctionView,
    step: TxStep,
    reply: CollabReply,
    source: ActorId,
    now: u64,
)
    ensures
        ({
            let (post, p) = on_reply_tr(pre, step, reply, source, now);
            p matches Progress::Finished { result: Ok(AuctionEvent::AuctionSettled), .. } ==> {
                &&& post == reset(pre)
                &&& post.status == Status::ReadyToStart
                &&& post.tamagotchi_id == 0
                &&& post.current_bidder == 0
                &&& post.prev_tmg_owner == 0
                &&& post.ended_at == 0
                &&& post.transaction is None
            }
        }),
{
}

} // verus!
