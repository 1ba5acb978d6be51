//! One transition of the swap: the operations that lead from a recorded state
//! to the next, and the decisions taken between them.
//!
//! A swap that is neither where its caller wants it nor in a final state has
//! exactly one [`Transition`] in flight. The transition names the operation
//! to carry out ([`Transition::action`]), takes in how it ended
//! ([`Transition::step`]) and thereby either moves on to the next operation or
//! hands out the state that was reached. The last operation of every
//! transition is to record the new state, so a state is only ever handed out
//! after the store has confirmed it.
//!
//! Four operations are races between an operation that makes progress and
//! the expiry of the cancel timelock. Whichever ends first is reported, and
//! that alone decides where the transition goes.

use vstd::prelude::*;

use crate::error::SwapError;
use crate::negotiation::{
    HandshakeAction, HandshakeEvent, HandshakeEventView, HandshakeProgress,
    HandshakeProgressView, Negotiation, NegotiationView,
};
use crate::state::{
    BobState, BobStateView, ExpiredTimelocks, InitialSetup, LockProof, LockProofView,
    NegotiatedSetup, SwapAmounts, TransferProof,
};

verus! {

/// The operation a transition needs carried out next.
#[derive(Clone, Copy, Debug, PartialEq, Eq, Structural)]
pub enum Action {
    /// Make sure the connection to the counterparty is up.
    Dial,
    /// Carry out an operation of the handshake.
    Handshake(HandshakeAction),
    /// Build the Bitcoin lock transaction, broadcast it and wait until it is
    /// confirmed.
    LockBtc,
    /// Ask which timelocks have expired.
    QueryTimelocks,
    /// Read the current height of the Monero chain, from which the watch for
    /// the counterparty's lock will start.
    ReadMoneroHeight,
    /// Race: wait for the counterparty's transfer proof, or for the cancel
    /// timelock to expire.
    AwaitTransferProof,
    /// Race: wait until the counterparty's Monero lock is confirmed, or for
    /// the cancel timelock to expire.
    AwaitXmrLock,
    /// Race: send the encrypted signature to the counterparty, or see the
    /// cancel timelock expire.
    SendEncSig,
    /// Race: wait for the counterparty's redeem transaction, or for the
    /// cancel timelock to expire.
    AwaitBtcRedeem,
    /// Claim the Monero with the key that the redeem transaction revealed.
    ClaimXmr,
    /// Look for a cancel transaction that is already confirmed.
    CheckCancel,
    /// Build and broadcast the cancel transaction.
    SubmitCancel,
    /// Build the refund transaction, broadcast it and wait until it is
    /// confirmed.
    RefundBtc,
    /// Record the state that was reached.
    Persist,
}

/// How the operation that was asked for ended.
#[derive(Clone, Debug, PartialEq, Eq)]
pub enum Event {
    /// It succeeded and there is nothing to report.
    Completed,
    /// It failed.
    Failed,
    /// The outcome of an operation of the handshake.
    Handshake(HandshakeEvent),
    /// The Bitcoin lock transaction is confirmed.
    BtcLocked(LockProof),
    /// The timelocks that have expired.
    Timelocks(ExpiredTimelocks),
    /// The height of the Monero chain.
    MoneroHeight(u64),
    /// The counterparty's transfer proof arrived.
    TransferProof(TransferProof),
    /// The counterparty's Monero lock is confirmed.
    XmrLocked(LockProof),
    /// The counterparty's redeem transaction was seen.
    BtcRedeemed(LockProof),
    /// The cancel timelock expired before the other side of the race ended.
    CancelTimelockExpired,
}

/// A transition in flight: the operation that is pending, with what the
/// transition holds at that point.
#[derive(Clone, Debug, PartialEq, Eq)]
pub enum Transition {
    /// From `Started`: connecting to the counterparty.
    Dialing { state0: InitialSetup, amounts: SwapAmounts },
    /// From `Started`: in the handshake.
    Negotiating(Negotiation),
    /// From `Negotiated`: connecting to the counterparty, so that no Bitcoin
    /// is locked while it cannot be reached.
    DialingToLock(NegotiatedSetup),
    /// From `Negotiated`: locking the Bitcoin.
    LockingBtc(NegotiatedSetup),
    /// From `BtcLocked`: asking for the expired timelocks.
    BtcLockedTimelocks(LockProof),
    /// From `BtcLocked`: connecting to the counterparty.
    BtcLockedDialing(LockProof),
    /// From `BtcLocked`: reading the Monero height.
    ReadingMoneroHeight(LockProof),
    /// From `BtcLocked`: racing the transfer proof against the timelock.
    AwaitingTransferProof { proof: LockProof, height: u64 },
    /// From `BtcLocked`: racing the Monero lock against the timelock.
    AwaitingXmrLock { proof: LockProof, transfer: TransferProof, height: u64 },
    /// From `XmrLocked`: asking for the expired timelocks.
    XmrLockedTimelocks(LockProof),
    /// From `XmrLocked`: connecting to the counterparty.
    XmrLockedDialing(LockProof),
    /// From `XmrLocked`: racing the encrypted signature against the timelock.
    SendingEncSig(LockProof),
    /// From `EncSigSent`: asking for the expired timelocks.
    EncSigSentTimelocks(LockProof),
    /// From `EncSigSent`: racing the redeem transaction against the timelock.
    AwaitingBtcRedeem(LockProof),
    /// From `BtcRedeemed`: claiming the Monero.
    ClaimingXmr(LockProof),
    /// From `CancelTimelockExpired`: looking for a confirmed cancel
    /// transaction.
    CheckingCancel(LockProof),
    /// From `CancelTimelockExpired`: broadcasting the cancel transaction.
    SubmittingCancel(LockProof),
    /// From `BtcCancelled`: asking for the expired timelocks.
    BtcCancelledTimelocks(LockProof),
    /// From `BtcCancelled`: refunding the Bitcoin.
    RefundingBtc(LockProof),
    /// From any state: recording the state that the transition arrived at.
    Recording(BobState),
}

/// Where a transition stands after an outcome was taken in.
#[derive(Clone, Debug, PartialEq, Eq)]
pub enum Progress {
    /// Another operation is pending.
    Continue(Transition),
    /// The transition is over: this state was reached and is recorded.
    Recorded(BobState),
}

/// What there is to do for a swap in a given state.
#[derive(Clone, Debug, PartialEq, Eq)]
pub enum Entry {
    /// Nothing: the state is the one asked for, or it is final.
    Finished(BobState),
    /// The transition that leaves the state.
    InFlight(Transition),
}

/// What an [`Event`] holds.
pub enum EventView {
    Completed,
    Failed,
    Handshake(HandshakeEventView),
    BtcLocked(LockProofView),
    Timelocks(ExpiredTimelocks),
    MoneroHeight(u64),
    TransferProof(Seq<u8>),
    XmrLocked(LockProofView),
    BtcRedeemed(LockProofView),
    CancelTimelockExpired,
}

/// What a [`Transition`] holds.
pub enum TransitionView {
    Dialing { state0: Seq<u8>, amounts: SwapAmounts },
    Negotiating(NegotiationView),
    DialingToLock(Seq<u8>),
    LockingBtc(Seq<u8>),
    BtcLockedTimelocks(LockProofView),
    BtcLockedDialing(LockProofView),
    ReadingMoneroHeight(LockProofView),
    AwaitingTransferProof { proof: LockProofView, height: u64 },
    AwaitingXmrLock { proof: LockProofView, transfer: Seq<u8>, height: u64 },
    XmrLockedTimelocks(LockProofView),
    XmrLockedDialing(LockProofView),
    SendingEncSig(LockProofView),
    EncSigSentTimelocks(LockProofView),
    AwaitingBtcRedeem(LockProofView),
    ClaimingXmr(LockProofView),
    CheckingCancel(LockProofView),
    SubmittingCancel(LockProofView),
    BtcCancelledTimelocks(LockProofView),
    RefundingBtc(LockProofView),
    Recording(BobStateView),
}

/// What a [`Progress`] holds.
pub enum ProgressView {
    Continue(TransitionView),
    Recorded(BobStateView),
}

/// What an [`Entry`] holds.
pub enum EntryView {
    Finished(BobStateView),
    InFlight(TransitionView),
}

impl View for Event {
    type V = EventView;

    open spec fn view(&self) -> EventView {
        match *self {
            Event::Completed => EventView::Completed,
            Event::Failed => EventView::Failed,
            Event::Handshake(outcome) => EventView::Handshake(outcome@),
            Event::BtcLocked(proof) => EventView::BtcLocked(proof@),
            Event::Timelocks(expired) => EventView::Timelocks(expired),
            Event::MoneroHeight(height) => EventView::MoneroHeight(height),
            Event::TransferProof(transfer) => EventView::TransferProof(transfer@),
            Event::XmrLocked(proof) => EventView::XmrLocked(proof@),
            Event::BtcRedeemed(proof) => EventView::BtcRedeemed(proof@),
            Event::CancelTimelockExpired => EventView::CancelTimelockExpired,
        }
    }
}

impl View for Transition {
    type V = TransitionView;

    open spec fn view(&self) -> TransitionView {
        match *self {
            Transition::Dialing { state0, amounts } => TransitionView::Dialing {
                state0: state0@,
                amounts,
            },
            Transition::Negotiating(negotiation) => TransitionView::Negotiating(negotiation@),
            Transition::DialingToLock(state2) => TransitionView::DialingToLock(state2@),
            Transition::LockingBtc(state2) => TransitionView::LockingBtc(state2@),
            Transition::BtcLockedTimelocks(proof) => TransitionView::BtcLockedTimelocks(proof@),
            Transition::BtcLockedDialing(proof) => TransitionView::BtcLockedDialing(proof@),
            Transition::ReadingMoneroHeight(proof) => TransitionView::ReadingMoneroHeight(proof@),
            Transition::AwaitingTransferProof {
                proof,
                height,
            } => TransitionView::AwaitingTransferProof { proof: proof@, height },
            Transition::AwaitingXmrLock {
                proof,
                transfer,
                height,
            } => TransitionView::AwaitingXmrLock { proof: proof@, transfer: transfer@, height },
            Transition::XmrLockedTimelocks(proof) => TransitionView::XmrLockedTimelocks(proof@),
            Transition::XmrLockedDialing(proof) => TransitionView::XmrLockedDialing(proof@),
            Transition::SendingEncSig(proof) => TransitionView::SendingEncSig(proof@),
            Transition::EncSigSentTimelocks(proof) => TransitionView::EncSigSentTimelocks(proof@),
            Transition::AwaitingBtcRedeem(proof) => TransitionView::AwaitingBtcRedeem(proof@),
            Transition::ClaimingXmr(proof) => TransitionView::ClaimingXmr(proof@),
            Transition::CheckingCancel(proof) => TransitionView::CheckingCancel(proof@),
            Transition::SubmittingCancel(proof) => TransitionView::SubmittingCancel(proof@),
            Transition::BtcCancelledTimelocks(proof) => TransitionView::BtcCancelledTimelocks(
                proof@,
            ),
            Transition::RefundingBtc(proof) => TransitionView::RefundingBtc(proof@),
            Transition::Recording(state) => TransitionView::Recording(state@),
        }
    }
}

impl View for Progress {
    type V = ProgressView;

    open spec fn view(&self) -> ProgressView {
        match *self {
            Progress::Continue(transition) => ProgressView::Continue(transition@),
            Progress::Recorded(state) => ProgressView::Recorded(state@),
        }
    }
}

impl View for Entry {
    type V = EntryView;

    open spec fn view(&self) -> EntryView {
        match *self {
            Entry::Finished(state) => EntryView::Finished(state@),
            Entry::InFlight(transition) => EntryView::InFlight(transition@),
        }
    }
}

/// The view of what a step of a transition returns.
pub open spec fn step_view(result: Result<Progress, SwapError>) -> Result<ProgressView, SwapError> {
    match result {
        Ok(progress) => Ok(progress@),
        Err(error) => Err(error),
    }
}

/// The views of the outcomes on a record.
pub open spec fn outcomes(events: Seq<Event>) -> Seq<EventView> {
    events.map_values(|event: Event| event@)
}

/// The first stage of the transition that leaves `state`; `None` for a final
/// state, which no transition leaves.
pub open spec fn begin_spec(state: BobStateView) -> Option<TransitionView> {
    match state {
        BobStateView::Started { state0, amounts } => Some(
            TransitionView::Dialing { state0, amounts },
        ),
        BobStateView::Negotiated(state2) => Some(TransitionView::DialingToLock(state2)),
        BobStateView::BtcLocked(proof) => Some(TransitionView::BtcLockedTimelocks(proof)),
        BobStateView::XmrLocked(proof) => Some(TransitionView::XmrLockedTimelocks(proof)),
        BobStateView::EncSigSent(proof) => Some(TransitionView::EncSigSentTimelocks(proof)),
        BobStateView::BtcRedeemed(proof) => Some(TransitionView::ClaimingXmr(proof)),
        BobStateView::CancelTimelockExpired(proof) => Some(TransitionView::CheckingCancel(proof)),
        BobStateView::BtcCancelled(proof) => Some(TransitionView::BtcCancelledTimelocks(proof)),
        _ => None,
    }
}

/// What there is to do for a swap in `state` when the question whether
/// `state` is the one asked for has the answer `reached`.
pub open spec fn enter_spec(state: BobStateView, reached: bool) -> EntryView {
    if reached {
        EntryView::Finished(state)
    } else {
        match begin_spec(state) {
            Some(transition) => EntryView::InFlight(transition),
            None => EntryView::Finished(state),
        }
    }
}

/// `is_target_state` can be asked about every state.
pub open spec fn total<F: Fn(&BobState) -> bool>(is_target_state: F) -> bool {
    forall|state: BobState| call_requires(is_target_state, (&state,))
}

/// `target` is the predicate that `is_target_state` computes: whatever
/// `is_target_state` answers for a state is what `target` says of the view
/// of that state.
pub open spec fn computes<F: Fn(&BobState) -> bool>(
    is_target_state: F,
    target: spec_fn(BobStateView) -> bool,
) -> bool {
    forall|state: BobState, answer: bool| #[trigger]
        call_ensures(is_target_state, (&state,), answer) ==> answer == target(state@)
}

/// Decides what there is to do for a swap in `state`.
///
/// If `is_target_state` holds of `state`, or `state` is final, there is
/// nothing to do and the state comes back as it is; no operation is asked for
/// and nothing is recorded. Otherwise the transition that leaves `state`
/// starts.
pub fn enter<F: Fn(&BobState) -> bool>(state: BobState, is_target_state: &F) -> (r: Entry)
    requires
        call_requires(*is_target_state, (&state,)),
    ensures
        call_ensures(*is_target_state, (&state,), true) && r@ == enter_spec(state@, true)
            || call_ensures(*is_target_state, (&state,), false) && r@ == enter_spec(state@, false),
{
    if is_target_state(&state) {
        Entry::Finished(state)
    } else {
        match state {
            BobState::Started { state0, amounts } => Entry::InFlight(
                Transition::Dialing { state0, amounts },
            ),
            BobState::Negotiated(state2) => Entry::InFlight(Transition::DialingToLock(state2)),
            BobState::BtcLocked(proof) => Entry::InFlight(Transition::BtcLockedTimelocks(proof)),
            BobState::XmrLocked(proof) => Entry::InFlight(Transition::XmrLockedTimelocks(proof)),
            BobState::EncSigSent(proof) => Entry::InFlight(Transition::EncSigSentTimelocks(proof)),
            BobState::BtcRedeemed(proof) => Entry::InFlight(Transition::ClaimingXmr(proof)),
            BobState::CancelTimelockExpired(proof) => Entry::InFlight(
                Transition::CheckingCancel(proof),
            ),
            BobState::BtcCancelled(proof) => Entry::InFlight(
                Transition::BtcCancelledTimelocks(proof),
            ),
            BobState::BtcRefunded(proof) => Entry::Finished(BobState::BtcRefunded(proof)),
            BobState::BtcPunished { tx_lock_id } => Entry::Finished(
                BobState::BtcPunished { tx_lock_id },
            ),
            BobState::XmrRedeemed { tx_lock_id } => Entry::Finished(
                BobState::XmrRedeemed { tx_lock_id },
            ),
            BobState::SafelyAborted => Entry::Finished(BobState::SafelyAborted),
        }
    }
}

/// The transition goes on to the stage `next`.
pub open spec fn goes_to(next: TransitionView) -> Option<Result<ProgressView, SwapError>> {
    Some(Ok(ProgressView::Continue(next)))
}

/// The transition has arrived at `state` and goes on to record it.
pub open spec fn records(state: BobStateView) -> Option<Result<ProgressView, SwapError>> {
    goes_to(TransitionView::Recording(state))
}

impl TransitionView {
    /// The operation that is pending.
    pub open spec fn action(self) -> Action {
        match self {
            TransitionView::Dialing { .. } => Action::Dial,
            TransitionView::Negotiating(negotiation) => Action::Handshake(negotiation.action()),
            TransitionView::DialingToLock(_) => Action::Dial,
            TransitionView::LockingBtc(_) => Action::LockBtc,
            TransitionView::BtcLockedTimelocks(_) => Action::QueryTimelocks,
            TransitionView::BtcLockedDialing(_) => Action::Dial,
            TransitionView::ReadingMoneroHeight(_) => Action::ReadMoneroHeight,
            TransitionView::AwaitingTransferProof { .. } => Action::AwaitTransferProof,
            TransitionView::AwaitingXmrLock { .. } => Action::AwaitXmrLock,
            TransitionView::XmrLockedTimelocks(_) => Action::QueryTimelocks,
            TransitionView::XmrLockedDialing(_) => Action::Dial,
            TransitionView::SendingEncSig(_) => Action::SendEncSig,
            TransitionView::EncSigSentTimelocks(_) => Action::QueryTimelocks,
            TransitionView::AwaitingBtcRedeem(_) => Action::AwaitBtcRedeem,
            TransitionView::ClaimingXmr(_) => Action::ClaimXmr,
            TransitionView::CheckingCancel(_) => Action::CheckCancel,
            TransitionView::SubmittingCancel(_) => Action::SubmitCancel,
            TransitionView::BtcCancelledTimelocks(_) => Action::QueryTimelocks,
            TransitionView::RefundingBtc(_) => Action::RefundBtc,
            TransitionView::Recording(_) => Action::Persist,
        }
    }

    /// Whether this is a stage of the transition that leaves `origin`.
    pub open spec fn within(self, origin: BobStateView) -> bool {
        match origin {
            BobStateView::Started { state0, amounts } => {
                ||| self == (TransitionView::Dialing { state0, amounts })
                ||| self is Negotiating
                ||| self matches TransitionView::Recording(next) && next is Negotiated
            },
            BobStateView::Negotiated(state2) => {
                ||| self == TransitionView::DialingToLock(state2)
                ||| self == TransitionView::LockingBtc(state2)
                ||| self matches TransitionView::Recording(next) && next is BtcLocked
            },
            BobStateView::BtcLocked(locked) => {
                ||| self == TransitionView::BtcLockedTimelocks(locked)
                ||| self == TransitionView::BtcLockedDialing(locked)
                ||| self == TransitionView::ReadingMoneroHeight(locked)
                ||| self matches TransitionView::AwaitingTransferProof { proof, .. } && proof
                    == locked
                ||| self matches TransitionView::AwaitingXmrLock { proof, .. } && proof == locked
                ||| self matches TransitionView::Recording(next) && next is XmrLocked
                ||| self == TransitionView::Recording(BobStateView::CancelTimelockExpired(locked))
            },
            BobStateView::XmrLocked(locked) => {
                ||| self == TransitionView::XmrLockedTimelocks(locked)
                ||| self == TransitionView::XmrLockedDialing(locked)
                ||| self == TransitionView::SendingEncSig(locked)
                ||| self == TransitionView::Recording(BobStateView::EncSigSent(locked))
                ||| self == TransitionView::Recording(BobStateView::CancelTimelockExpired(locked))
            },
            BobStateView::EncSigSent(locked) => {
                ||| self == TransitionView::EncSigSentTimelocks(locked)
                ||| self == TransitionView::AwaitingBtcRedeem(locked)
                ||| self matches TransitionView::Recording(next) && next is BtcRedeemed
                ||| self == TransitionView::Recording(BobStateView::CancelTimelockExpired(locked))
            },
            BobStateView::BtcRedeemed(redeemed) => {
                ||| self == TransitionView::ClaimingXmr(redeemed)
                ||| self == TransitionView::Recording(
                    BobStateView::XmrRedeemed { tx_lock_id: redeemed.tx_lock_id },
                )
            },
            BobStateView::CancelTimelockExpired(locked) => {
                ||| self == TransitionView::CheckingCancel(locked)
                ||| self == TransitionView::SubmittingCancel(locked)
                ||| self == TransitionView::Recording(BobStateView::BtcCancelled(locked))
            },
            BobStateView::BtcCancelled(locked) => {
                ||| self == TransitionView::BtcCancelledTimelocks(locked)
                ||| self == TransitionView::RefundingBtc(locked)
                ||| self == TransitionView::Recording(BobStateView::BtcRefunded(locked))
                ||| self == TransitionView::Recording(
                    BobStateView::BtcPunished { tx_lock_id: locked.tx_lock_id },
                )
            },
            _ => false,
        }
    }

    /// The proof of the Bitcoin lock whose cancel timelock the pending
    /// operation races against; `None` if the pending operation is no race.
    pub open spec fn raced(self) -> Option<LockProofView> {
        match self {
            TransitionView::AwaitingTransferProof { proof, .. } => Some(proof),
            TransitionView::AwaitingXmrLock { proof, .. } => Some(proof),
            TransitionView::SendingEncSig(proof) => Some(proof),
            TransitionView::AwaitingBtcRedeem(proof) => Some(proof),
            _ => None,
        }
    }

    /// The pending operation is a race against the expiry of the cancel
    /// timelock.
    pub open spec fn racing(self) -> bool {
        self.raced() is Some
    }

    /// The largest number of operations, the pending one included, that can
    /// still be pending before the swap has ended.
    pub open spec fn budget(self) -> nat {
        match self {
            TransitionView::Dialing { .. } => 32,
            TransitionView::Negotiating(negotiation) => (31 - negotiation.position()) as nat,
            TransitionView::DialingToLock(_) => 22,
            TransitionView::LockingBtc(_) => 21,
            TransitionView::BtcLockedTimelocks(_) => 19,
            TransitionView::BtcLockedDialing(_) => 18,
            TransitionView::ReadingMoneroHeight(_) => 17,
            TransitionView::AwaitingTransferProof { .. } => 16,
            TransitionView::AwaitingXmrLock { .. } => 15,
            TransitionView::XmrLockedTimelocks(_) => 13,
            TransitionView::XmrLockedDialing(_) => 12,
            TransitionView::SendingEncSig(_) => 11,
            TransitionView::EncSigSentTimelocks(_) => 9,
            TransitionView::AwaitingBtcRedeem(_) => 8,
            TransitionView::ClaimingXmr(_) => 2,
            TransitionView::CheckingCancel(_) => 6,
            TransitionView::SubmittingCancel(_) => 5,
            TransitionView::BtcCancelledTimelocks(_) => 3,
            TransitionView::RefundingBtc(_) => 2,
            TransitionView::Recording(state) => 1 + state.budget(),
        }
    }

    /// Whether `event` is the way in which the progress side of the pending
    /// race ends.
    pub open spec fn progress(self, event: EventView) -> bool {
        match (self, event) {
            (TransitionView::AwaitingTransferProof { .. }, EventView::TransferProof(_)) => true,
            (TransitionView::AwaitingXmrLock { .. }, EventView::XmrLocked(_)) => true,
            (TransitionView::SendingEncSig(_), EventView::Completed) => true,
            (TransitionView::AwaitingBtcRedeem(_), EventView::BtcRedeemed(_)) => true,
            _ => false,
        }
    }

    /// The error that a failure of the pending operation stands for. A failed
    /// look for the cancel transaction is no error: it means that there is
    /// none, and the transition goes on to broadcast one. The operations of
    /// the handshake have failures of their own.
    pub open spec fn failure(self) -> Option<SwapError> {
        match self {
            TransitionView::Dialing { .. } => Some(SwapError::Network),
            TransitionView::Negotiating(_) => None,
            TransitionView::DialingToLock(_) => Some(SwapError::Network),
            TransitionView::LockingBtc(_) => Some(SwapError::Blockchain),
            TransitionView::BtcLockedTimelocks(_) => Some(SwapError::Blockchain),
            TransitionView::BtcLockedDialing(_) => Some(SwapError::Network),
            TransitionView::ReadingMoneroHeight(_) => Some(SwapError::Blockchain),
            TransitionView::AwaitingTransferProof { .. } => Some(SwapError::Network),
            TransitionView::AwaitingXmrLock { .. } => Some(SwapError::Blockchain),
            TransitionView::XmrLockedTimelocks(_) => Some(SwapError::Blockchain),
            TransitionView::XmrLockedDialing(_) => Some(SwapError::Network),
            TransitionView::SendingEncSig(_) => Some(SwapError::Network),
            TransitionView::EncSigSentTimelocks(_) => Some(SwapError::Blockchain),
            TransitionView::AwaitingBtcRedeem(_) => Some(SwapError::Blockchain),
            TransitionView::ClaimingXmr(_) => Some(SwapError::Blockchain),
            TransitionView::CheckingCancel(_) => None,
            TransitionView::SubmittingCancel(_) => Some(SwapError::Blockchain),
            TransitionView::BtcCancelledTimelocks(_) => Some(SwapError::Blockchain),
            TransitionView::RefundingBtc(_) => Some(SwapError::Blockchain),
            TransitionView::Recording(_) => Some(SwapError::Persistence),
        }
    }

    /// Where the transition goes on an outcome that the pending operation
    /// can have and that decides something; `None` if `event` is no outcome
    /// of that operation, or a failure that only ends the transition.
    pub open spec fn on_outcome(self, event: EventView) -> Option<Result<ProgressView, SwapError>> {
        match (self, event) {
            (TransitionView::Dialing { state0, amounts }, EventView::Completed) => goes_to(
                TransitionView::Negotiating(NegotiationView::Announcing { state0, amounts }),
            ),
            (TransitionView::Negotiating(negotiation), EventView::Handshake(outcome)) => Some(
                match negotiation.step(outcome) {
                    Ok(HandshakeProgressView::Continue(next)) => Ok(
                        ProgressView::Continue(TransitionView::Negotiating(next)),
                    ),
                    Ok(HandshakeProgressView::Finished(state2)) => Ok(
                        ProgressView::Continue(
                            TransitionView::Recording(BobStateView::Negotiated(state2)),
                        ),
                    ),
                    Err(error) => Err(error),
                },
            ),
            (TransitionView::DialingToLock(state2), EventView::Completed) => goes_to(
                TransitionView::LockingBtc(state2),
            ),
            (TransitionView::LockingBtc(_), EventView::BtcLocked(proof)) => records(
                BobStateView::BtcLocked(proof),
            ),
            (TransitionView::BtcLockedTimelocks(proof), EventView::Timelocks(expired)) => {
                if expired is NotExpired {
                    goes_to(TransitionView::BtcLockedDialing(proof))
                } else {
                    records(BobStateView::CancelTimelockExpired(proof))
                }
            },
            (TransitionView::BtcLockedDialing(proof), EventView::Completed) => goes_to(
                TransitionView::ReadingMoneroHeight(proof),
            ),
            (TransitionView::ReadingMoneroHeight(proof), EventView::MoneroHeight(height)) => {
                goes_to(TransitionView::AwaitingTransferProof { proof, height })
            },
            (
                TransitionView::AwaitingTransferProof { proof, height },
                EventView::TransferProof(transfer),
            ) => goes_to(TransitionView::AwaitingXmrLock { proof, transfer, height }),
            (
                TransitionView::AwaitingTransferProof { proof, .. },
                EventView::CancelTimelockExpired,
            ) => records(BobStateView::CancelTimelockExpired(proof)),
            (TransitionView::AwaitingXmrLock { .. }, EventView::XmrLocked(locked)) => records(
                BobStateView::XmrLocked(locked),
            ),
            (TransitionView::AwaitingXmrLock { proof, .. }, EventView::CancelTimelockExpired) => {
                records(BobStateView::CancelTimelockExpired(proof))
            },
            (TransitionView::XmrLockedTimelocks(proof), EventView::Timelocks(expired)) => {
                if expired is NotExpired {
                    goes_to(TransitionView::XmrLockedDialing(proof))
                } else {
                    records(BobStateView::CancelTimelockExpired(proof))
                }
            },
            (TransitionView::XmrLockedDialing(proof), EventView::Completed) => goes_to(
                TransitionView::SendingEncSig(proof),
            ),
            (TransitionView::SendingEncSig(proof), EventView::Completed) => records(
                BobStateView::EncSigSent(proof),
            ),
            (TransitionView::SendingEncSig(proof), EventView::CancelTimelockExpired) => records(
                BobStateView::CancelTimelockExpired(proof),
            ),
            (TransitionView::EncSigSentTimelocks(proof), EventView::Timelocks(expired)) => {
                if expired is NotExpired {
                    goes_to(TransitionView::AwaitingBtcRedeem(proof))
                } else {
                    records(BobStateView::CancelTimelockExpired(proof))
                }
            },
            (TransitionView::AwaitingBtcRedeem(_), EventView::BtcRedeemed(redeemed)) => records(
                BobStateView::BtcRedeemed(redeemed),
            ),
            (TransitionView::AwaitingBtcRedeem(proof), EventView::CancelTimelockExpired) => records(
                BobStateView::CancelTimelockExpired(proof),
            ),
            (TransitionView::ClaimingXmr(proof), EventView::Completed) => records(
                BobStateView::XmrRedeemed { tx_lock_id: proof.tx_lock_id },
            ),
            (TransitionView::CheckingCancel(proof), EventView::Completed) => records(
                BobStateView::BtcCancelled(proof),
            ),
            (TransitionView::CheckingCancel(proof), EventView::Failed) => goes_to(
                TransitionView::SubmittingCancel(proof),
            ),
            (TransitionView::SubmittingCancel(proof), EventView::Completed) => records(
                BobStateView::BtcCancelled(proof),
            ),
            (TransitionView::BtcCancelledTimelocks(proof), EventView::Timelocks(expired)) => {
                match expired {
                    ExpiredTimelocks::NotExpired => Some(Err(SwapError::InternalInvariant)),
                    ExpiredTimelocks::Cancel => goes_to(TransitionView::RefundingBtc(proof)),
                    ExpiredTimelocks::Punish => records(
                        BobStateView::BtcPunished { tx_lock_id: proof.tx_lock_id },
                    ),
                }
            },
            (TransitionView::RefundingBtc(proof), EventView::Completed) => records(
                BobStateView::BtcRefunded(proof),
            ),
            (TransitionView::Recording(state), EventView::Completed) => Some(
                Ok(ProgressView::Recorded(state)),
            ),
            _ => None,
        }
    }

    /// Where the transition goes when the pending operation ended as `event`
    /// says.
    ///
    /// An outcome of the pending operation moves the transition on, or, in
    /// the handshake and when the cancel transaction is confirmed with no
    /// timelock expired, ends it with the error that was found. A plain
    /// failure ends it with the error that belongs to the operation. Any other
    /// outcome does not belong to the operation and ends the transition with
    /// [`SwapError::UnexpectedEvent`].
    pub open spec fn step(self, event: EventView) -> Result<ProgressView, SwapError> {
        match self.on_outcome(event) {
            Some(result) => result,
            None => match (event, self.failure()) {
                (EventView::Failed, Some(error)) => Err(error),
                _ => Err(SwapError::UnexpectedEvent),
            },
        }
    }
}

impl Transition {
    /// The operation to carry out next.
    pub fn action(&self) -> (r: Action)
        ensures
            r == self@.action(),
    {
        match self {
            Transition::Dialing { .. } => Action::Dial,
            Transition::Negotiating(negotiation) => Action::Handshake(negotiation.action()),
            Transition::DialingToLock(_) => Action::Dial,
            Transition::LockingBtc(_) => Action::LockBtc,
            Transition::BtcLockedTimelocks(_) => Action::QueryTimelocks,
            Transition::BtcLockedDialing(_) => Action::Dial,
            Transition::ReadingMoneroHeight(_) => Action::ReadMoneroHeight,
            Transition::AwaitingTransferProof { .. } => Action::AwaitTransferProof,
            Transition::AwaitingXmrLock { .. } => Action::AwaitXmrLock,
            Transition::XmrLockedTimelocks(_) => Action::QueryTimelocks,
            Transition::XmrLockedDialing(_) => Action::Dial,
            Transition::SendingEncSig(_) => Action::SendEncSig,
            Transition::EncSigSentTimelocks(_) => Action::QueryTimelocks,
            Transition::AwaitingBtcRedeem(_) => Action::AwaitBtcRedeem,
            Transition::ClaimingXmr(_) => Action::ClaimXmr,
            Transition::CheckingCancel(_) => Action::CheckCancel,
            Transition::SubmittingCancel(_) => Action::SubmitCancel,
            Transition::BtcCancelledTimelocks(_) => Action::QueryTimelocks,
            Transition::RefundingBtc(_) => Action::RefundBtc,
            Transition::Recording(_) => Action::Persist,
        }
    }

    /// Takes in how the pending operation ended.
    pub fn step(self, event: Event) -> (r: Result<Progress, SwapError>)
        ensures
            step_view(r) == self@.step(event@),
    {
        match self {
            Transition::Dialing { state0, amounts } => match event {
                Event::Completed => Ok(
                    Progress::Continue(Transition::Negotiating(Negotiation::new(state0, amounts))),
                ),
                Event::Failed => Err(SwapError::Network),
                _ => Err(SwapError::UnexpectedEvent),
            },
            Transition::Negotiating(negotiation) => match event {
                Event::Handshake(outcome) => match negotiation.step(outcome) {
                    Ok(HandshakeProgress::Continue(next)) => Ok(
                        Progress::Continue(Transition::Negotiating(next)),
                    ),
                    Ok(HandshakeProgress::Finished(state2)) => Ok(
                        Progress::Continue(Transition::Recording(BobState::Negotiated(state2))),
                    ),
                    Err(error) => Err(error),
                },
                _ => Err(SwapError::UnexpectedEvent),
            },
            Transition::DialingToLock(state2) => match event {
                Event::Completed => Ok(Progress::Continue(Transition::LockingBtc(state2))),
                Event::Failed => Err(SwapError::Network),
                _ => Err(SwapError::UnexpectedEvent),
            },
            Transition::LockingBtc(_) => match event {
                Event::BtcLocked(proof) => Ok(
                    Progress::Continue(Transition::Recording(BobState::BtcLocked(proof))),
                ),
                Event::Failed => Err(SwapError::Blockchain),
                _ => Err(SwapError::UnexpectedEvent),
            },
            Transition::BtcLockedTimelocks(proof) => match event {
                Event::Timelocks(ExpiredTimelocks::NotExpired) => Ok(
                    Progress::Continue(Transition::BtcLockedDialing(proof)),
                ),
                Event::Timelocks(_) => Ok(Progress::Continue(cancel_timelock_expired(proof))),
                Event::Failed => Err(SwapError::Blockchain),
                _ => Err(SwapError::UnexpectedEvent),
            },
            Transition::BtcLockedDialing(proof) => match event {
                Event::Completed => Ok(Progress::Continue(Transition::ReadingMoneroHeight(proof))),
                Event::Failed => Err(SwapError::Network),
                _ => Err(SwapError::UnexpectedEvent),
            },
            Transition::ReadingMoneroHeight(proof) => match event {
                Event::MoneroHeight(height) => Ok(
                    Progress::Continue(Transition::AwaitingTransferProof { proof, height }),
                ),
                Event::Failed => Err(SwapError::Blockchain),
                _ => Err(SwapError::UnexpectedEvent),
            },
            Transition::AwaitingTransferProof { proof, height } => match event {
                Event::TransferProof(transfer) => Ok(
                    Progress::Continue(Transition::AwaitingXmrLock { proof, transfer, height }),
                ),
                Event::CancelTimelockExpired => Ok(
                    Progress::Continue(cancel_timelock_expired(proof)),
                ),
                Event::Failed => Err(SwapError::Network),
                _ => Err(SwapError::UnexpectedEvent),
            },
            Transition::AwaitingXmrLock { proof, transfer: _, height: _ } => match event {
                Event::XmrLocked(locked) => Ok(
                    Progress::Continue(Transition::Recording(BobState::XmrLocked(locked))),
                ),
                Event::CancelTimelockExpired => Ok(
                    Progress::Continue(cancel_timelock_expired(proof)),
                ),
                Event::Failed => Err(SwapError::Blockchain),
                _ => Err(SwapError::UnexpectedEvent),
            },
            Transition::XmrLockedTimelocks(proof) => match event {
                Event::Timelocks(ExpiredTimelocks::NotExpired) => Ok(
                    Progress::Continue(Transition::XmrLockedDialing(proof)),
                ),
                Event::Timelocks(_) => Ok(Progress::Continue(cancel_timelock_expired(proof))),
                Event::Failed => Err(SwapError::Blockchain),
                _ => Err(SwapError::UnexpectedEvent),
            },
            Transition::XmrLockedDialing(proof) => match event {
                Event::Completed => Ok(Progress::Continue(Transition::SendingEncSig(proof))),
                Event::Failed => Err(SwapError::Network),
                _ => Err(SwapError::UnexpectedEvent),
            },
            Transition::SendingEncSig(proof) => match event {
                Event::Completed => Ok(
                    Progress::Continue(Transition::Recording(BobState::EncSigSent(proof))),
                ),
                Event::CancelTimelockExpired => Ok(
                    Progress::Continue(cancel_timelock_expired(proof)),
                ),
                Event::Failed => Err(SwapError::Network),
                _ => Err(SwapError::UnexpectedEvent),
            },
            Transition::EncSigSentTimelocks(proof) => match event {
                Event::Timelocks(ExpiredTimelocks::NotExpired) => Ok(
                    Progress::Continue(Transition::AwaitingBtcRedeem(proof)),
                ),
                Event::Timelocks(_) => Ok(Progress::Continue(cancel_timelock_expired(proof))),
                Event::Failed => Err(SwapError::Blockchain),
                _ => Err(SwapError::UnexpectedEvent),
            },
            Transition::AwaitingBtcRedeem(proof) => match event {
                Event::BtcRedeemed(redeemed) => Ok(
                    Progress::Continue(Transition::Recording(BobState::BtcRedeemed(redeemed))),
                ),
                Event::CancelTimelockExpired => Ok(
                    Progress::Continue(cancel_timelock_expired(proof)),
                ),
                Event::Failed => Err(SwapError::Blockchain),
                _ => Err(SwapError::UnexpectedEvent),
            },
            Transition::ClaimingXmr(proof) => match event {
                Event::Completed => Ok(
                    Progress::Continue(
                        Transition::Recording(
                            BobState::XmrRedeemed { tx_lock_id: proof.tx_lock_id },
                        ),
                    ),
                ),
                Event::Failed => Err(SwapError::Blockchain),
                _ => Err(SwapError::UnexpectedEvent),
            },
            Transition::CheckingCancel(proof) => match event {
                Event::Completed => Ok(
                    Progress::Continue(Transition::Recording(BobState::BtcCancelled(proof))),
                ),
                Event::Failed => Ok(Progress::Continue(Transition::SubmittingCancel(proof))),
                _ => Err(SwapError::UnexpectedEvent),
            },
            Transition::SubmittingCancel(proof) => match event {
                Event::Completed => Ok(
                    Progress::Continue(Transition::Recording(BobState::BtcCancelled(proof))),
                ),
                Event::Failed => Err(SwapError::Blockchain),
                _ => Err(SwapError::UnexpectedEvent),
            },
            Transition::BtcCancelledTimelocks(proof) => match event {
                Event::Timelocks(ExpiredTimelocks::NotExpired) => Err(SwapError::InternalInvariant),
                Event::Timelocks(ExpiredTimelocks::Cancel) => Ok(
                    Progress::Continue(Transition::RefundingBtc(proof)),
                ),
                Event::Timelocks(ExpiredTimelocks::Punish) => Ok(
                    Progress::Continue(
                        Transition::Recording(
                            BobState::BtcPunished { tx_lock_id: proof.tx_lock_id },
                        ),
                    ),
                ),
                Event::Failed => Err(SwapError::Blockchain),
                _ => Err(SwapError::UnexpectedEvent),
            },
            Transition::RefundingBtc(proof) => match event {
                Event::Completed => Ok(
                    Progress::Continue(Transition::Recording(BobState::BtcRefunded(proof))),
                ),
                Event::Failed => Err(SwapError::Blockchain),
                _ => Err(SwapError::UnexpectedEvent),
            },
            Transition::Recording(state) => match event {
                Event::Completed => Ok(Progress::Recorded(state)),
                Event::Failed => Err(SwapError::Persistence),
                _ => Err(SwapError::UnexpectedEvent),
            },
        }
    }
}

/// The stage every transition from a funded state goes to once the cancel
/// timelock is known to have expired: recording that it has.
fn cancel_timelock_expired(proof: LockProof) -> (r: Transition)
    ensures
        r@ == TransitionView::Recording(BobStateView::CancelTimelockExpired(proof@)),
{
    Transition::Recording(BobState::CancelTimelockExpired(proof))
}

} // verus!
