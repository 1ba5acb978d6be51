//! What holds of every swap, whatever the counterparty, the chains and the
//! store do.
//!
//! Everything here is said of views: of what states, stages and outcomes
//! hold, not of where they are stored.

use vstd::prelude::*;

use crate::error::SwapError;
use crate::negotiation::{
    completes, handshake_outcome, HandshakeEventView, HandshakeProgressView, NegotiationView,
};
use crate::run::{journal, outcome, recorded_at, run_spec};
use crate::state::{BobStateView, ExpiredTimelocks, LockProofView, SwapAmounts};
use crate::transition::{
    begin_spec, enter_spec, goes_to, records, Action, EntryView, EventView, ProgressView,
    TransitionView,
};

verus! {

/// The handshake is strictly sequential. An operation is followed by the
/// next one exactly when it ended with its own successful outcome, and the
/// handshake is over exactly when the last one did. A failure ends it with
/// [`SwapError::Validation`] where a message was being combined and with
/// [`SwapError::Network`] everywhere else; any other outcome ends it with
/// [`SwapError::UnexpectedEvent`].
pub proof fn lemma_handshake_in_order(negotiation: NegotiationView, event: HandshakeEventView)
    ensures
        negotiation.position() < 8,
        negotiation.step(event) is Ok <==> negotiation.expects(event),
        negotiation.step(event) matches Ok(HandshakeProgressView::Continue(next))
            ==> next.position() == negotiation.position() + 1,
        negotiation.step(event) is Ok ==> (negotiation.step(event) matches Ok(
            HandshakeProgressView::Finished(_),
        ) <==> negotiation.position() == 7),
        negotiation.step(event) == Err::<HandshakeProgressView, SwapError>(SwapError::Validation)
            <==> event is Failed && (negotiation.position() == 3 || negotiation.position() == 6),
        negotiation.step(event) == Err::<HandshakeProgressView, SwapError>(SwapError::Network)
            <==> event is Failed && negotiation.position() != 3 && negotiation.position() != 6,
        negotiation.step(event) == Err::<HandshakeProgressView, SwapError>(
            SwapError::UnexpectedEvent,
        ) <==> !negotiation.expects(event) && !(event is Failed),
{
}

/// A handshake yields a setup exactly when all eight of its operations
/// succeeded, one after the other, and the setup it yields is the one that
/// combining the counterparty's second message gave. Otherwise it yields an
/// error and no setup at all.
pub proof fn lemma_handshake_completes(
    state0: Seq<u8>,
    amounts: SwapAmounts,
    events: Seq<HandshakeEventView>,
)
    ensures
        handshake_outcome(NegotiationView::Announcing { state0, amounts }, events) is Ok
            <==> completes(events),
        completes(events) ==> handshake_outcome(
            NegotiationView::Announcing { state0, amounts },
            events,
        ) == Ok::<Seq<u8>, SwapError>(events[6]->Negotiated_0),
{
    reveal_with_fuel(handshake_outcome, 9);
}

/// A transition starts inside itself: the first stage of the transition that
/// leaves a state is a stage of that transition.
pub proof fn lemma_begin_within(origin: BobStateView)
    ensures
        origin.terminal() <==> begin_spec(origin) is None,
        begin_spec(origin) matches Some(first) ==> first.within(origin),
{
}

/// A transition never strays: from a stage of the transition that leaves
/// `origin`, every outcome that keeps the transition going leads to another
/// stage of it, and the state it finally hands out is one that `origin`
/// precedes.
pub proof fn lemma_step_stays_within(origin: BobStateView, stage: TransitionView, event: EventView)
    requires
        stage.within(origin),
    ensures
        stage.step(event) matches Ok(ProgressView::Continue(next)) ==> next.within(origin),
        stage.step(event) matches Ok(ProgressView::Recorded(reached)) ==> origin.precedes(reached),
{
}

/// No transition leads back: the state reached is further along than the one
/// left, it is never the first state and never the state of a swap that was
/// given up, and once Bitcoin is locked the swap stays funded until it ends
/// refunded, punished or redeemed.
pub proof fn lemma_precedes_moves_forward(origin: BobStateView, next: BobStateView)
    requires
        origin.precedes(next),
    ensures
        !origin.terminal(),
        origin.rank() < next.rank(),
        !(next is Started),
        !(next is SafelyAborted),
        origin.funded() ==> next.funded() || next is BtcRefunded || next is BtcPunished
            || next is XmrRedeemed,
{
}

/// A state is handed out only after it was recorded: the one stage that hands
/// out a state is the one whose operation is to record it, and it hands out
/// that state, once the store has confirmed.
pub proof fn lemma_recorded_before_reached(
    stage: TransitionView,
    event: EventView,
    reached: BobStateView,
)
    ensures
        stage.step(event) == Ok::<ProgressView, SwapError>(ProgressView::Recorded(reached))
            <==> stage == TransitionView::Recording(reached) && event == EventView::Completed,
        stage.action() == Action::Persist <==> stage is Recording,
{
}

/// What cannot be undone is not done out of turn. The Bitcoin is locked only
/// right after the counterparty was reached, with the setup that was
/// negotiated. A cancel transaction is sent only right after none was found.
/// And no outcome leads into the first operation of a transition: a
/// transition starts only from a state that was recorded.
pub proof fn lemma_actions_are_guarded(
    stage: TransitionView,
    event: EventView,
    next: TransitionView,
)
    requires
        Some(stage.step(event)) == goes_to(next),
    ensures
        next.action() is LockBtc ==> event is Completed && (stage
            matches TransitionView::DialingToLock(state2) && next == TransitionView::LockingBtc(
            state2,
        )),
        next.action() is SubmitCancel ==> event is Failed && (stage
            matches TransitionView::CheckingCancel(proof) && next
            == TransitionView::SubmittingCancel(proof)),
        forall|state: BobStateView| #[trigger] begin_spec(state) != Some(next),
{
}

/// A race has exactly one winner. While a race is pending, the expiry of the
/// cancel timelock moves the transition to the recording of the expired
/// timelock, with the material of the state that is being left, and the end
/// of the progress side moves it on to another stage, never to that
/// recording. Every other outcome ends the transition with an error. So one
/// outcome decides, and each outcome decides one way.
pub proof fn lemma_race_has_one_winner(stage: TransitionView, event: EventView)
    requires
        stage.racing(),
    ensures
        Some(stage.step(EventView::CancelTimelockExpired)) == records(
            BobStateView::CancelTimelockExpired(stage.raced()->0),
        ),
        stage.within(BobStateView::BtcLocked(stage.raced()->0)) || stage.within(
            BobStateView::XmrLocked(stage.raced()->0),
        ) || stage.within(BobStateView::EncSigSent(stage.raced()->0)),
        stage.progress(event) ==> (stage.step(event) matches Ok(ProgressView::Continue(next))
            && next != stage && !(next matches TransitionView::Recording(state)
            && state is CancelTimelockExpired)),
        !stage.progress(event) && !(event is CancelTimelockExpired) ==> stage.step(event) is Err,
{
}

/// The expiry of the cancel timelock can end a race at either level of the
/// two nested races, and it ends nothing but a race.
pub proof fn lemma_expiry_ends_races_only(stage: TransitionView)
    ensures
        stage.step(EventView::CancelTimelockExpired) is Ok <==> stage.racing(),
        !stage.racing() ==> stage.step(EventView::CancelTimelockExpired) == Err::<
            ProgressView,
            SwapError,
        >(SwapError::UnexpectedEvent),
        stage.racing() <==> stage.action() is AwaitTransferProof || stage.action()
            is AwaitXmrLock || stage.action() is SendEncSig || stage.action()
            is AwaitBtcRedeem,
{
}

/// The expired cancel timelock is recorded on evidence only: because the
/// timelocks were asked for and one had expired, or because the expiry won a
/// race.
pub proof fn lemma_expiry_needs_evidence(
    stage: TransitionView,
    event: EventView,
    proof: LockProofView,
)
    requires
        Some(stage.step(event)) == records(BobStateView::CancelTimelockExpired(proof)),
    ensures
        event is CancelTimelockExpired || (event matches EventView::Timelocks(expired) && !(expired
            is NotExpired)),
        event is CancelTimelockExpired ==> stage.racing(),
{
}

/// A confirmed cancel transaction while no timelock has expired is the one
/// defect the engine detects, and it is never taken for anything else: it
/// ends the transition with [`SwapError::InternalInvariant`], which has no
/// other cause, and the refund is attempted, and later recorded, only after
/// the timelocks were asked for and the cancel timelock alone had expired.
pub proof fn lemma_cancelled_without_expiry_is_fatal(
    stage: TransitionView,
    event: EventView,
    proof: LockProofView,
)
    ensures
        TransitionView::BtcCancelledTimelocks(proof).step(
            EventView::Timelocks(ExpiredTimelocks::NotExpired),
        ) == Err::<ProgressView, SwapError>(SwapError::InternalInvariant),
        stage.step(event) == Err::<ProgressView, SwapError>(SwapError::InternalInvariant) <==> stage
            is BtcCancelledTimelocks && event == EventView::Timelocks(ExpiredTimelocks::NotExpired),
        Some(stage.step(event)) == goes_to(TransitionView::RefundingBtc(proof)) <==> stage
            == TransitionView::BtcCancelledTimelocks(proof) && event == EventView::Timelocks(
            ExpiredTimelocks::Cancel,
        ),
        Some(stage.step(event)) == records(BobStateView::BtcRefunded(proof)) <==> stage
            == TransitionView::RefundingBtc(proof) && event == EventView::Completed,
        Some(stage.step(event)) == records(
            BobStateView::BtcPunished { tx_lock_id: proof.tx_lock_id },
        ) ==> event == EventView::Timelocks(ExpiredTimelocks::Punish) && (stage
            matches TransitionView::BtcCancelledTimelocks(cancelled) && cancelled.tx_lock_id
            == proof.tx_lock_id),
{
}

/// A swap that is where it was asked to be, or in a final state, is left
/// alone: driving it gives back the state it is in, whatever outcomes are on
/// record, and nothing is recorded.
pub proof fn lemma_run_returns_at_once(
    target: spec_fn(BobStateView) -> bool,
    state: BobStateView,
    events: Seq<EventView>,
)
    requires
        target(state) || state.terminal(),
    ensures
        enter_spec(state, target(state)) == EntryView::Finished(state),
        run_spec(target, state, events) == Ok::<BobStateView, SwapError>(state),
        journal(target, enter_spec(state, target(state)), events) == Seq::<BobStateView>::empty(),
{
}

/// Driving a swap stops only where it was asked to stop or where the swap
/// ends: the state that comes back is one of which `target` holds, or a final
/// one.
pub proof fn lemma_run_stops_where_asked(
    target: spec_fn(BobStateView) -> bool,
    entry: EntryView,
    events: Seq<EventView>,
)
    requires
        entry matches EntryView::Finished(state) ==> target(state) || state.terminal(),
    ensures
        outcome(target, entry, events) matches Ok(last) ==> target(last) || last.terminal(),
    decreases events.len(),
{
    if let EntryView::InFlight(stage) = entry {
        if events.len() > 0 {
            match stage.step(events[0]) {
                Ok(ProgressView::Continue(next)) => {
                    lemma_run_stops_where_asked(
                        target,
                        EntryView::InFlight(next),
                        events.drop_first(),
                    );
                },
                Ok(ProgressView::Recorded(state)) => {
                    lemma_run_stops_where_asked(
                        target,
                        enter_spec(state, target(state)),
                        events.drop_first(),
                    );
                },
                Err(_) => {},
            }
        }
    }
}

/// Resuming is the same as never having stopped. If, in a run from `entry`,
/// the outcome `events[count - 1]` confirmed the recording of `state`, then a
/// run that starts afresh from `state` with the outcomes that follow ends
/// exactly as the first run does. What the first run had recorded up to that
/// point, `state` being the last of it, followed by what the fresh run
/// records, is what the first run records in all: nothing is recorded twice
/// and nothing is left out.
pub proof fn lemma_resume(
    target: spec_fn(BobStateView) -> bool,
    entry: EntryView,
    events: Seq<EventView>,
    count: nat,
    state: BobStateView,
)
    requires
        recorded_at(target, entry, events, count, state),
    ensures
        1 <= count <= events.len(),
        outcome(target, entry, events) == run_spec(target, state, events.skip(count as int)),
        journal(target, entry, events.take(count as int)).len() > 0,
        journal(target, entry, events.take(count as int)).last() == state,
        journal(target, entry, events) == journal(target, entry, events.take(count as int))
            + journal(target, enter_spec(state, target(state)), events.skip(count as int)),
    decreases count,
{
    let stage = entry->InFlight_0;
    let rest = events.drop_first();
    let tail = journal(target, enter_spec(state, target(state)), events.skip(count as int));
    match stage.step(events[0]) {
        Ok(ProgressView::Continue(next)) => {
            lemma_resume(target, EntryView::InFlight(next), rest, (count - 1) as nat, state);
            assert(rest.skip(count - 1) =~= events.skip(count as int));
            assert(events.take(count as int).drop_first() =~= rest.take(count - 1));
        },
        Ok(ProgressView::Recorded(reached)) => {
            let after = enter_spec(reached, target(reached));
            if count == 1 {
                assert(rest =~= events.skip(1));
                assert(events.take(1).drop_first() =~= Seq::<EventView>::empty());
                assert(journal(target, after, Seq::<EventView>::empty()) =~= Seq::<
                    BobStateView,
                >::empty());
                assert(journal(target, entry, events.take(1)) =~= seq![reached]);
            } else {
                lemma_resume(target, after, rest, (count - 1) as nat, state);
                assert(rest.skip(count - 1) =~= events.skip(count as int));
                assert(events.take(count as int).drop_first() =~= rest.take(count - 1));
                let before = journal(target, after, rest.take(count - 1));
                assert(journal(target, entry, events.take(count as int)) == seq![reached] + before);
                assert((seq![reached] + before).last() == before.last());
                assert(seq![reached] + (before + tail) =~= (seq![reached] + before) + tail);
            }
        },
        Err(_) => {},
    }
}

/// Whether each state of `states` is one that the state before it precedes,
/// the first being one that `origin` precedes.
pub open spec fn chain(origin: BobStateView, states: Seq<BobStateView>) -> bool
    decreases states.len(),
{
    states.len() > 0 ==> origin.precedes(states[0]) && chain(states[0], states.drop_first())
}

/// The states a swap records form one unbroken line. From a stage of the
/// transition that leaves `origin`, the first state recorded is one that
/// `origin` precedes, and every further one is one that the state recorded
/// before it precedes. When the run ends in a state, that state is the last
/// one recorded: nothing is handed out that the store has not confirmed.
pub proof fn lemma_journal_is_a_chain(
    target: spec_fn(BobStateView) -> bool,
    origin: BobStateView,
    stage: TransitionView,
    events: Seq<EventView>,
)
    requires
        stage.within(origin),
    ensures
        chain(origin, journal(target, EntryView::InFlight(stage), events)),
        outcome(target, EntryView::InFlight(stage), events) matches Ok(last) ==> journal(
            target,
            EntryView::InFlight(stage),
            events,
        ).len() > 0 && journal(target, EntryView::InFlight(stage), events).last() == last,
    decreases events.len(),
{
    if events.len() > 0 {
        let rest = events.drop_first();
        lemma_step_stays_within(origin, stage, events[0]);
        match stage.step(events[0]) {
            Ok(ProgressView::Continue(next)) => {
                lemma_journal_is_a_chain(target, origin, next, rest);
            },
            Ok(ProgressView::Recorded(state)) => {
                let after = enter_spec(state, target(state));
                let tail = journal(target, after, rest);
                let whole = journal(target, EntryView::InFlight(stage), events);
                assert(whole == seq![state] + tail);
                assert(whole[0] == state);
                assert(whole.drop_first() =~= tail);
                match after {
                    EntryView::InFlight(first) => {
                        lemma_begin_within(state);
                        lemma_journal_is_a_chain(target, state, first, rest);
                        if outcome(target, after, rest) is Ok {
                            assert(whole.last() == tail.last());
                        }
                    },
                    EntryView::Finished(_) => {
                        assert(tail =~= Seq::<BobStateView>::empty());
                        assert(chain(state, tail));
                        assert(outcome(target, after, rest) == Ok::<BobStateView, SwapError>(
                            state,
                        ));
                        assert(whole.last() == state);
                    },
                }
            },
            Err(_) => {},
        }
    }
}

/// Along a line of recorded states the swap only moves forward, and once
/// Bitcoin is locked it does not leave the funded states except into one of
/// the three final states that settle the Bitcoin.
pub proof fn lemma_chain_moves_forward(origin: BobStateView, states: Seq<BobStateView>)
    requires
        chain(origin, states),
        states.len() > 0,
    ensures
        origin.rank() < states.last().rank(),
        !(states.last() is Started),
        !(states.last() is SafelyAborted),
        origin.funded() ==> states.last().funded() || states.last() is BtcRefunded
            || states.last() is BtcPunished || states.last() is XmrRedeemed,
    decreases states.len(),
{
    lemma_precedes_moves_forward(origin, states[0]);
    if states.len() > 1 {
        let rest = states.drop_first();
        assert(rest.last() == states.last());
        lemma_chain_moves_forward(states[0], rest);
    }
}

/// Where a run can end. The state that comes back is the one the run started
/// from, or one further along. A swap is never driven into the state of one
/// that was given up, and never back to the start. Once Bitcoin is locked,
/// the only final states a run can end in are refunded, punished and
/// redeemed.
pub proof fn lemma_run_ends_safely(
    target: spec_fn(BobStateView) -> bool,
    state: BobStateView,
    events: Seq<EventView>,
)
    ensures
        run_spec(target, state, events) matches Ok(last) ==> {
            &&& last == state || state.rank() < last.rank()
            &&& last is SafelyAborted ==> last == state
            &&& last is Started ==> last == state
            &&& state.funded() && last.terminal() ==> last is BtcRefunded || last is BtcPunished
                || last is XmrRedeemed
        },
{
    if let EntryView::InFlight(first) = enter_spec(state, target(state)) {
        if let Ok(last) = run_spec(target, state, events) {
            lemma_begin_within(state);
            lemma_journal_is_a_chain(target, state, first, events);
            lemma_chain_moves_forward(state, journal(target, EntryView::InFlight(first), events));
        }
    }
}

/// What becomes of a swap whose cancel transaction is confirmed. If the
/// timelocks are reported as not expired, the run fails with
/// [`SwapError::InternalInvariant`]; it fails so for no other reason. It
/// ends refunded only if the cancel timelock alone was reported as expired,
/// and punished only if the punish timelock was; either way with the
/// material of the cancelled state.
pub proof fn lemma_cancelled_run(
    target: spec_fn(BobStateView) -> bool,
    proof: LockProofView,
    events: Seq<EventView>,
)
    requires
        !target(BobStateView::BtcCancelled(proof)),
    ensures
        events.len() > 0 && events[0] == EventView::Timelocks(ExpiredTimelocks::NotExpired)
            ==> run_spec(target, BobStateView::BtcCancelled(proof), events) == Err::<
            BobStateView,
            SwapError,
        >(SwapError::InternalInvariant),
        run_spec(target, BobStateView::BtcCancelled(proof), events) == Err::<
            BobStateView,
            SwapError,
        >(SwapError::InternalInvariant) ==> events.len() > 0 && events[0] == EventView::Timelocks(
            ExpiredTimelocks::NotExpired,
        ),
        run_spec(target, BobStateView::BtcCancelled(proof), events) matches Ok(last) ==> {
            ||| last == BobStateView::BtcRefunded(proof) && events[0] == EventView::Timelocks(
                ExpiredTimelocks::Cancel,
            )
            ||| last == (BobStateView::BtcPunished { tx_lock_id: proof.tx_lock_id }) && events[0]
                == EventView::Timelocks(ExpiredTimelocks::Punish)
        },
{
    reveal_with_fuel(outcome, 4);
}

/// Whether `event` shows that the cancel timelock has expired.
pub open spec fn shows_expiry(event: EventView) -> bool {
    event is CancelTimelockExpired || (event matches EventView::Timelocks(expired) && !(expired
        is NotExpired))
}

/// Whether the timelocks, as `events` report them, never go back: once an
/// outcome has shown that the cancel timelock has expired, no later one says
/// that none has.
pub open spec fn timelocks_never_revert(events: Seq<EventView>) -> bool {
    forall|i: int, j: int|
        0 <= i < j < events.len() && shows_expiry(#[trigger] events[i]) ==> #[trigger] events[j]
            != EventView::Timelocks(ExpiredTimelocks::NotExpired)
}

/// Whether `stage` lies on the way from the expired cancel timelock to the
/// refund.
spec fn cancelling(stage: TransitionView) -> bool {
    ||| stage matches TransitionView::Recording(state) && (state is CancelTimelockExpired || state
        is BtcCancelled)
    ||| stage is CheckingCancel
    ||| stage is SubmittingCancel
    ||| stage is BtcCancelledTimelocks
    ||| stage is RefundingBtc
}

proof fn lemma_cancelling_is_armed(
    target: spec_fn(BobStateView) -> bool,
    entry: EntryView,
    events: Seq<EventView>,
)
    requires
        timelocks_never_revert(events),
        entry matches EntryView::InFlight(stage) ==> (cancelling(stage) ==> forall|j: int|
            0 <= j < events.len() ==> #[trigger] events[j] != EventView::Timelocks(
                ExpiredTimelocks::NotExpired,
            )),
    ensures
        outcome(target, entry, events) != Err::<BobStateView, SwapError>(
            SwapError::InternalInvariant,
        ),
    decreases events.len(),
{
    if let EntryView::InFlight(stage) = entry {
        if events.len() > 0 {
            let rest = events.drop_first();
            assert(timelocks_never_revert(rest)) by {
                assert forall|i: int, j: int|
                    0 <= i < j < rest.len() && shows_expiry(
                        #[trigger] rest[i],
                    ) implies #[trigger] rest[j] != EventView::Timelocks(
                    ExpiredTimelocks::NotExpired,
                ) by {}
            }
            if cancelling(stage) || shows_expiry(events[0]) {
                assert forall|j: int| 0 <= j < rest.len() implies #[trigger] rest[j]
                    != EventView::Timelocks(ExpiredTimelocks::NotExpired) by {}
            }
            lemma_cancelled_without_expiry_is_fatal(stage, events[0], arbitrary());
            match stage.step(events[0]) {
                Ok(ProgressView::Continue(next)) => {
                    if cancelling(next) && !cancelling(stage) {
                        lemma_expiry_needs_evidence(
                            stage,
                            events[0],
                            next->Recording_0->CancelTimelockExpired_0,
                        );
                    }
                    lemma_cancelling_is_armed(target, EntryView::InFlight(next), rest);
                },
                Ok(ProgressView::Recorded(state)) => {
                    lemma_cancelling_is_armed(target, enter_spec(state, target(state)), rest);
                },
                Err(_) => {},
            }
        }
    }
}

/// With timelocks that never go back, the engine's one fatal error cannot
/// happen to a swap that is driven from a state before the expiry of the
/// cancel timelock. The cancel transaction is only ever sent on evidence that
/// the timelock has expired, so when the timelocks are asked for after it is
/// confirmed, they cannot be reported as not expired.
pub proof fn lemma_steady_timelocks_are_never_fatal(
    target: spec_fn(BobStateView) -> bool,
    state: BobStateView,
    events: Seq<EventView>,
)
    requires
        timelocks_never_revert(events),
        !(state is CancelTimelockExpired),
        !(state is BtcCancelled),
    ensures
        run_spec(target, state, events) != Err::<BobStateView, SwapError>(
            SwapError::InternalInvariant,
        ),
{
    lemma_cancelling_is_armed(target, enter_spec(state, target(state)), events);
}

/// Every outcome that is taken in brings the end of the swap nearer: the
/// stage that follows has a smaller budget, and so has the state that is
/// handed out, whose transition starts with the budget of the state.
pub proof fn lemma_step_spends_budget(stage: TransitionView, event: EventView)
    ensures
        stage.step(event) matches Ok(ProgressView::Continue(next)) ==> next.budget()
            < stage.budget(),
        stage.step(event) matches Ok(ProgressView::Recorded(state)) ==> state.budget()
            < stage.budget(),
        forall|state: BobStateView| #[trigger]
            begin_spec(state) matches Some(first) ==> first.budget() == state.budget(),
        forall|state: BobStateView| state.budget() == 0 <==> #[trigger] state.terminal(),
        stage.budget() <= 33,
{
    if let TransitionView::Negotiating(negotiation) = stage {
        if let EventView::Handshake(outcome) = event {
            lemma_handshake_in_order(negotiation, outcome);
        }
    }
}

/// A swap is never driven for ever. With as many outcomes on record as the
/// budget of where it stands, a run does not end for want of outcomes: it
/// ends in a state or with the error of a failure.
pub proof fn lemma_run_is_bounded(
    target: spec_fn(BobStateView) -> bool,
    entry: EntryView,
    events: Seq<EventView>,
)
    requires
        entry matches EntryView::InFlight(stage) ==> stage.budget() <= events.len(),
    ensures
        outcome(target, entry, events) != Err::<BobStateView, SwapError>(SwapError::Interrupted),
    decreases events.len(),
{
    if let EntryView::InFlight(stage) = entry {
        lemma_step_spends_budget(stage, events[0]);
        match stage.step(events[0]) {
            Ok(ProgressView::Continue(next)) => {
                lemma_run_is_bounded(target, EntryView::InFlight(next), events.drop_first());
            },
            Ok(ProgressView::Recorded(state)) => {
                let after = enter_spec(state, target(state));
                lemma_run_is_bounded(target, after, events.drop_first());
            },
            Err(error) => {
                lemma_interrupted_is_no_failure(stage, events[0]);
            },
        }
    }
}

/// Thirty-two outcomes are enough to drive a swap from any state to a state
/// in which the run ends, or to the failure that stops it.
pub proof fn lemma_run_ends(
    target: spec_fn(BobStateView) -> bool,
    state: BobStateView,
    events: Seq<EventView>,
)
    requires
        state.budget() <= events.len(),
    ensures
        state.budget() <= 32,
        run_spec(target, state, events) != Err::<BobStateView, SwapError>(SwapError::Interrupted),
{
    lemma_step_spends_budget(TransitionView::Recording(state), EventView::Completed);
    lemma_run_is_bounded(target, enter_spec(state, target(state)), events);
}

/// No operation fails with [`SwapError::Interrupted`]: that error only ever
/// says that the record of outcomes ended.
pub proof fn lemma_interrupted_is_no_failure(stage: TransitionView, event: EventView)
    ensures
        stage.step(event) != Err::<ProgressView, SwapError>(SwapError::Interrupted),
{
    if let TransitionView::Negotiating(negotiation) = stage {
        if let EventView::Handshake(outcome) = event {
            lemma_handshake_in_order(negotiation, outcome);
        }
    }
}

} // verus!
