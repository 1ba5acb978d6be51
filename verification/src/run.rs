//! Driving a swap through as many transitions as it takes.
//!
//! The functions here drive a swap against a record of how its operations
//! ended. Each state that a transition reaches is looked at before anything
//! else happens: if it is the state asked for, or a final one, the swap stops
//! there. A swap can therefore be driven in pieces, and what a piece arrives
//! at depends only on the state it started from and on the outcomes it was
//! given, never on the pieces before it.

use vstd::prelude::*;

use crate::error::SwapError;
use crate::state::{is_complete, BobState, BobStateView};
use crate::transition::{
    computes, enter, enter_spec, outcomes, total, Entry, EntryView, Event, EventView, Progress,
    ProgressView,
};

verus! {

/// Where a swap that stands at `entry` ends when its operations end as
/// `events` say, one after the other, and it is to stop at the first state
/// reached of which `target` holds.
pub open spec fn outcome(
    target: spec_fn(BobStateView) -> bool,
    entry: EntryView,
    events: Seq<EventView>,
) -> Result<BobStateView, SwapError>
    decreases events.len(),
{
    match entry {
        EntryView::Finished(state) => Ok(state),
        EntryView::InFlight(transition) => if events.len() == 0 {
            Err(SwapError::Interrupted)
        } else {
            match transition.step(events[0]) {
                Err(error) => Err(error),
                Ok(ProgressView::Continue(next)) => outcome(
                    target,
                    EntryView::InFlight(next),
                    events.drop_first(),
                ),
                Ok(ProgressView::Recorded(state)) => outcome(
                    target,
                    enter_spec(state, target(state)),
                    events.drop_first(),
                ),
            }
        },
    }
}

/// Where a swap in `state` ends when it is driven until `target` holds or a
/// final state is reached, and its operations end as `events` say.
pub open spec fn run_spec(
    target: spec_fn(BobStateView) -> bool,
    state: BobStateView,
    events: Seq<EventView>,
) -> Result<BobStateView, SwapError> {
    outcome(target, enter_spec(state, target(state)), events)
}

/// The states that a swap standing at `entry` records, in the order in which
/// it records them, when its operations end as `events` say.
pub open spec fn journal(
    target: spec_fn(BobStateView) -> bool,
    entry: EntryView,
    events: Seq<EventView>,
) -> Seq<BobStateView>
    decreases events.len(),
{
    match entry {
        EntryView::Finished(_) => Seq::empty(),
        EntryView::InFlight(transition) => if events.len() == 0 {
            Seq::empty()
        } else {
            match transition.step(events[0]) {
                Err(_) => Seq::empty(),
                Ok(ProgressView::Continue(next)) => journal(
                    target,
                    EntryView::InFlight(next),
                    events.drop_first(),
                ),
                Ok(ProgressView::Recorded(state)) => seq![state] + journal(
                    target,
                    enter_spec(state, target(state)),
                    events.drop_first(),
                ),
            }
        },
    }
}

/// Whether, for a swap standing at `entry`, the outcome `events[count - 1]`
/// is the one that confirms the recording of `state`.
pub open spec fn recorded_at(
    target: spec_fn(BobStateView) -> bool,
    entry: EntryView,
    events: Seq<EventView>,
    count: nat,
    state: BobStateView,
) -> bool
    decreases count,
{
    if count == 0 || events.len() == 0 {
        false
    } else {
        match entry {
            EntryView::Finished(_) => false,
            EntryView::InFlight(transition) => match transition.step(events[0]) {
                Err(_) => false,
                Ok(ProgressView::Continue(next)) => recorded_at(
                    target,
                    EntryView::InFlight(next),
                    events.drop_first(),
                    (count - 1) as nat,
                    state,
                ),
                Ok(ProgressView::Recorded(reached)) => if count == 1 {
                    reached == state
                } else {
                    recorded_at(
                        target,
                        enter_spec(reached, target(reached)),
                        events.drop_first(),
                        (count - 1) as nat,
                        state,
                    )
                },
            },
        }
    }
}

/// The predicate that holds of the final states.
pub open spec fn completion() -> spec_fn(BobStateView) -> bool {
    |state: BobStateView| state.terminal()
}

/// The view of what driving a swap returns.
pub open spec fn state_view(result: Result<BobState, SwapError>) -> Result<
    BobStateView,
    SwapError,
> {
    match result {
        Ok(state) => Ok(state@),
        Err(error) => Err(error),
    }
}

/// Drives a swap from `state` until `is_target_state` holds of the state it
/// is in or that state is final, and returns that state.
///
/// `events` holds the outcomes of the operations in the order in which they
/// are asked for. If `is_target_state` already holds of `state`, or `state`
/// is final, it comes back at once and no outcome is looked at. The first
/// failure ends the run with its error. A record that ends while an operation
/// is pending gives [`SwapError::Interrupted`].
///
/// The result is stated for every predicate that `is_target_state` computes;
/// for a function with a contract that is the predicate its contract names.
#[verifier::loop_isolation(false)]
pub fn run_until<F: Fn(&BobState) -> bool>(
    state: BobState,
    is_target_state: F,
    events: Vec<Event>,
) -> (r: Result<BobState, SwapError>)
    requires
        total(is_target_state),
    ensures
        forall|target: spec_fn(BobStateView) -> bool| #[trigger]
            computes(is_target_state, target) ==> state_view(r) == run_spec(
                target,
                state@,
                outcomes(events@),
            ),
        state@.terminal() || (forall|answer: bool|
            call_ensures(is_target_state, (&state,), answer) ==> answer) ==> state_view(r) == Ok::<
            BobStateView,
            SwapError,
        >(state@),
{
    let ghost record = outcomes(events@);
    let mut transition = match enter(state, &is_target_state) {
        Entry::Finished(last) => {
            return Ok(last);
        },
        Entry::InFlight(transition) => transition,
    };
    assert(record.skip(0) =~= record);
    for event in rest: events
        invariant
            rest.seq() == events@,
            forall|target: spec_fn(BobStateView) -> bool| #[trigger]
                computes(is_target_state, target) ==> outcome(
                    target,
                    EntryView::InFlight(transition@),
                    record.skip(rest.index() as int),
                ) == run_spec(target, state@, record),
    {
        let ghost pending = transition@;
        let ghost ahead = record.skip(rest.index() as int);
        assert(ahead.drop_first() =~= record.skip(rest.index() + 1));
        assert(ahead[0] == event@);
        match transition.step(event) {
            Err(error) => {
                return Err(error);
            },
            Ok(Progress::Continue(next)) => {
                transition = next;
            },
            Ok(Progress::Recorded(reached)) => {
                let ghost reached_view = reached@;
                match enter(reached, &is_target_state) {
                    Entry::Finished(last) => {
                        assert forall|target: spec_fn(BobStateView) -> bool| #[trigger]
                            computes(is_target_state, target) implies Ok::<BobStateView, SwapError>(
                            last@,
                        ) == run_spec(target, state@, record) by {
                            let entry = enter_spec(reached_view, target(reached_view));
                            assert(entry == EntryView::Finished(last@));
                            assert(outcome(target, EntryView::InFlight(pending), ahead) == outcome(
                                target,
                                entry,
                                ahead.drop_first(),
                            ));
                        }
                        return Ok(last);
                    },
                    Entry::InFlight(next) => {
                        transition = next;
                    },
                }
            },
        }
    }
    Err(SwapError::Interrupted)
}

/// Drives a swap from `state` to a final state and returns that state.
///
/// This is [`run_until`] with [`is_complete`] as the state asked for.
pub fn run(state: BobState, events: Vec<Event>) -> (r: Result<BobState, SwapError>)
    ensures
        state_view(r) == run_spec(completion(), state@, outcomes(events@)),
{
    assert(computes(is_complete, completion()));
    run_until(state, is_complete, events)
}

} // verus!
