use swap::{
    enter, is_btc_locked, is_complete, is_encsig_sent, is_xmr_locked, run, run_until, Action,
    BobState, Entry, Event, ExpiredTimelocks, HandshakeEvent, InitialSetup, IntermediateSetup,
    LockProof, Message, NegotiatedSetup, Progress, SwapAmounts, SwapError, TransferProof, TxId,
};

fn fresh() -> BobState {
    BobState::Started {
        state0: InitialSetup { material: vec![0x01, 0x02] },
        amounts: SwapAmounts { btc: 1_000_000, xmr: 40_000_000_000 },
    }
}

fn negotiated() -> NegotiatedSetup {
    NegotiatedSetup { material: vec![0x20, 0x21] }
}

fn btc_lock() -> LockProof {
    LockProof { tx_lock_id: TxId { bytes: vec![0xaa; 32] }, material: vec![0x30] }
}

fn xmr_lock() -> LockProof {
    LockProof { tx_lock_id: TxId { bytes: vec![0xaa; 32] }, material: vec![0x40, 0x41] }
}

fn redeemed() -> LockProof {
    LockProof { tx_lock_id: TxId { bytes: vec![0xaa; 32] }, material: vec![0x50, 0x51, 0x52] }
}

fn quiet() -> Event {
    Event::Timelocks(ExpiredTimelocks::NotExpired)
}

fn handshake_events() -> Vec<Event> {
    vec![
        Event::Completed,
        Event::Handshake(HandshakeEvent::Done),
        Event::Handshake(HandshakeEvent::Done),
        Event::Handshake(HandshakeEvent::Received(Message { payload: vec![0x10] })),
        Event::Handshake(HandshakeEvent::Intermediate(IntermediateSetup { material: vec![0x11] })),
        Event::Handshake(HandshakeEvent::Done),
        Event::Handshake(HandshakeEvent::Received(Message { payload: vec![0x12] })),
        Event::Handshake(HandshakeEvent::Negotiated(negotiated())),
        Event::Handshake(HandshakeEvent::Done),
        Event::Completed,
    ]
}

fn locking_events() -> Vec<Event> {
    vec![Event::Completed, Event::BtcLocked(btc_lock()), Event::Completed]
}

fn xmr_locking_events() -> Vec<Event> {
    vec![
        quiet(),
        Event::Completed,
        Event::MoneroHeight(2_750_000),
        Event::TransferProof(TransferProof { payload: vec![0x33; 4] }),
        Event::XmrLocked(xmr_lock()),
        Event::Completed,
    ]
}

fn encsig_events() -> Vec<Event> {
    vec![quiet(), Event::Completed, Event::Completed, Event::Completed]
}

fn redeem_events() -> Vec<Event> {
    vec![quiet(), Event::BtcRedeemed(redeemed()), Event::Completed]
}

fn claim_events() -> Vec<Event> {
    vec![Event::Completed, Event::Completed]
}

fn happy_path() -> Vec<Event> {
    let mut events = handshake_events();
    events.extend(locking_events());
    events.extend(xmr_locking_events());
    events.extend(encsig_events());
    events.extend(redeem_events());
    events.extend(claim_events());
    events
}

fn refund_path() -> Vec<Event> {
    vec![
        quiet(),
        Event::Completed,
        Event::MoneroHeight(2_750_000),
        Event::CancelTimelockExpired,
        Event::Completed,
        Event::Failed,
        Event::Completed,
        Event::Completed,
        Event::Timelocks(ExpiredTimelocks::Cancel),
        Event::Completed,
        Event::Completed,
    ]
}

fn is_cancel_timelock_expired(state: &BobState) -> bool {
    matches!(state, BobState::CancelTimelockExpired(..))
}

fn is_btc_cancelled(state: &BobState) -> bool {
    matches!(state, BobState::BtcCancelled(..))
}

fn is_negotiated(state: &BobState) -> bool {
    matches!(state, BobState::Negotiated(..))
}

fn holds_always(_: &BobState) -> bool {
    true
}

fn holds_never(_: &BobState) -> bool {
    false
}

/// Drives one state at a time and returns what was asked for and what was
/// recorded, with the result of the run.
fn trace(
    start: BobState,
    events: Vec<Event>,
) -> (Vec<Action>, Vec<BobState>, Result<BobState, SwapError>) {
    let mut asked = Vec::new();
    let mut recorded = Vec::new();
    let mut events = events.into_iter();
    let mut state = start;
    loop {
        let mut transition = match enter(state, &is_complete) {
            Entry::Finished(last) => return (asked, recorded, Ok(last)),
            Entry::InFlight(transition) => transition,
        };
        state = loop {
            asked.push(transition.action());
            let event = match events.next() {
                Some(event) => event,
                None => return (asked, recorded, Err(SwapError::Interrupted)),
            };
            match transition.step(event) {
                Ok(Progress::Continue(next)) => transition = next,
                Ok(Progress::Recorded(reached)) => {
                    recorded.push(reached.clone());
                    break reached;
                }
                Err(error) => return (asked, recorded, Err(error)),
            }
        };
    }
}

#[test]
fn a_swap_in_which_everything_succeeds_ends_redeemed() {
    let last = run(fresh(), happy_path());
    assert_eq!(last, Ok(BobState::XmrRedeemed { tx_lock_id: TxId { bytes: vec![0xaa; 32] } }));
}

#[test]
fn a_swap_in_which_everything_succeeds_records_every_state_once() {
    let (asked, recorded, last) = trace(fresh(), happy_path());
    assert_eq!(
        recorded,
        vec![
            BobState::Negotiated(negotiated()),
            BobState::BtcLocked(btc_lock()),
            BobState::XmrLocked(xmr_lock()),
            BobState::EncSigSent(xmr_lock()),
            BobState::BtcRedeemed(redeemed()),
            BobState::XmrRedeemed { tx_lock_id: TxId { bytes: vec![0xaa; 32] } },
        ]
    );
    assert_eq!(last.as_ref(), Ok(recorded.last().unwrap()));
    assert_eq!(asked.len(), 28);
    assert_eq!(asked.iter().filter(|action| **action == Action::Persist).count(), 6);
    assert_eq!(asked.iter().filter(|action| **action == Action::Dial).count(), 4);
    assert!(!asked.contains(&Action::SubmitCancel));
    assert!(!asked.contains(&Action::RefundBtc));
}

#[test]
fn a_swap_can_be_driven_up_to_a_chosen_state() {
    assert_eq!(
        run_until(fresh(), is_negotiated, happy_path()),
        Ok(BobState::Negotiated(negotiated()))
    );
    assert_eq!(run_until(fresh(), is_btc_locked, happy_path()), Ok(BobState::BtcLocked(btc_lock())));
    assert_eq!(run_until(fresh(), is_xmr_locked, happy_path()), Ok(BobState::XmrLocked(xmr_lock())));
    assert_eq!(
        run_until(fresh(), is_encsig_sent, happy_path()),
        Ok(BobState::EncSigSent(xmr_lock()))
    );
}

#[test]
fn a_chosen_state_that_is_passed_by_does_not_stop_the_swap() {
    assert_eq!(
        run_until(BobState::BtcLocked(btc_lock()), is_xmr_locked, refund_path()),
        Ok(BobState::BtcRefunded(btc_lock()))
    );
}

#[test]
fn a_target_that_already_holds_returns_at_once() {
    let starts = vec![
        fresh(),
        BobState::Negotiated(negotiated()),
        BobState::BtcLocked(btc_lock()),
        BobState::XmrLocked(xmr_lock()),
        BobState::EncSigSent(xmr_lock()),
        BobState::BtcRedeemed(redeemed()),
        BobState::CancelTimelockExpired(btc_lock()),
        BobState::BtcCancelled(btc_lock()),
    ];
    for start in starts {
        assert_eq!(run_until(start.clone(), holds_always, vec![]), Ok(start.clone()));
        assert_eq!(run_until(start.clone(), holds_always, happy_path()), Ok(start.clone()));
        assert_eq!(
            run_until(start.clone(), holds_always, vec![Event::Failed]),
            Ok(start.clone())
        );
        assert_eq!(enter(start.clone(), &holds_always), Entry::Finished(start));
    }
    assert_eq!(
        run_until(BobState::BtcLocked(btc_lock()), is_btc_locked, refund_path()),
        Ok(BobState::BtcLocked(btc_lock()))
    );
}

#[test]
fn a_final_state_returns_at_once() {
    let finals = vec![
        BobState::BtcRefunded(btc_lock()),
        BobState::BtcPunished { tx_lock_id: TxId { bytes: vec![1] } },
        BobState::XmrRedeemed { tx_lock_id: TxId { bytes: vec![2] } },
        BobState::SafelyAborted,
    ];
    for last in finals {
        assert_eq!(run(last.clone(), happy_path()), Ok(last.clone()));
        assert_eq!(run_until(last.clone(), holds_never, vec![]), Ok(last.clone()));
        assert_eq!(run_until(last.clone(), is_btc_locked, refund_path()), Ok(last));
    }
}

#[test]
fn an_expired_cancel_timelock_leads_to_the_refund() {
    let (asked, recorded, last) = trace(BobState::BtcLocked(btc_lock()), refund_path());
    assert_eq!(last, Ok(BobState::BtcRefunded(btc_lock())));
    assert_eq!(
        recorded,
        vec![
            BobState::CancelTimelockExpired(btc_lock()),
            BobState::BtcCancelled(btc_lock()),
            BobState::BtcRefunded(btc_lock()),
        ]
    );
    assert_eq!(
        asked,
        vec![
            Action::QueryTimelocks,
            Action::Dial,
            Action::ReadMoneroHeight,
            Action::AwaitTransferProof,
            Action::Persist,
            Action::CheckCancel,
            Action::SubmitCancel,
            Action::Persist,
            Action::QueryTimelocks,
            Action::RefundBtc,
            Action::Persist,
        ]
    );
    assert_eq!(run(BobState::BtcLocked(btc_lock()), refund_path()), last);
}

#[test]
fn the_timelock_can_win_the_nested_race_too() {
    let events = vec![
        quiet(),
        Event::Completed,
        Event::MoneroHeight(5),
        Event::TransferProof(TransferProof { payload: vec![1] }),
        Event::CancelTimelockExpired,
        Event::Completed,
    ];
    assert_eq!(
        run_until(BobState::BtcLocked(btc_lock()), is_cancel_timelock_expired, events),
        Ok(BobState::CancelTimelockExpired(btc_lock()))
    );
}

#[test]
fn a_timelock_that_expired_while_away_is_seen_on_entry() {
    for start in [
        BobState::BtcLocked(btc_lock()),
        BobState::XmrLocked(btc_lock()),
        BobState::EncSigSent(btc_lock()),
    ] {
        let events = vec![Event::Timelocks(ExpiredTimelocks::Cancel), Event::Completed];
        assert_eq!(
            run_until(start, is_cancel_timelock_expired, events),
            Ok(BobState::CancelTimelockExpired(btc_lock()))
        );
    }
}

#[test]
fn a_cancel_transaction_found_on_chain_is_not_sent_again() {
    let events = vec![
        Event::Completed,
        Event::Completed,
        Event::Timelocks(ExpiredTimelocks::Cancel),
        Event::Completed,
        Event::Completed,
    ];
    let (asked, recorded, last) = trace(BobState::CancelTimelockExpired(btc_lock()), events);
    assert_eq!(last, Ok(BobState::BtcRefunded(btc_lock())));
    assert_eq!(
        recorded,
        vec![BobState::BtcCancelled(btc_lock()), BobState::BtcRefunded(btc_lock())]
    );
    assert!(!asked.contains(&Action::SubmitCancel));
}

#[test]
fn an_expired_punish_timelock_forfeits_the_bitcoin() {
    let events = vec![Event::Timelocks(ExpiredTimelocks::Punish), Event::Completed];
    let (asked, recorded, last) = trace(BobState::BtcCancelled(btc_lock()), events);
    let punished = BobState::BtcPunished { tx_lock_id: TxId { bytes: vec![0xaa; 32] } };
    assert_eq!(last, Ok(punished.clone()));
    assert_eq!(recorded, vec![punished]);
    assert_eq!(asked, vec![Action::QueryTimelocks, Action::Persist]);
}

#[test]
fn a_cancelled_swap_with_no_expired_timelock_fails_fatally() {
    let events = vec![quiet(), Event::Completed, Event::Completed];
    let (asked, recorded, last) = trace(BobState::BtcCancelled(btc_lock()), events.clone());
    assert_eq!(last, Err(SwapError::InternalInvariant));
    assert!(recorded.is_empty());
    assert_eq!(asked, vec![Action::QueryTimelocks]);
    assert_eq!(run(BobState::BtcCancelled(btc_lock()), events), Err(SwapError::InternalInvariant));
    assert!(SwapError::InternalInvariant.is_fatal());
}

#[test]
fn resuming_from_a_recorded_state_ends_where_the_first_run_ends() {
    let whole = run(BobState::BtcLocked(btc_lock()), refund_path());
    assert_eq!(whole, Ok(BobState::BtcRefunded(btc_lock())));

    let first_stop = run_until(
        BobState::BtcLocked(btc_lock()),
        is_cancel_timelock_expired,
        refund_path()[..5].to_vec(),
    )
    .unwrap();
    assert_eq!(first_stop, BobState::CancelTimelockExpired(btc_lock()));
    assert_eq!(run(first_stop, refund_path()[5..].to_vec()), whole);

    let second_stop =
        run_until(BobState::BtcLocked(btc_lock()), is_btc_cancelled, refund_path()[..8].to_vec())
            .unwrap();
    assert_eq!(second_stop, BobState::BtcCancelled(btc_lock()));
    assert_eq!(run(second_stop, refund_path()[8..].to_vec()), whole);
}

#[test]
fn resuming_works_at_every_recorded_state_of_a_successful_swap() {
    let whole = run(fresh(), happy_path());
    let stops = vec![
        (10, BobState::Negotiated(negotiated())),
        (13, BobState::BtcLocked(btc_lock())),
        (19, BobState::XmrLocked(xmr_lock())),
        (23, BobState::EncSigSent(xmr_lock())),
        (26, BobState::BtcRedeemed(redeemed())),
    ];
    for (count, state) in stops {
        let (_, recorded, _) = trace(fresh(), happy_path()[..count].to_vec());
        assert_eq!(recorded.last(), Some(&state));
        assert_eq!(run(state, happy_path()[count..].to_vec()), whole);
    }
}

#[test]
fn a_failure_leaves_the_swap_where_it_was_recorded_last() {
    let mut events = handshake_events();
    events.extend(vec![Event::Completed, Event::Failed]);
    let (asked, recorded, last) = trace(fresh(), events);
    assert_eq!(last, Err(SwapError::Blockchain));
    assert_eq!(recorded, vec![BobState::Negotiated(negotiated())]);
    assert_eq!(asked.last(), Some(&Action::LockBtc));
    assert_eq!(
        run(BobState::Negotiated(negotiated()), locking_events()),
        Err(SwapError::Interrupted)
    );
    assert_eq!(
        run_until(BobState::Negotiated(negotiated()), is_btc_locked, locking_events()),
        Ok(BobState::BtcLocked(btc_lock()))
    );
}

#[test]
fn a_failed_handshake_records_nothing() {
    let mut events = handshake_events();
    events[4] = Event::Handshake(HandshakeEvent::Failed);
    let (_, recorded, last) = trace(fresh(), events);
    assert_eq!(last, Err(SwapError::Validation));
    assert!(recorded.is_empty());
}

#[test]
fn every_failure_is_told_apart() {
    assert_eq!(run(fresh(), vec![Event::Failed]), Err(SwapError::Network));
    let mut events = handshake_events();
    events[7] = Event::Handshake(HandshakeEvent::Failed);
    assert_eq!(run(fresh(), events), Err(SwapError::Validation));
    assert_eq!(
        run(BobState::BtcRedeemed(redeemed()), vec![Event::Failed]),
        Err(SwapError::Blockchain)
    );
    assert_eq!(
        run(BobState::BtcRedeemed(redeemed()), vec![Event::Completed, Event::Failed]),
        Err(SwapError::Persistence)
    );
    assert_eq!(
        run(BobState::BtcCancelled(btc_lock()), vec![quiet()]),
        Err(SwapError::InternalInvariant)
    );
    assert_eq!(
        run(BobState::BtcRedeemed(redeemed()), vec![Event::MoneroHeight(1)]),
        Err(SwapError::UnexpectedEvent)
    );
    assert_eq!(run(BobState::BtcRedeemed(redeemed()), vec![]), Err(SwapError::Interrupted));
}

#[test]
fn a_record_that_breaks_off_is_interrupted() {
    for length in 0..28 {
        let mut events = happy_path();
        events.truncate(length);
        assert_eq!(run(fresh(), events), Err(SwapError::Interrupted), "after {}", length);
    }
    assert_eq!(happy_path().len(), 28);
}

#[test]
fn the_longest_swap_takes_thirty_two_operations() {
    let mut events = handshake_events();
    events.extend(locking_events());
    events.extend(xmr_locking_events());
    events.extend(encsig_events());
    events.extend(vec![quiet(), Event::CancelTimelockExpired, Event::Completed]);
    events.extend(vec![Event::Failed, Event::Completed, Event::Completed]);
    events.extend(vec![
        Event::Timelocks(ExpiredTimelocks::Cancel),
        Event::Completed,
        Event::Completed,
    ]);
    assert_eq!(events.len(), 32);
    let (asked, recorded, last) = trace(fresh(), events);
    assert_eq!(last, Ok(BobState::BtcRefunded(xmr_lock())));
    assert_eq!(asked.len(), 32);
    assert_eq!(recorded.len(), 7);
}

#[test]
fn a_swap_that_locked_bitcoin_never_ends_aborted() {
    let ways: Vec<Vec<Event>> = vec![
        refund_path(),
        vec![
            Event::Timelocks(ExpiredTimelocks::Punish),
            Event::Completed,
            Event::Completed,
            Event::Completed,
            Event::Timelocks(ExpiredTimelocks::Punish),
            Event::Completed,
        ],
        {
            let mut events = xmr_locking_events();
            events.extend(encsig_events());
            events.extend(redeem_events());
            events.extend(claim_events());
            events
        },
    ];
    for events in ways {
        let last = run(BobState::BtcLocked(btc_lock()), events).unwrap();
        assert!(is_complete(&last));
        assert_ne!(last, BobState::SafelyAborted);
        assert!(matches!(
            last,
            BobState::BtcRefunded(..) | BobState::BtcPunished { .. } | BobState::XmrRedeemed { .. }
        ));
    }
}
