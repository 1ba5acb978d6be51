use swap::{
    negotiate, HandshakeAction, HandshakeEvent, HandshakeProgress, InitialSetup,
    IntermediateSetup, Message, NegotiatedSetup, Negotiation, SwapAmounts, SwapError,
};

fn local_setup() -> InitialSetup {
    InitialSetup { material: vec![0xa0, 0xa1, 0xa2] }
}

fn agreed() -> SwapAmounts {
    SwapAmounts { btc: 250_000, xmr: 7_000_000_000 }
}

fn first_message() -> Message {
    Message { payload: vec![0xb0] }
}

fn second_message() -> Message {
    Message { payload: vec![0xb1, 0xb2] }
}

fn halfway() -> IntermediateSetup {
    IntermediateSetup { material: vec![0xc0, 0xc1] }
}

fn shared() -> NegotiatedSetup {
    NegotiatedSetup { material: vec![0xd0, 0xd1, 0xd2, 0xd3] }
}

fn good_transcript() -> Vec<HandshakeEvent> {
    vec![
        HandshakeEvent::Done,
        HandshakeEvent::Done,
        HandshakeEvent::Received(first_message()),
        HandshakeEvent::Intermediate(halfway()),
        HandshakeEvent::Done,
        HandshakeEvent::Received(second_message()),
        HandshakeEvent::Negotiated(shared()),
        HandshakeEvent::Done,
    ]
}

#[test]
fn handshake_yields_the_negotiated_setup() {
    assert_eq!(negotiate(local_setup(), agreed(), good_transcript()), Ok(shared()));
}

#[test]
fn handshake_ignores_what_follows_its_end() {
    let mut events = good_transcript();
    events.push(HandshakeEvent::Failed);
    events.push(HandshakeEvent::Negotiated(NegotiatedSetup { material: vec![9] }));
    assert_eq!(negotiate(local_setup(), agreed(), events), Ok(shared()));
}

#[test]
fn handshake_asks_for_its_operations_in_order() {
    let mut negotiation = Negotiation::new(local_setup(), agreed());
    let mut asked = Vec::new();
    let mut result = None;
    for event in good_transcript() {
        asked.push(negotiation.action());
        match negotiation.step(event) {
            Ok(HandshakeProgress::Continue(next)) => negotiation = next,
            Ok(HandshakeProgress::Finished(setup)) => {
                result = Some(setup);
                break;
            }
            Err(error) => panic!("the handshake failed: {:?}", error),
        }
    }
    assert_eq!(
        asked,
        vec![
            HandshakeAction::RequestAmounts { btc: 250_000 },
            HandshakeAction::SendMessage0,
            HandshakeAction::ReceiveMessage0,
            HandshakeAction::DeriveIntermediate,
            HandshakeAction::SendMessage1,
            HandshakeAction::ReceiveMessage1,
            HandshakeAction::DeriveNegotiated,
            HandshakeAction::SendMessage2,
        ]
    );
    assert_eq!(result, Some(shared()));
}

#[test]
fn handshake_keeps_what_it_was_given() {
    let start = Negotiation::new(local_setup(), agreed());
    assert_eq!(start, Negotiation::Announcing { state0: local_setup(), amounts: agreed() });
    let next = start.step(HandshakeEvent::Done);
    assert_eq!(
        next,
        Ok(HandshakeProgress::Continue(Negotiation::SendingMessage0 { state0: local_setup() }))
    );
    let waiting = Negotiation::AwaitingMessage0 { state0: local_setup() };
    assert_eq!(
        waiting.step(HandshakeEvent::Received(first_message())),
        Ok(HandshakeProgress::Continue(Negotiation::DerivingIntermediate {
            state0: local_setup(),
            message: first_message(),
        }))
    );
    let deriving =
        Negotiation::DerivingNegotiated { state1: halfway(), message: second_message() };
    assert_eq!(
        deriving.step(HandshakeEvent::Negotiated(shared())),
        Ok(HandshakeProgress::Continue(Negotiation::SendingMessage2 { state2: shared() }))
    );
}

#[test]
fn refused_amounts_are_a_network_error() {
    assert_eq!(
        negotiate(local_setup(), agreed(), vec![HandshakeEvent::Failed]),
        Err(SwapError::Network)
    );
}

#[test]
fn a_failure_ends_the_handshake_with_the_error_of_its_operation() {
    let expected = [
        SwapError::Network,
        SwapError::Network,
        SwapError::Network,
        SwapError::Validation,
        SwapError::Network,
        SwapError::Network,
        SwapError::Validation,
        SwapError::Network,
    ];
    for (at, error) in expected.iter().enumerate() {
        let mut events = good_transcript();
        events[at] = HandshakeEvent::Failed;
        assert_eq!(negotiate(local_setup(), agreed(), events), Err(*error), "failure at {}", at);
    }
}

#[test]
fn an_invalid_first_message_is_a_validation_error() {
    let events = vec![
        HandshakeEvent::Done,
        HandshakeEvent::Done,
        HandshakeEvent::Received(first_message()),
        HandshakeEvent::Failed,
    ];
    assert_eq!(negotiate(local_setup(), agreed(), events), Err(SwapError::Validation));
}

#[test]
fn an_outcome_out_of_turn_is_refused() {
    let events = vec![HandshakeEvent::Done, HandshakeEvent::Received(first_message())];
    assert_eq!(negotiate(local_setup(), agreed(), events), Err(SwapError::UnexpectedEvent));
    let events = vec![HandshakeEvent::Negotiated(shared())];
    assert_eq!(negotiate(local_setup(), agreed(), events), Err(SwapError::UnexpectedEvent));
}

#[test]
fn a_transcript_that_breaks_off_is_interrupted() {
    for length in 0..8 {
        let mut events = good_transcript();
        events.truncate(length);
        assert_eq!(
            negotiate(local_setup(), agreed(), events),
            Err(SwapError::Interrupted),
            "after {} outcomes",
            length
        );
    }
}
