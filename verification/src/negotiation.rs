//! The handshake that fixes the shared cryptographic setup of a swap.
//!
//! It has three rounds and is strictly sequential: announce the amounts, then
//! exchange two pairs of messages, each of which is combined with what is
//! already held, then send a last message that is not answered. Whatever goes
//! wrong ends the handshake; nothing half-negotiated ever leaves it.

use vstd::prelude::*;

use crate::error::SwapError;
use crate::state::{InitialSetup, IntermediateSetup, Message, NegotiatedSetup, SwapAmounts};

verus! {

/// The operation the handshake needs carried out next.
#[derive(Clone, Copy, Debug, PartialEq, Eq, Structural)]
pub enum HandshakeAction {
    /// Tell the counterparty how much Bitcoin is to be swapped.
    RequestAmounts { btc: u64 },
    /// Derive the first message from the initial setup and fresh randomness,
    /// and send it.
    SendMessage0,
    /// Wait for the counterparty's first message.
    ReceiveMessage0,
    /// Combine the counterparty's first message with the initial setup,
    /// checking it against the Bitcoin wallet.
    DeriveIntermediate,
    /// Derive the second message from the intermediate setup and send it.
    SendMessage1,
    /// Wait for the counterparty's second message.
    ReceiveMessage1,
    /// Combine the counterparty's second message with the intermediate setup.
    DeriveNegotiated,
    /// Derive the third message from the negotiated setup and send it.
    SendMessage2,
}

/// How the operation that was asked for ended.
#[derive(Clone, Debug, PartialEq, Eq)]
pub enum HandshakeEvent {
    /// It succeeded and there is nothing to report.
    Done,
    /// A message arrived.
    Received(Message),
    /// The counterparty's first message was valid; this is the result.
    Intermediate(IntermediateSetup),
    /// The counterparty's second message was valid; this is the result.
    Negotiated(NegotiatedSetup),
    /// It failed.
    Failed,
}

/// A handshake in progress: the operation that is pending, with what the
/// handshake holds at that point.
#[derive(Clone, Debug, PartialEq, Eq)]
pub enum Negotiation {
    Announcing { state0: InitialSetup, amounts: SwapAmounts },
    SendingMessage0 { state0: InitialSetup },
    AwaitingMessage0 { state0: InitialSetup },
    DerivingIntermediate { state0: InitialSetup, message: Message },
    SendingMessage1 { state1: IntermediateSetup },
    AwaitingMessage1 { state1: IntermediateSetup },
    DerivingNegotiated { state1: IntermediateSetup, message: Message },
    SendingMessage2 { state2: NegotiatedSetup },
}

/// Where a handshake stands after an outcome was taken in.
#[derive(Clone, Debug, PartialEq, Eq)]
pub enum HandshakeProgress {
    /// Another operation is pending.
    Continue(Negotiation),
    /// The handshake is over; this is the setup both parties hold.
    Finished(NegotiatedSetup),
}

/// What a [`HandshakeEvent`] holds.
pub enum HandshakeEventView {
    Done,
    Received(Seq<u8>),
    Intermediate(Seq<u8>),
    Negotiated(Seq<u8>),
    Failed,
}

/// What a [`Negotiation`] holds.
pub enum NegotiationView {
    Announcing { state0: Seq<u8>, amounts: SwapAmounts },
    SendingMessage0 { state0: Seq<u8> },
    AwaitingMessage0 { state0: Seq<u8> },
    DerivingIntermediate { state0: Seq<u8>, message: Seq<u8> },
    SendingMessage1 { state1: Seq<u8> },
    AwaitingMessage1 { state1: Seq<u8> },
    DerivingNegotiated { state1: Seq<u8>, message: Seq<u8> },
    SendingMessage2 { state2: Seq<u8> },
}

/// What a [`HandshakeProgress`] holds.
pub enum HandshakeProgressView {
    Continue(NegotiationView),
    Finished(Seq<u8>),
}

impl View for HandshakeEvent {
    type V = HandshakeEventView;

    open spec fn view(&self) -> HandshakeEventView {
        match *self {
            HandshakeEvent::Done => HandshakeEventView::Done,
            HandshakeEvent::Received(message) => HandshakeEventView::Received(message@),
            HandshakeEvent::Intermediate(state1) => HandshakeEventView::Intermediate(state1@),
            HandshakeEvent::Negotiated(state2) => HandshakeEventView::Negotiated(state2@),
            HandshakeEvent::Failed => HandshakeEventView::Failed,
        }
    }
}

impl View for Negotiation {
    type V = NegotiationView;

    open spec fn view(&self) -> NegotiationView {
        match *self {
            Negotiation::Announcing { state0, amounts } => NegotiationView::Announcing {
                state0: state0@,
                amounts,
            },
            Negotiation::SendingMessage0 { state0 } => NegotiationView::SendingMessage0 {
                state0: state0@,
            },
            Negotiation::AwaitingMessage0 { state0 } => NegotiationView::AwaitingMessage0 {
                state0: state0@,
            },
            Negotiation::DerivingIntermediate {
                state0,
                message,
            } => NegotiationView::DerivingIntermediate { state0: state0@, message: message@ },
            Negotiation::SendingMessage1 { state1 } => NegotiationView::SendingMessage1 {
                state1: state1@,
            },
            Negotiation::AwaitingMessage1 { state1 } => NegotiationView::AwaitingMessage1 {
                state1: state1@,
            },
            Negotiation::DerivingNegotiated {
                state1,
                message,
            } => NegotiationView::DerivingNegotiated { state1: state1@, message: message@ },
            Negotiation::SendingMessage2 { state2 } => NegotiationView::SendingMessage2 {
                state2: state2@,
            },
        }
    }
}

impl View for HandshakeProgress {
    type V = HandshakeProgressView;

    open spec fn view(&self) -> HandshakeProgressView {
        match *self {
            HandshakeProgress::Continue(negotiation) => HandshakeProgressView::Continue(
                negotiation@,
            ),
            HandshakeProgress::Finished(state2) => HandshakeProgressView::Finished(state2@),
        }
    }
}

impl NegotiationView {
    /// How many operations of the handshake have been completed.
    pub open spec fn position(self) -> nat {
        match self {
            NegotiationView::Announcing { .. } => 0,
            NegotiationView::SendingMessage0 { .. } => 1,
            NegotiationView::AwaitingMessage0 { .. } => 2,
            NegotiationView::DerivingIntermediate { .. } => 3,
            NegotiationView::SendingMessage1 { .. } => 4,
            NegotiationView::AwaitingMessage1 { .. } => 5,
            NegotiationView::DerivingNegotiated { .. } => 6,
            NegotiationView::SendingMessage2 { .. } => 7,
        }
    }

    /// Whether `event` is the successful outcome of the pending operation.
    pub open spec fn expects(self, event: HandshakeEventView) -> bool {
        match self {
            NegotiationView::Announcing { .. } => event is Done,
            NegotiationView::SendingMessage0 { .. } => event is Done,
            NegotiationView::AwaitingMessage0 { .. } => event is Received,
            NegotiationView::DerivingIntermediate { .. } => event is Intermediate,
            NegotiationView::SendingMessage1 { .. } => event is Done,
            NegotiationView::AwaitingMessage1 { .. } => event is Received,
            NegotiationView::DerivingNegotiated { .. } => event is Negotiated,
            NegotiationView::SendingMessage2 { .. } => event is Done,
        }
    }

    /// The operation that is pending.
    pub open spec fn action(self) -> HandshakeAction {
        match self {
            NegotiationView::Announcing { amounts, .. } => HandshakeAction::RequestAmounts {
                btc: amounts.btc,
            },
            NegotiationView::SendingMessage0 { .. } => HandshakeAction::SendMessage0,
            NegotiationView::AwaitingMessage0 { .. } => HandshakeAction::ReceiveMessage0,
            NegotiationView::DerivingIntermediate { .. } => HandshakeAction::DeriveIntermediate,
            NegotiationView::SendingMessage1 { .. } => HandshakeAction::SendMessage1,
            NegotiationView::AwaitingMessage1 { .. } => HandshakeAction::ReceiveMessage1,
            NegotiationView::DerivingNegotiated { .. } => HandshakeAction::DeriveNegotiated,
            NegotiationView::SendingMessage2 { .. } => HandshakeAction::SendMessage2,
        }
    }

    /// The error that a failure of the pending operation stands for: combining
    /// a message fails because the message is bad, everything else because
    /// the counterparty could not be reached.
    pub open spec fn failure(self) -> SwapError {
        match self {
            NegotiationView::DerivingIntermediate { .. } => SwapError::Validation,
            NegotiationView::DerivingNegotiated { .. } => SwapError::Validation,
            _ => SwapError::Network,
        }
    }

    /// Where the handshake goes when the pending operation ended as `event`
    /// says.
    pub open spec fn step(self, event: HandshakeEventView) -> Result<
        HandshakeProgressView,
        SwapError,
    > {
        match (self, event) {
            (_, HandshakeEventView::Failed) => Err(self.failure()),
            (NegotiationView::Announcing { state0, .. }, HandshakeEventView::Done) => Ok(
                HandshakeProgressView::Continue(NegotiationView::SendingMessage0 { state0 }),
            ),
            (NegotiationView::SendingMessage0 { state0 }, HandshakeEventView::Done) => Ok(
                HandshakeProgressView::Continue(NegotiationView::AwaitingMessage0 { state0 }),
            ),
            (
                NegotiationView::AwaitingMessage0 { state0 },
                HandshakeEventView::Received(message),
            ) => Ok(
                HandshakeProgressView::Continue(
                    NegotiationView::DerivingIntermediate { state0, message },
                ),
            ),
            (
                NegotiationView::DerivingIntermediate { .. },
                HandshakeEventView::Intermediate(state1),
            ) => Ok(HandshakeProgressView::Continue(NegotiationView::SendingMessage1 { state1 })),
            (NegotiationView::SendingMessage1 { state1 }, HandshakeEventView::Done) => Ok(
                HandshakeProgressView::Continue(NegotiationView::AwaitingMessage1 { state1 }),
            ),
            (
                NegotiationView::AwaitingMessage1 { state1 },
                HandshakeEventView::Received(message),
            ) => Ok(
                HandshakeProgressView::Continue(
                    NegotiationView::DerivingNegotiated { state1, message },
                ),
            ),
            (
                NegotiationView::DerivingNegotiated { .. },
                HandshakeEventView::Negotiated(state2),
            ) => Ok(HandshakeProgressView::Continue(NegotiationView::SendingMessage2 { state2 })),
            (NegotiationView::SendingMessage2 { state2 }, HandshakeEventView::Done) => Ok(
                HandshakeProgressView::Finished(state2),
            ),
            _ => Err(SwapError::UnexpectedEvent),
        }
    }
}

/// The view of what a step of the handshake returns.
pub open spec fn progress_view(result: Result<HandshakeProgress, SwapError>) -> Result<
    HandshakeProgressView,
    SwapError,
> {
    match result {
        Ok(progress) => Ok(progress@),
        Err(error) => Err(error),
    }
}

/// The view of what a handshake returns.
pub open spec fn setup_view(result: Result<NegotiatedSetup, SwapError>) -> Result<
    Seq<u8>,
    SwapError,
> {
    match result {
        Ok(state2) => Ok(state2@),
        Err(error) => Err(error),
    }
}

/// The views of the outcomes on a record of a handshake.
pub open spec fn transcript(events: Seq<HandshakeEvent>) -> Seq<HandshakeEventView> {
    events.map_values(|event: HandshakeEvent| event@)
}

impl Negotiation {
    /// Starts a handshake from the local setup and the agreed amounts.
    pub fn new(state0: InitialSetup, amounts: SwapAmounts) -> (r: Negotiation)
        ensures
            r@ == (NegotiationView::Announcing { state0: state0@, amounts }),
    {
        Negotiation::Announcing { state0, amounts }
    }

    /// The operation to carry out next.
    pub fn action(&self) -> (r: HandshakeAction)
        ensures
            r == self@.action(),
    {
        match self {
            Negotiation::Announcing { amounts, .. } => HandshakeAction::RequestAmounts {
                btc: amounts.btc,
            },
            Negotiation::SendingMessage0 { .. } => HandshakeAction::SendMessage0,
            Negotiation::AwaitingMessage0 { .. } => HandshakeAction::ReceiveMessage0,
            Negotiation::DerivingIntermediate { .. } => HandshakeAction::DeriveIntermediate,
            Negotiation::SendingMessage1 { .. } => HandshakeAction::SendMessage1,
            Negotiation::AwaitingMessage1 { .. } => HandshakeAction::ReceiveMessage1,
            Negotiation::DerivingNegotiated { .. } => HandshakeAction::DeriveNegotiated,
            Negotiation::SendingMessage2 { .. } => HandshakeAction::SendMessage2,
        }
    }

    /// Takes in how the pending operation ended.
    ///
    /// A failure ends the handshake with the error that belongs to the
    /// operation; an outcome that does not belong to it ends the handshake
    /// with [`SwapError::UnexpectedEvent`].
    pub fn step(self, event: HandshakeEvent) -> (r: Result<HandshakeProgress, SwapError>)
        ensures
            progress_view(r) == self@.step(event@),
    {
        match self {
            Negotiation::Announcing { state0, amounts: _ } => match event {
                HandshakeEvent::Done => Ok(
                    HandshakeProgress::Continue(Negotiation::SendingMessage0 { state0 }),
                ),
                HandshakeEvent::Failed => Err(SwapError::Network),
                _ => Err(SwapError::UnexpectedEvent),
            },
            Negotiation::SendingMessage0 { state0 } => match event {
                HandshakeEvent::Done => Ok(
                    HandshakeProgress::Continue(Negotiation::AwaitingMessage0 { state0 }),
                ),
                HandshakeEvent::Failed => Err(SwapError::Network),
                _ => Err(SwapError::UnexpectedEvent),
            },
            Negotiation::AwaitingMessage0 { state0 } => match event {
                HandshakeEvent::Received(message) => Ok(
                    HandshakeProgress::Continue(
                        Negotiation::DerivingIntermediate { state0, message },
                    ),
                ),
                HandshakeEvent::Failed => Err(SwapError::Network),
                _ => Err(SwapError::UnexpectedEvent),
            },
            Negotiation::DerivingIntermediate { state0: _, message: _ } => match event {
                HandshakeEvent::Intermediate(state1) => Ok(
                    HandshakeProgress::Continue(Negotiation::SendingMessage1 { state1 }),
                ),
                HandshakeEvent::Failed => Err(SwapError::Validation),
                _ => Err(SwapError::UnexpectedEvent),
            },
            Negotiation::SendingMessage1 { state1 } => match event {
                HandshakeEvent::Done => Ok(
                    HandshakeProgress::Continue(Negotiation::AwaitingMessage1 { state1 }),
                ),
                HandshakeEvent::Failed => Err(SwapError::Network),
                _ => Err(SwapError::UnexpectedEvent),
            },
            Negotiation::AwaitingMessage1 { state1 } => match event {
                HandshakeEvent::Received(message) => Ok(
                    HandshakeProgress::Continue(
                        Negotiation::DerivingNegotiated { state1, message },
                    ),
                ),
                HandshakeEvent::Failed => Err(SwapError::Network),
                _ => Err(SwapError::UnexpectedEvent),
            },
            Negotiation::DerivingNegotiated { state1: _, message: _ } => match event {
                HandshakeEvent::Negotiated(state2) => Ok(
                    HandshakeProgress::Continue(Negotiation::SendingMessage2 { state2 }),
                ),
                HandshakeEvent::Failed => Err(SwapError::Validation),
                _ => Err(SwapError::UnexpectedEvent),
            },
            Negotiation::SendingMessage2 { state2 } => match event {
                HandshakeEvent::Done => Ok(HandshakeProgress::Finished(state2)),
                HandshakeEvent::Failed => Err(SwapError::Network),
                _ => Err(SwapError::UnexpectedEvent),
            },
        }
    }
}

/// What a handshake that stands at `negotiation` comes to when its operations
/// end as `events` say, one after the other.
pub open spec fn handshake_outcome(
    negotiation: NegotiationView,
    events: Seq<HandshakeEventView>,
) -> Result<Seq<u8>, SwapError>
    decreases events.len(),
{
    if events.len() == 0 {
        Err(SwapError::Interrupted)
    } else {
        match negotiation.step(events[0]) {
            Err(error) => Err(error),
            Ok(HandshakeProgressView::Finished(state2)) => Ok(state2),
            Ok(HandshakeProgressView::Continue(next)) => handshake_outcome(
                next,
                events.drop_first(),
            ),
        }
    }
}

/// Whether `events` begins with the eight outcomes of a handshake in which
/// every operation succeeded.
pub open spec fn completes(events: Seq<HandshakeEventView>) -> bool {
    &&& events.len() >= 8
    &&& events[0] is Done
    &&& events[1] is Done
    &&& events[2] is Received
    &&& events[3] is Intermediate
    &&& events[4] is Done
    &&& events[5] is Received
    &&& events[6] is Negotiated
    &&& events[7] is Done
}

/// Runs the handshake against a record of how its operations ended.
///
/// `events` holds the outcomes in the order in which the operations are asked
/// for. The handshake stops at the first outcome that ends it; outcomes after
/// that are not looked at. A record that ends while an operation is pending
/// gives [`SwapError::Interrupted`].
#[verifier::loop_isolation(false)]
pub fn negotiate(state0: InitialSetup, amounts: SwapAmounts, events: Vec<HandshakeEvent>) -> (r:
    Result<NegotiatedSetup, SwapError>)
    ensures
        setup_view(r) == handshake_outcome(
            NegotiationView::Announcing { state0: state0@, amounts },
            transcript(events@),
        ),
{
    let ghost record = transcript(events@);
    let mut negotiation = Negotiation::new(state0, amounts);
    assert(record.skip(0) =~= record);
    for event in rest: events
        invariant
            rest.seq() == events@,
            handshake_outcome(negotiation@, record.skip(rest.index() as int)) == handshake_outcome(
                NegotiationView::Announcing { state0: state0@, amounts },
                record,
            ),
    {
        assert(record.skip(rest.index() as int).drop_first() =~= record.skip(rest.index() + 1));
        assert(record.skip(rest.index() as int)[0] == event@);
        match negotiation.step(event) {
            Err(error) => {
                return Err(error);
            },
            Ok(HandshakeProgress::Finished(state2)) => {
                return Ok(state2);
            },
            Ok(HandshakeProgress::Continue(next)) => {
                negotiation = next;
            },
        }
    }
    Err(SwapError::Interrupted)
}

} // verus!
