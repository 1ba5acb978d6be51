//! The execution engine for one side of a Bitcoin-Monero atomic swap: the side
//! that locks Bitcoin and receives Monero.
//!
//! The engine performs no I/O. It says which operation has to be carried out
//! next and is told how that operation ended; from the two it decides where
//! the swap goes. Talking to the counterparty, to the two chains and to the
//! store that records every state reached is the caller's part.
//!
//! - [`state`] holds the states of a swap and the predicates on them.
//! - [`negotiation`] holds the handshake that precedes every swap.
//! - [`transition`] holds the operations that lead from one state to the
//!   next.
//! - [`run`] drives a swap through as many transitions as it takes.
//! - [`laws`] states what holds of every swap.

pub mod error;
pub mod laws;
pub mod negotiation;
pub mod run;
pub mod state;
pub mod transition;

pub use error::SwapError;
pub use negotiation::{
    negotiate, HandshakeAction, HandshakeEvent, HandshakeEventView, HandshakeProgress,
    HandshakeProgressView, Negotiation, NegotiationView,
};
pub use run::{run, run_until};
pub use state::{
    is_btc_locked, is_complete, is_encsig_sent, is_xmr_locked, BobState, BobStateView,
    ExpiredTimelocks, InitialSetup, IntermediateSetup, LockProof, LockProofView, Message,
    NegotiatedSetup, SwapAmounts, TransferProof, TxId,
};
pub use transition::{
    enter, Action, Entry, EntryView, Event, EventView, Progress, ProgressView, Transition,
    TransitionView,
};
