//! Why a swap stopped short of the state it was driven towards.

use vstd::prelude::*;

verus! {

/// The ways in which driving a swap can fail.
///
/// A failure never changes what was recorded: the swap stays in the last
/// state that was stored, and driving it again from there retries the step
/// that failed.
#[derive(Clone, Copy, Debug, PartialEq, Eq, Structural)]
pub enum SwapError {
    /// Connecting to the counterparty, sending to it or receiving from it
    /// failed.
    Network,
    /// The counterparty's handshake message was malformed or inconsistent.
    Validation,
    /// A chain wallet could not answer, build, broadcast or confirm.
    Blockchain,
    /// The store did not accept the state it was asked to record.
    Persistence,
    /// The cancel transaction is confirmed although no timelock has expired.
    /// This cannot come from the environment; it is a defect and retrying it
    /// is pointless.
    InternalInvariant,
    /// The reported outcome does not belong to the operation that was asked
    /// for.
    UnexpectedEvent,
    /// The recorded outcomes ran out while an operation was still pending.
    Interrupted,
}

impl SwapError {
    /// Whether the failure is a defect rather than a condition of the
    /// environment, so that driving the swap again cannot help.
    pub fn is_fatal(&self) -> (r: bool)
        ensures
            r == (*self is InternalInvariant),
    {
        matches!(self, SwapError::InternalInvariant)
    }
}

} // verus!
