//! The state model of the swap, seen from the party that locks Bitcoin and
//! receives Monero.
//!
//! A swap is always in exactly one [`BobState`]. The values carried by a state
//! are the cryptographic material the chain wallets and the counterparty work
//! with; the engine never looks inside it and only hands it on, so it is kept
//! here as the bytes of its encoding.
//!
//! What is said of a state is said of its view, [`BobStateView`]: the state
//! with the bytes it carries. Two states with the same view are the same
//! state to the engine, wherever their bytes are stored; a state that was
//! written to a store and read back is the state that was written.

use vstd::prelude::*;

verus! {

/// What the two parties agreed to exchange, in the smallest unit of each chain.
#[derive(Clone, Copy, Debug, PartialEq, Eq)]
pub struct SwapAmounts {
    /// Satoshi locked by this side.
    pub btc: u64,
    /// Piconero locked by the counterparty.
    pub xmr: u64,
}

/// Key material generated locally before anything was sent to the counterparty.
#[derive(Clone, Debug, PartialEq, Eq)]
pub struct InitialSetup {
    pub material: Vec<u8>,
}

/// The setup after the counterparty's first handshake message was combined
/// with the local one.
#[derive(Clone, Debug, PartialEq, Eq)]
pub struct IntermediateSetup {
    pub material: Vec<u8>,
}

/// The shared setup that both parties hold once the handshake is over.
#[derive(Clone, Debug, PartialEq, Eq)]
pub struct NegotiatedSetup {
    pub material: Vec<u8>,
}

/// Identifier of the transaction that locks the Bitcoin.
#[derive(Clone, Debug, PartialEq, Eq)]
pub struct TxId {
    pub bytes: Vec<u8>,
}

/// Everything needed to redeem, cancel or refund once the Bitcoin is locked.
#[derive(Clone, Debug, PartialEq, Eq)]
pub struct LockProof {
    /// The lock transaction this proof belongs to.
    pub tx_lock_id: TxId,
    pub material: Vec<u8>,
}

/// A handshake message received from the counterparty.
#[derive(Clone, Debug, PartialEq, Eq)]
pub struct Message {
    pub payload: Vec<u8>,
}

/// The counterparty's evidence of its Monero lock transaction.
#[derive(Clone, Debug, PartialEq, Eq)]
pub struct TransferProof {
    pub payload: Vec<u8>,
}

/// Which of the two Bitcoin timelocks have run out at the current chain height.
///
/// The answer only ever moves forward: from `NotExpired` to `Cancel` to `Punish`.
#[derive(Clone, Copy, Debug, PartialEq, Eq)]
pub enum ExpiredTimelocks {
    /// Neither timelock has expired.
    NotExpired,
    /// The cancel timelock has expired, the punish timelock has not.
    Cancel,
    /// Both timelocks have expired.
    Punish,
}

/// The states a swap passes through.
#[derive(Clone, Debug, PartialEq, Eq)]
pub enum BobState {
    /// Local key material exists, nothing was exchanged yet.
    Started { state0: InitialSetup, amounts: SwapAmounts },
    /// The handshake with the counterparty is complete.
    Negotiated(NegotiatedSetup),
    /// The Bitcoin lock transaction is confirmed.
    BtcLocked(LockProof),
    /// The counterparty's Monero lock transaction is confirmed.
    XmrLocked(LockProof),
    /// The encrypted signature was handed to the counterparty.
    EncSigSent(LockProof),
    /// The counterparty redeemed the Bitcoin, which reveals the Monero key.
    BtcRedeemed(LockProof),
    /// The cancel timelock ran out before the swap could proceed.
    CancelTimelockExpired(LockProof),
    /// The cancel transaction is confirmed.
    BtcCancelled(LockProof),
    /// The Bitcoin came back. Final.
    BtcRefunded(LockProof),
    /// The punish timelock ran out before the refund; the Bitcoin is lost. Final.
    BtcPunished { tx_lock_id: TxId },
    /// The Monero was claimed; the swap succeeded. Final.
    XmrRedeemed { tx_lock_id: TxId },
    /// The swap was given up before any Bitcoin was locked. Final.
    SafelyAborted,
}

/// What a [`LockProof`] holds.
pub struct LockProofView {
    pub tx_lock_id: Seq<u8>,
    pub material: Seq<u8>,
}

/// What a [`BobState`] holds: the state, with the bytes it carries.
pub enum BobStateView {
    Started { state0: Seq<u8>, amounts: SwapAmounts },
    Negotiated(Seq<u8>),
    BtcLocked(LockProofView),
    XmrLocked(LockProofView),
    EncSigSent(LockProofView),
    BtcRedeemed(LockProofView),
    CancelTimelockExpired(LockProofView),
    BtcCancelled(LockProofView),
    BtcRefunded(LockProofView),
    BtcPunished { tx_lock_id: Seq<u8> },
    XmrRedeemed { tx_lock_id: Seq<u8> },
    SafelyAborted,
}

impl View for InitialSetup {
    type V = Seq<u8>;

    open spec fn view(&self) -> Seq<u8> {
        self.material@
    }
}

impl View for IntermediateSetup {
    type V = Seq<u8>;

    open spec fn view(&self) -> Seq<u8> {
        self.material@
    }
}

impl View for NegotiatedSetup {
    type V = Seq<u8>;

    open spec fn view(&self) -> Seq<u8> {
        self.material@
    }
}

impl View for TxId {
    type V = Seq<u8>;

    open spec fn view(&self) -> Seq<u8> {
        self.bytes@
    }
}

impl View for Message {
    type V = Seq<u8>;

    open spec fn view(&self) -> Seq<u8> {
        self.payload@
    }
}

impl View for TransferProof {
    type V = Seq<u8>;

    open spec fn view(&self) -> Seq<u8> {
        self.payload@
    }
}

impl View for LockProof {
    type V = LockProofView;

    open spec fn view(&self) -> LockProofView {
        LockProofView { tx_lock_id: self.tx_lock_id@, material: self.material@ }
    }
}

impl View for BobState {
    type V = BobStateView;

    open spec fn view(&self) -> BobStateView {
        match *self {
            BobState::Started { state0, amounts } => BobStateView::Started {
                state0: state0@,
                amounts,
            },
            BobState::Negotiated(state2) => BobStateView::Negotiated(state2@),
            BobState::BtcLocked(proof) => BobStateView::BtcLocked(proof@),
            BobState::XmrLocked(proof) => BobStateView::XmrLocked(proof@),
            BobState::EncSigSent(proof) => BobStateView::EncSigSent(proof@),
            BobState::BtcRedeemed(proof) => BobStateView::BtcRedeemed(proof@),
            BobState::CancelTimelockExpired(proof) => BobStateView::CancelTimelockExpired(proof@),
            BobState::BtcCancelled(proof) => BobStateView::BtcCancelled(proof@),
            BobState::BtcRefunded(proof) => BobStateView::BtcRefunded(proof@),
            BobState::BtcPunished { tx_lock_id } => BobStateView::BtcPunished {
                tx_lock_id: tx_lock_id@,
            },
            BobState::XmrRedeemed { tx_lock_id } => BobStateView::XmrRedeemed {
                tx_lock_id: tx_lock_id@,
            },
            BobState::SafelyAborted => BobStateView::SafelyAborted,
        }
    }
}

impl BobStateView {
    /// No transition leaves this state.
    pub open spec fn terminal(self) -> bool {
        self is BtcRefunded || self is XmrRedeemed || self is BtcPunished || self is SafelyAborted
    }

    /// Bitcoin is committed on chain: the lock transaction exists and no final
    /// state has been recorded yet.
    pub open spec fn funded(self) -> bool {
        self is BtcLocked || self is XmrLocked || self is EncSigSent || self is BtcRedeemed
            || self is CancelTimelockExpired || self is BtcCancelled
    }

    /// Whether `next` is a state that one transition can lead to from this
    /// one.
    ///
    /// From a funded state the material it carries is kept, unless the
    /// transition learns something new from a chain: the confirmed Monero
    /// lock and the seen redeem transaction bring their own. The two final
    /// states that keep only the identifier keep the one of the lock
    /// transaction.
    pub open spec fn precedes(self, next: BobStateView) -> bool {
        match self {
            BobStateView::Started { .. } => next is Negotiated,
            BobStateView::Negotiated(_) => next is BtcLocked,
            BobStateView::BtcLocked(proof) => next is XmrLocked || next
                == BobStateView::CancelTimelockExpired(proof),
            BobStateView::XmrLocked(proof) => next == BobStateView::EncSigSent(proof) || next
                == BobStateView::CancelTimelockExpired(proof),
            BobStateView::EncSigSent(proof) => next is BtcRedeemed || next
                == BobStateView::CancelTimelockExpired(proof),
            BobStateView::BtcRedeemed(proof) => next == (BobStateView::XmrRedeemed {
                tx_lock_id: proof.tx_lock_id,
            }),
            BobStateView::CancelTimelockExpired(proof) => next == BobStateView::BtcCancelled(proof),
            BobStateView::BtcCancelled(proof) => next == BobStateView::BtcRefunded(proof) || next
                == (BobStateView::BtcPunished { tx_lock_id: proof.tx_lock_id }),
            _ => false,
        }
    }

    /// The largest number of operations that can still be pending before a
    /// swap in this state has ended.
    pub open spec fn budget(self) -> nat {
        match self {
            BobStateView::Started { .. } => 32,
            BobStateView::Negotiated(_) => 22,
            BobStateView::BtcLocked(_) => 19,
            BobStateView::XmrLocked(_) => 13,
            BobStateView::EncSigSent(_) => 9,
            BobStateView::BtcRedeemed(_) => 2,
            BobStateView::CancelTimelockExpired(_) => 6,
            BobStateView::BtcCancelled(_) => 3,
            _ => 0,
        }
    }

    /// How far along the swap is. Every transition strictly increases it, so
    /// no state is ever visited twice.
    pub open spec fn rank(self) -> nat {
        match self {
            BobStateView::Started { .. } => 0,
            BobStateView::Negotiated(_) => 1,
            BobStateView::BtcLocked(_) => 2,
            BobStateView::XmrLocked(_) => 3,
            BobStateView::EncSigSent(_) => 4,
            BobStateView::BtcRedeemed(_) => 5,
            BobStateView::CancelTimelockExpired(_) => 5,
            BobStateView::BtcCancelled(_) => 6,
            BobStateView::BtcRefunded(_) => 7,
            BobStateView::BtcPunished { .. } => 7,
            BobStateView::XmrRedeemed { .. } => 7,
            BobStateView::SafelyAborted => 7,
        }
    }
}

/// Whether the swap has reached one of its four final states.
pub fn is_complete(state: &BobState) -> (r: bool)
    ensures
        r == state@.terminal(),
{
    matches!(
        state,
        BobState::BtcRefunded(..)
            | BobState::XmrRedeemed { .. }
            | BobState::BtcPunished { .. }
            | BobState::SafelyAborted
    )
}

/// Whether the Bitcoin lock is confirmed and nothing further has happened.
pub fn is_btc_locked(state: &BobState) -> (r: bool)
    ensures
        r == (state@ is BtcLocked),
{
    matches!(state, BobState::BtcLocked(..))
}

/// Whether the counterparty's Monero lock is confirmed and nothing further has
/// happened.
pub fn is_xmr_locked(state: &BobState) -> (r: bool)
    ensures
        r == (state@ is XmrLocked),
{
    matches!(state, BobState::XmrLocked(..))
}

/// Whether the encrypted signature was sent and nothing further has happened.
pub fn is_encsig_sent(state: &BobState) -> (r: bool)
    ensures
        r == (state@ is EncSigSent),
{
    matches!(state, BobState::EncSigSent(..))
}

} // verus!
