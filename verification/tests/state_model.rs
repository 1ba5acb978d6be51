use swap::{
    is_btc_locked, is_complete, is_encsig_sent, is_xmr_locked, BobState, InitialSetup, LockProof,
    NegotiatedSetup, SwapAmounts, SwapError, TxId,
};

fn proof_of(tag: u8) -> LockProof {
    LockProof { tx_lock_id: TxId { bytes: vec![tag; 32] }, material: vec![tag, tag + 1] }
}

fn every_state() -> Vec<BobState> {
    vec![
        BobState::Started {
            state0: InitialSetup { material: vec![1, 2, 3] },
            amounts: SwapAmounts { btc: 100_000, xmr: 5_000_000 },
        },
        BobState::Negotiated(NegotiatedSetup { material: vec![4, 5] }),
        BobState::BtcLocked(proof_of(10)),
        BobState::XmrLocked(proof_of(11)),
        BobState::EncSigSent(proof_of(12)),
        BobState::BtcRedeemed(proof_of(13)),
        BobState::CancelTimelockExpired(proof_of(14)),
        BobState::BtcCancelled(proof_of(15)),
        BobState::BtcRefunded(proof_of(16)),
        BobState::BtcPunished { tx_lock_id: TxId { bytes: vec![17; 32] } },
        BobState::XmrRedeemed { tx_lock_id: TxId { bytes: vec![18; 32] } },
        BobState::SafelyAborted,
    ]
}

#[test]
fn exactly_four_states_are_complete() {
    let answers: Vec<bool> = every_state().iter().map(is_complete).collect();
    assert_eq!(
        answers,
        vec![false, false, false, false, false, false, false, false, true, true, true, true]
    );
}

#[test]
fn btc_locked_is_recognised_alone() {
    let answers: Vec<bool> = every_state().iter().map(is_btc_locked).collect();
    assert_eq!(
        answers,
        vec![false, false, true, false, false, false, false, false, false, false, false, false]
    );
}

#[test]
fn xmr_locked_is_recognised_alone() {
    let answers: Vec<bool> = every_state().iter().map(is_xmr_locked).collect();
    assert_eq!(
        answers,
        vec![false, false, false, true, false, false, false, false, false, false, false, false]
    );
}

#[test]
fn encsig_sent_is_recognised_alone() {
    let answers: Vec<bool> = every_state().iter().map(is_encsig_sent).collect();
    assert_eq!(
        answers,
        vec![false, false, false, false, true, false, false, false, false, false, false, false]
    );
}

#[test]
fn safely_aborted_is_complete() {
    assert!(is_complete(&BobState::SafelyAborted));
    assert!(!is_btc_locked(&BobState::SafelyAborted));
}

#[test]
fn only_the_internal_invariant_is_fatal() {
    assert!(SwapError::InternalInvariant.is_fatal());
    for error in [
        SwapError::Network,
        SwapError::Validation,
        SwapError::Blockchain,
        SwapError::Persistence,
        SwapError::UnexpectedEvent,
        SwapError::Interrupted,
    ] {
        assert!(!error.is_fatal());
    }
}
