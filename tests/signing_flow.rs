use manta_signer::signing::{SignAction, SignEvent, SignGate, SignPhase, TransactionShape};
use manta_signer::Network;

#[test]
fn deposit_skips_authorization() {
    let mut g = SignGate::new();
    assert_eq!(g.step(SignEvent::Request(Network::Dolphin, TransactionShape::ToPrivate)), SignAction::Prove(0));
    assert_eq!(g.phase(), SignPhase::Proving(Network::Dolphin, 0));
    assert_eq!(g.step(SignEvent::ProofDone(0)), SignAction::Respond);
    assert_eq!(g.phase(), SignPhase::Idle);
}

#[test]
fn transfer_asks_for_authorization() {
    let mut g = SignGate::new();
    assert_eq!(
        g.step(SignEvent::Request(Network::Manta, TransactionShape::PrivateTransfer)),
        SignAction::Authorize(0)
    );
    assert_eq!(g.phase(), SignPhase::Gating(Network::Manta, 0));
    assert_eq!(g.step(SignEvent::Authorized(0)), SignAction::Prove(0));
    assert_eq!(g.step(SignEvent::ProofDone(0)), SignAction::Respond);
    assert!(!g.is_signing());
}

#[test]
fn declined_withdrawal_is_unauthorized() {
    let mut g = SignGate::new();
    assert_eq!(
        g.step(SignEvent::Request(Network::Calamari, TransactionShape::ToPublic)),
        SignAction::Authorize(0)
    );
    assert_eq!(g.step(SignEvent::Declined(0)), SignAction::Unauthorized);
    assert_eq!(g.phase(), SignPhase::Idle);
}

#[test]
fn concurrent_sign_gets_one_busy() {
    let mut g = SignGate::new();
    let a = g.step(SignEvent::Request(Network::Dolphin, TransactionShape::PrivateTransfer));
    let b = g.step(SignEvent::Request(Network::Manta, TransactionShape::PrivateTransfer));
    assert_eq!(a, SignAction::Authorize(0));
    assert_eq!(b, SignAction::Busy);
    assert_eq!(g.phase(), SignPhase::Gating(Network::Dolphin, 0));
}

#[test]
fn cancel_clears_marker() {
    let mut g = SignGate::new();
    g.step(SignEvent::Request(Network::Dolphin, TransactionShape::ToPrivate));
    assert!(g.is_signing());
    assert_eq!(g.step(SignEvent::Cancel), SignAction::Cancelled);
    assert!(!g.is_signing());
    assert_eq!(g.step(SignEvent::Cancel), SignAction::Ignore);
    assert_eq!(g.step(SignEvent::Request(Network::Dolphin, TransactionShape::ToPrivate)), SignAction::Prove(1));
}

#[test]
fn late_proof_of_cancelled_request_is_discarded() {
    let mut g = SignGate::new();
    assert_eq!(g.step(SignEvent::Request(Network::Dolphin, TransactionShape::ToPrivate)), SignAction::Prove(0));
    assert_eq!(g.step(SignEvent::Cancel), SignAction::Cancelled);
    assert_eq!(g.step(SignEvent::Request(Network::Manta, TransactionShape::ToPrivate)), SignAction::Prove(1));
    assert_eq!(g.step(SignEvent::ProofDone(0)), SignAction::Ignore);
    assert_eq!(g.phase(), SignPhase::Proving(Network::Manta, 1));
    assert_eq!(g.step(SignEvent::ProofDone(1)), SignAction::Respond);
}

#[test]
fn late_verdict_of_cancelled_request_is_ignored() {
    let mut g = SignGate::new();
    g.step(SignEvent::Request(Network::Dolphin, TransactionShape::PrivateTransfer));
    g.step(SignEvent::Cancel);
    assert_eq!(
        g.step(SignEvent::Request(Network::Dolphin, TransactionShape::PrivateTransfer)),
        SignAction::Authorize(1)
    );
    assert_eq!(g.step(SignEvent::Authorized(0)), SignAction::Ignore);
    assert_eq!(g.step(SignEvent::Declined(0)), SignAction::Ignore);
    assert_eq!(g.phase(), SignPhase::Gating(Network::Dolphin, 1));
}

#[test]
fn stray_events_are_ignored() {
    let mut g = SignGate::new();
    assert_eq!(g.step(SignEvent::Authorized(0)), SignAction::Ignore);
    assert_eq!(g.step(SignEvent::ProofDone(0)), SignAction::Ignore);
    assert_eq!(g.phase(), SignPhase::Idle);
}

#[test]
fn only_deposits_skip_authorization() {
    assert!(!TransactionShape::ToPrivate.requires_authorization());
    assert!(TransactionShape::PrivateTransfer.requires_authorization());
    assert!(TransactionShape::ToPublic.requires_authorization());
}
