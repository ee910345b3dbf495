use starfund_escrow::errors::{CloseError, EscrowError, Failure};
use starfund_escrow::state::StarfundEscrow;
use starfund_escrow::types::{Addr, CallContext, CloseMetadata, DisputeState, PauseReason, PauseScope, PauseState};

const ADMIN: Addr = Addr { id: 1 };
const SME: Addr = Addr { id: 2 };
const TOKEN: Addr = Addr { id: 3 };
const TREASURY: Addr = Addr { id: 4 };
const INV_A: Addr = Addr { id: 10 };

fn everyone(ts: u64) -> CallContext {
    CallContext { timestamp: ts, sequence: 90, signers: vec![ADMIN, SME, TOKEN, TREASURY, INV_A] }
}

fn only(ts: u64, signers: &[Addr]) -> CallContext {
    CallContext { timestamp: ts, sequence: 90, signers: signers.to_vec() }
}

fn err(e: EscrowError) -> Failure {
    Failure::Escrow(e)
}

fn deploy(hold_delay: Option<u64>) -> StarfundEscrow {
    let mut s = StarfundEscrow::new();
    s.init(&everyone(100), ADMIN, b"INV_CTL", SME, 1_000, 800, 0, TOKEN, None, TREASURY, None, None, None, None, hold_delay, None, None, None, None, None).unwrap();
    s
}

#[test]
fn pause_state_reports_scope_and_reason() {
    let mut s = deploy(None);
    assert!(!s.is_paused(&everyone(150)));
    assert_eq!(s.get_pause_state(&everyone(150)), None);
    s.set_paused(&everyone(150), true, PauseScope::Claims, PauseReason::Security).unwrap();
    assert!(s.is_paused(&everyone(160)));
    assert_eq!(
        s.get_pause_state(&everyone(160)),
        Some(PauseState { scope: PauseScope::Claims, reason: PauseReason::Security, activated_at: 150 })
    );
    assert_eq!(s.get_paused_at(), Some(150));
}

#[test]
fn wrong_scope_unpause_is_rejected() {
    let mut s = deploy(None);
    s.set_paused(&everyone(150), true, PauseScope::Funding, PauseReason::Maintenance).unwrap();
    assert_eq!(
        s.set_paused(&everyone(160), false, PauseScope::Claims, PauseReason::Maintenance),
        Err(err(EscrowError::PauseScopeMismatch))
    );
    assert!(s.is_paused(&everyone(160)));
    s.set_paused(&everyone(170), false, PauseScope::All, PauseReason::Maintenance).unwrap();
    assert!(!s.is_paused(&everyone(170)));
    // Clearing when nothing is paused changes nothing.
    s.set_paused(&everyone(180), false, PauseScope::Claims, PauseReason::Maintenance).unwrap();
    assert!(!s.is_paused(&everyone(180)));
}

#[test]
fn pause_auto_expires() {
    let mut s = deploy(None);
    assert_eq!(s.set_pause_max_duration(&everyone(100), 10), Err(err(EscrowError::PauseMaxDurationOutOfRange)));
    assert_eq!(s.set_pause_max_duration(&everyone(100), 3_600), Ok(3_600));
    assert_eq!(s.get_pause_max_duration(), 3_600);
    s.set_paused(&everyone(1_000), true, PauseScope::All, PauseReason::Incident).unwrap();
    assert!(s.is_paused(&everyone(4_599)));
    assert!(!s.is_paused(&everyone(4_600)));
    assert_eq!(s.get_pause_state(&everyone(4_600)), None);
}

#[test]
fn pause_toggles_are_rate_limited() {
    let mut s = deploy(None);
    assert_eq!(s.set_pause_rate_limit(&everyone(100), 2, 0), Err(err(EscrowError::PauseRateLimitInvalidCombination)));
    assert_eq!(s.set_pause_rate_limit(&everyone(100), 1_001, 60), Err(err(EscrowError::PauseToggleLimitOutOfRange)));
    assert_eq!(s.set_pause_rate_limit(&everyone(100), 2, 59), Err(err(EscrowError::PauseToggleWindowOutOfRange)));
    assert_eq!(s.set_pause_rate_limit(&everyone(100), 2, 600), Ok((2, 600)));
    assert_eq!(s.get_pause_rate_limit(), (2, 600));
    s.set_paused(&everyone(1_000), true, PauseScope::All, PauseReason::Incident).unwrap();
    s.set_paused(&everyone(1_010), false, PauseScope::All, PauseReason::Incident).unwrap();
    assert_eq!(
        s.set_paused(&everyone(1_020), true, PauseScope::All, PauseReason::Incident),
        Err(err(EscrowError::PauseToggleRateLimitExceeded))
    );
    // The window rolls over.
    assert!(s.set_paused(&everyone(1_600), true, PauseScope::All, PauseReason::Incident).is_ok());
}

#[test]
fn pause_and_hold_are_independent() {
    let mut s = deploy(None);
    s.set_paused(&everyone(150), true, PauseScope::All, PauseReason::Incident).unwrap();
    s.set_legal_hold(&everyone(160), true, 0).unwrap();
    s.set_paused(&everyone(170), false, PauseScope::All, PauseReason::Incident).unwrap();
    assert!(s.get_legal_hold());
    s.set_paused(&everyone(180), true, PauseScope::All, PauseReason::Incident).unwrap();
    s.set_legal_hold(&everyone(190), false, 1).unwrap();
    assert!(s.is_paused(&everyone(190)));
}

#[test]
fn hold_clear_needs_a_ripe_request() {
    let mut s = deploy(Some(100));
    assert_eq!(s.get_legal_hold_clear_delay(), 100);
    s.set_legal_hold(&everyone(150), true, 0).unwrap();
    assert_eq!(s.clear_legal_hold(&everyone(160), 1), Err(err(EscrowError::LegalHoldClearRequestMissing)));
    assert_eq!(s.request_clear_legal_hold(&everyone(170), 1), Ok(270));
    assert_eq!(s.get_legal_hold_clearable_at(), Some(270));
    assert_eq!(s.clear_legal_hold(&everyone(269), 2), Err(err(EscrowError::LegalHoldClearNotReady)));
    s.clear_legal_hold(&everyone(270), 2).unwrap();
    assert!(!s.get_legal_hold());
    assert_eq!(s.get_legal_hold_clearable_at(), None);
    assert_eq!(s.get_admin_nonce(), 3);
}

#[test]
fn hold_clear_request_overflow_is_typed() {
    let mut s = deploy(Some(100));
    assert_eq!(s.request_clear_legal_hold(&everyone(u64::MAX - 10), 0), Err(err(EscrowError::LegalHoldClearDelayOverflow)));
}

#[test]
fn legal_hold_requires_admin() {
    let mut s = deploy(None);
    assert_eq!(s.set_legal_hold(&only(150, &[SME]), true, 0), Err(Failure::AuthMissing(ADMIN)));
    assert!(!s.get_legal_hold());
}

#[test]
fn dispute_lifecycle_keeps_the_record() {
    let mut s = deploy(None);
    assert_eq!(s.close_dispute(&everyone(150), ADMIN, true), Err(err(EscrowError::DisputeNotOpen)));
    assert_eq!(s.open_dispute(&everyone(150), SME), Err(err(EscrowError::DisputeOpenUnauthorized)));
    s.open_dispute(&everyone(150), ADMIN).unwrap();
    assert!(s.is_dispute_active());
    assert_eq!(s.open_dispute(&everyone(151), ADMIN), Err(err(EscrowError::DisputeAlreadyOpen)));
    assert_eq!(s.close_dispute(&everyone(160), SME, true), Err(err(EscrowError::DisputeCloseUnauthorized)));
    s.close_dispute(&everyone(160), ADMIN, false).unwrap();
    assert!(s.is_dispute_active());
    s.close_dispute(&everyone(170), ADMIN, true).unwrap();
    assert!(!s.is_dispute_active());
    let rec = s.get_dispute_record().unwrap();
    assert_eq!(rec.opened_at, 150);
    assert_eq!(rec.state, DisputeState::Resolved);
    assert_eq!(rec.resolved_at, Some(170));
    assert_eq!(rec.resolved_by, Some(ADMIN));
}

#[test]
fn set_dispute_active_marks_the_snapshot() {
    let mut s = deploy(None);
    s.set_dispute_active(&everyone(150), true).unwrap();
    assert!(s.get_escrow().unwrap().dispute_active);
    let mut blank = StarfundEscrow::new();
    assert_eq!(blank.set_dispute_active(&everyone(150), true), Err(Failure::Close(CloseError::NotInitialized)));
}

#[test]
fn close_escrow_once_with_empty_balance() {
    let mut s = deploy(None);
    assert_eq!(s.close_escrow(&everyone(150), 5), Err(Failure::Close(CloseError::ActiveBalance)));
    s.open_dispute(&everyone(150), ADMIN).unwrap();
    assert!(s.is_dispute_active());
    assert_eq!(s.close_escrow(&everyone(150), 0), Err(Failure::Close(CloseError::ActiveDispute)));
    s.close_dispute(&everyone(150), ADMIN, true).unwrap();
    let m = s.close_escrow(&everyone(150), 0).unwrap();
    assert_eq!(m, CloseMetadata { admin: ADMIN, timestamp: 150, sequence: 90 });
    assert_eq!(s.get_closure_metadata(), Some(m));
    assert_eq!(s.close_escrow(&everyone(160), 0), Err(Failure::Close(CloseError::AlreadyClosed)));
    let mut blank = StarfundEscrow::new();
    assert_eq!(blank.close_escrow(&everyone(150), 0), Err(Failure::Close(CloseError::NotInitialized)));
}
