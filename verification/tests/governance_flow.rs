use starfund_escrow::errors::{EscrowError, FeeScheduleError, Failure};
use starfund_escrow::state::StarfundEscrow;
use starfund_escrow::types::{Addr, CallContext, FeeSchedule};

const ADMIN: Addr = Addr { id: 1 };
const SME: Addr = Addr { id: 2 };
const TOKEN: Addr = Addr { id: 3 };
const TREASURY: Addr = Addr { id: 4 };
const NEW_ADMIN: Addr = Addr { id: 5 };
const OTHER: Addr = Addr { id: 6 };
const INV_A: Addr = Addr { id: 10 };

fn everyone(ts: u64) -> CallContext {
    CallContext { timestamp: ts, sequence: 40, signers: vec![ADMIN, SME, TOKEN, TREASURY, NEW_ADMIN, OTHER, INV_A] }
}

fn at_ledger(seq: u32) -> CallContext {
    CallContext { timestamp: 500, sequence: seq, signers: vec![ADMIN] }
}

fn only(ts: u64, signers: &[Addr]) -> CallContext {
    CallContext { timestamp: ts, sequence: 40, signers: signers.to_vec() }
}

fn err(e: EscrowError) -> Failure {
    Failure::Escrow(e)
}

fn deploy() -> StarfundEscrow {
    let mut s = StarfundEscrow::new();
    s.init(&everyone(100), ADMIN, b"INV_GOV", SME, 1_000, 800, 0, TOKEN, Some(OTHER), TREASURY, None, None, None, None, None, None, None, None, None, None).unwrap();
    s
}

#[test]
fn two_step_admin_handover() {
    let mut s = deploy();
    assert_eq!(s.propose_admin(&everyone(200), ADMIN, 0), Err(err(EscrowError::NewAdminSameAsCurrent)));
    assert_eq!(s.propose_admin(&everyone(200), NEW_ADMIN, 0), Ok(NEW_ADMIN));
    assert_eq!(s.get_pending_admin(), Some(NEW_ADMIN));
    assert_eq!(s.get_pending_admin_expiry(), Some(200 + 604_800));
    assert_eq!(s.get_pending_admin_remaining_secs(&everyone(300)), Some(604_700));
    assert_eq!(s.propose_admin(&everyone(200), NEW_ADMIN, 1), Err(err(EscrowError::PendingAdminUnchanged)));
    assert_eq!(s.accept_admin(&only(300, &[ADMIN])), Err(Failure::AuthMissing(NEW_ADMIN)));
    let e = s.accept_admin(&only(300, &[NEW_ADMIN])).unwrap();
    assert_eq!(e.admin, NEW_ADMIN);
    assert_eq!(s.get_pending_admin(), None);
    // The former admin is locked out.
    assert_eq!(s.set_legal_hold(&only(400, &[ADMIN]), true, 1), Err(Failure::AuthMissing(NEW_ADMIN)));
}

#[test]
fn expired_proposal_cannot_be_accepted_and_can_be_recovered() {
    let mut s = deploy();
    s.propose_admin(&everyone(200), NEW_ADMIN, 0).unwrap();
    let late = 200 + 604_800 + 1;
    assert_eq!(s.accept_admin(&everyone(late)), Err(err(EscrowError::AdminProposalExpired)));
    assert_eq!(s.recover_admin(&everyone(300)), Err(err(EscrowError::AdminRecoveryNotExpired)));
    assert_eq!(s.get_pending_admin_remaining_secs(&everyone(late)), Some(0));
    assert_eq!(s.recover_admin(&everyone(late)), Ok(NEW_ADMIN));
    assert_eq!(s.recover_admin(&everyone(late)), Err(err(EscrowError::NoPendingAdmin)));
    assert_eq!(s.accept_admin(&everyone(late)), Err(err(EscrowError::NoPendingAdmin)));
}

#[test]
fn cancel_and_transfer_admin() {
    let mut s = deploy();
    assert_eq!(s.cancel_pending_admin(&everyone(200), 0), Err(err(EscrowError::NoPendingAdmin)));
    let e = s.transfer_admin(&everyone(200), NEW_ADMIN, 0).unwrap();
    assert_eq!(e.admin, ADMIN);
    assert_eq!(s.get_pending_admin(), Some(NEW_ADMIN));
    assert_eq!(s.cancel_pending_admin(&everyone(210), 1), Ok(NEW_ADMIN));
    assert_eq!(s.get_pending_admin(), None);
    assert_eq!(s.get_pending_admin_expiry(), None);
    assert_eq!(s.get_pending_admin_remaining_secs(&everyone(210)), None);
}

#[test]
fn beneficiary_rotation_before_funding() {
    let mut s = deploy();
    assert_eq!(s.rotate_beneficiary(&everyone(200), SME, 0), Err(err(EscrowError::NewSmeSameAsCurrent)));
    assert_eq!(s.rotate_beneficiary(&only(200, &[ADMIN]), OTHER, 0), Err(Failure::AuthMissing(SME)));
    let e = s.rotate_beneficiary(&everyone(200), OTHER, 0).unwrap();
    assert_eq!(e.sme_address, OTHER);
    assert_eq!(s.get_admin_nonce(), 1);
    s.fund(&everyone(210), INV_A, 10).unwrap();
    assert_eq!(s.rotate_beneficiary(&everyone(220), SME, 1), Err(err(EscrowError::BeneficiaryImmutableAfterFunding)));
}

#[test]
fn payer_rotation_needs_both_parties() {
    let mut s = deploy();
    assert_eq!(s.rotate_payer(&everyone(200), ADMIN), Err(err(EscrowError::NewPayerSameAsCurrent)));
    let e = s.rotate_payer(&everyone(200), OTHER).unwrap();
    assert_eq!(e.payer, OTHER);
    assert_eq!(s.rotate_payer(&only(200, &[ADMIN]), INV_A), Err(Failure::AuthMissing(OTHER)));
    s.set_legal_hold(&everyone(210), true, 0).unwrap();
    assert_eq!(s.rotate_payer(&everyone(220), INV_A), Err(err(EscrowError::LegalHoldBlocksPayerRotation)));
}

#[test]
fn registry_hint_is_admin_managed() {
    let mut s = deploy();
    assert_eq!(s.get_registry_ref(), Some(OTHER));
    s.rebind_registry_ref(&everyone(200), Some(SME)).unwrap();
    assert_eq!(s.get_registry_ref(), Some(SME));
    s.clear_registry_ref(&everyone(200)).unwrap();
    assert_eq!(s.get_registry_ref(), None);
    s.fund(&everyone(210), INV_A, 10).unwrap();
    // The hint stays editable once money is funded.
    s.rebind_registry_ref(&everyone(220), Some(SME)).unwrap();
    assert_eq!(s.get_registry_ref(), Some(SME));
    s.clear_registry_ref(&everyone(230)).unwrap();
    assert_eq!(s.get_registry_ref(), None);
}

#[test]
fn protocol_fee_setter_validates_range() {
    let mut s = deploy();
    assert_eq!(s.get_protocol_fee_bps(), 0);
    assert_eq!(s.set_protocol_fee_bps(&everyone(200), 10_001), Err(err(EscrowError::ProtocolFeeBpsOutOfRange)));
    assert_eq!(s.set_protocol_fee_bps(&everyone(200), 300), Ok(300));
    assert_eq!(s.get_protocol_fee_bps(), 300);
}

#[test]
fn funding_token_and_treasury_are_bound_at_init() {
    let s = deploy();
    assert_eq!(s.get_funding_token(), Ok(TOKEN));
    assert_eq!(s.get_treasury(), Ok(TREASURY));
    let blank = StarfundEscrow::new();
    assert_eq!(blank.get_funding_token(), Err(err(EscrowError::FundingTokenNotSet)));
    assert_eq!(blank.get_treasury(), Err(err(EscrowError::TreasuryNotSet)));
}

#[test]
fn fee_schedule_lifecycle() {
    let mut s = deploy();
    let first = FeeSchedule { fee_bps: 100, min_fee_bps: 50, max_fee_bps: 200, activation_ledger: 60 };
    let second = FeeSchedule { fee_bps: 150, min_fee_bps: 50, max_fee_bps: 200, activation_ledger: 90 };
    let bad = FeeSchedule { fee_bps: 300, min_fee_bps: 50, max_fee_bps: 200, activation_ledger: 60 };
    assert_eq!(s.submit_fee_schedule(&at_ledger(50), bad), Err(Failure::FeeSchedule(FeeScheduleError::FeeOutOfBounds)));
    assert_eq!(
        s.submit_fee_schedule(&at_ledger(60), first),
        Err(Failure::FeeSchedule(FeeScheduleError::InvalidActivationLedger))
    );
    s.submit_fee_schedule(&at_ledger(50), first).unwrap();
    // Re-submitting the pending schedule is accepted.
    s.submit_fee_schedule(&at_ledger(51), first).unwrap();
    assert_eq!(s.submit_fee_schedule(&at_ledger(52), second), Err(Failure::FeeSchedule(FeeScheduleError::PendingScheduleExists)));
    assert_eq!(s.get_pending_fee_schedule(&at_ledger(55)), Some(first));
    assert_eq!(s.get_active_fee_schedule(&at_ledger(55)), None);
    // Once due, the pending schedule reads as active before it is promoted.
    assert_eq!(s.get_active_fee_schedule(&at_ledger(60)), Some(first));
    assert_eq!(s.get_pending_fee_schedule(&at_ledger(60)), None);
    // Submitting after the boundary promotes it first.
    s.submit_fee_schedule(&at_ledger(61), second).unwrap();
    assert_eq!(s.get_active_fee_schedule(&at_ledger(61)), Some(first));
    assert_eq!(s.get_previous_fee_schedule(&at_ledger(61)), None);
    assert!(s.activate_fee_schedule(&at_ledger(95)));
    assert_eq!(s.get_active_fee_schedule(&at_ledger(95)), Some(second));
    assert_eq!(s.get_previous_fee_schedule(&at_ledger(95)), Some(first));
    assert!(!s.activate_fee_schedule(&at_ledger(96)));
    let mut blank = StarfundEscrow::new();
    assert_eq!(blank.submit_fee_schedule(&at_ledger(1), first), Err(Failure::FeeSchedule(FeeScheduleError::NotInitialized)));
}
