use starfund_escrow::errors::{EscrowError, Failure};
use starfund_escrow::state::StarfundEscrow;
use starfund_escrow::types::{Addr, CallContext, CallbackContext};

const ADMIN: Addr = Addr { id: 1 };
const SME: Addr = Addr { id: 2 };
const TOKEN: Addr = Addr { id: 3 };
const TREASURY: Addr = Addr { id: 4 };
const ORIGIN_A: Addr = Addr { id: 10 };
const ORIGIN_B: Addr = Addr { id: 11 };
const NOW: u64 = 1_000;

/// An invocation authorized by every address these tests use.
fn all_auth() -> CallContext {
    CallContext { timestamp: NOW, sequence: 10, signers: vec![ADMIN, SME, TOKEN, TREASURY, ORIGIN_A, ORIGIN_B] }
}

fn deploy_escrow(invoice_id: &str) -> StarfundEscrow {
    let mut s = StarfundEscrow::new();
    s.init(
        &all_auth(),
        ADMIN,
        invoice_id.as_bytes(),
        SME,
        1_000,
        800,
        0,
        TOKEN,
        None,
        TREASURY,
        None,
        None,
        None,
        None,
        None,
        None,
        None,
        None,
        None,
        None,
    )
    .expect("init");
    s
}

fn err(e: EscrowError) -> Failure {
    Failure::Escrow(e)
}

#[test]
fn test_valid_callback_registration_and_execution() {
    let mut s = deploy_escrow("INV_CB_1");
    let call = all_auth();
    let origin = ORIGIN_A;
    let phase = 1u32;

    assert_eq!(s.get_callback_nonce(), 0);
    assert_eq!(s.get_callback(1), None);
    assert!(!s.is_callback_consumed(1));

    let nonce = s.register_callback(&call, origin, phase).unwrap();
    assert_eq!(nonce, 1);
    assert_eq!(s.get_callback_nonce(), 1);

    let stored = s.get_callback(nonce).expect("callback should exist");
    assert_eq!(
        stored,
        CallbackContext { origin, nonce: 1, phase: 1, created_at: call.timestamp, consumed: false }
    );
    assert!(!s.is_callback_consumed(nonce));

    let executed = s.execute_callback(&call, nonce, origin, phase).unwrap();
    assert_eq!(executed.nonce, 1);
    assert_eq!(executed.origin, origin);
    assert_eq!(executed.phase, phase);
    assert!(executed.consumed);
    assert!(s.is_callback_consumed(nonce));

    let after = s.get_callback(nonce).expect("callback should exist");
    assert!(after.consumed);
}

#[test]
fn test_callback_wrong_origin_rejected() {
    let mut s = deploy_escrow("INV_CB_2");
    let call = all_auth();
    let phase = 1u32;

    let nonce = s.register_callback(&call, ORIGIN_A, phase).unwrap();
    assert_eq!(nonce, 1);

    assert_eq!(s.execute_callback(&call, nonce, ORIGIN_B, phase), Err(err(EscrowError::CallbackWrongOrigin)));

    assert!(!s.is_callback_consumed(nonce));
    let stored = s.get_callback(nonce).expect("callback should still exist");
    assert!(!stored.consumed);
}

#[test]
fn test_callback_wrong_nonce_rejected() {
    let mut s = deploy_escrow("INV_CB_3");
    let call = all_auth();
    let phase = 1u32;

    let nonce = s.register_callback(&call, ORIGIN_A, phase).unwrap();
    assert_eq!(nonce, 1);

    assert_eq!(s.execute_callback(&call, 999u64, ORIGIN_A, phase), Err(err(EscrowError::CallbackNotFound)));

    assert!(!s.is_callback_consumed(1));
}

#[test]
fn test_callback_stored_nonce_mismatch_rejected() {
    let mut s = deploy_escrow("INV_CB_3C");
    let call = all_auth();
    let phase = 1u32;
    let nonce = s.register_callback(&call, ORIGIN_A, phase).unwrap();
    let mut context = s.get_callback(nonce).expect("callback should exist");
    context.nonce = nonce + 1;
    s.callbacks.put(nonce, context);

    assert_eq!(s.execute_callback(&call, nonce, ORIGIN_A, phase), Err(err(EscrowError::CallbackWrongNonce)));
}

#[test]
fn test_callback_mismatched_nonce_between_origins() {
    let mut s = deploy_escrow("INV_CB_3B");
    let call = all_auth();

    let nonce_1 = s.register_callback(&call, ORIGIN_A, 1u32).unwrap();
    let nonce_2 = s.register_callback(&call, ORIGIN_B, 2u32).unwrap();

    assert_eq!(nonce_1, 1);
    assert_eq!(nonce_2, 2);

    let res = s.execute_callback(&call, nonce_2, ORIGIN_A, 1u32);
    assert!(res.is_err(), "origin A must not be able to execute callback registered for origin B");

    assert!(!s.is_callback_consumed(nonce_1));
    assert!(!s.is_callback_consumed(nonce_2));
}

#[test]
fn test_callback_replay_rejected() {
    let mut s = deploy_escrow("INV_CB_4");
    let call = all_auth();
    let phase = 1u32;

    let nonce = s.register_callback(&call, ORIGIN_A, phase).unwrap();

    let first = s.execute_callback(&call, nonce, ORIGIN_A, phase).unwrap();
    assert!(first.consumed);
    assert!(s.is_callback_consumed(nonce));

    assert_eq!(s.execute_callback(&call, nonce, ORIGIN_A, phase), Err(err(EscrowError::CallbackReplayed)));

    assert!(s.is_callback_consumed(nonce));
}

#[test]
fn test_callback_after_cancellation_rejected() {
    let mut s = deploy_escrow("INV_CB_5");
    let call = all_auth();
    let phase = 1u32;

    let nonce = s.register_callback(&call, ORIGIN_A, phase).unwrap();
    assert_eq!(nonce, 1);

    s.cancel_funding(&call, 0).unwrap();
    assert_eq!(s.get_escrow().unwrap().status, 4);

    assert_eq!(s.execute_callback(&call, nonce, ORIGIN_A, phase), Err(err(EscrowError::CallbackAfterCancellation)));

    assert_eq!(s.register_callback(&call, ORIGIN_A, phase), Err(err(EscrowError::CallbackAfterCancellation)));
}

#[test]
fn test_callback_wrong_phase_rejected() {
    let mut s = deploy_escrow("INV_CB_PHASE");
    let call = all_auth();
    let expected_phase = 1u32;
    let wrong_phase = 2u32;

    let nonce = s.register_callback(&call, ORIGIN_A, expected_phase).unwrap();

    assert_eq!(s.execute_callback(&call, nonce, ORIGIN_A, wrong_phase), Err(err(EscrowError::CallbackWrongPhase)));

    assert!(!s.is_callback_consumed(nonce));
}

#[test]
fn test_multiple_callbacks_independent_consumption() {
    let mut s = deploy_escrow("INV_CB_MULTI");
    let call = all_auth();

    let nonce_1 = s.register_callback(&call, ORIGIN_A, 10u32).unwrap();
    let nonce_2 = s.register_callback(&call, ORIGIN_B, 20u32).unwrap();
    let nonce_3 = s.register_callback(&call, ORIGIN_A, 30u32).unwrap();

    assert_eq!(nonce_1, 1);
    assert_eq!(nonce_2, 2);
    assert_eq!(nonce_3, 3);
    assert_eq!(s.get_callback_nonce(), 3);

    s.execute_callback(&call, nonce_2, ORIGIN_B, 20u32).unwrap();
    assert!(!s.is_callback_consumed(1));
    assert!(s.is_callback_consumed(2));
    assert!(!s.is_callback_consumed(3));

    s.execute_callback(&call, nonce_1, ORIGIN_A, 10u32).unwrap();
    assert!(s.is_callback_consumed(1));
    assert!(s.is_callback_consumed(2));
    assert!(!s.is_callback_consumed(3));

    s.execute_callback(&call, nonce_3, ORIGIN_A, 30u32).unwrap();
    assert!(s.is_callback_consumed(1));
    assert!(s.is_callback_consumed(2));
    assert!(s.is_callback_consumed(3));
}

#[test]
fn callback_registration_requires_admin() {
    let mut s = deploy_escrow("INV_CB_AUTH");
    let call = CallContext { timestamp: NOW, sequence: 10, signers: vec![ORIGIN_A] };
    assert_eq!(s.register_callback(&call, ORIGIN_A, 1), Err(Failure::AuthMissing(ADMIN)));
    assert_eq!(s.get_callback_nonce(), 0);
}

#[test]
fn callback_execution_requires_origin_authorization() {
    let mut s = deploy_escrow("INV_CB_AUTH2");
    let nonce = s.register_callback(&all_auth(), ORIGIN_A, 1).unwrap();
    let call = CallContext { timestamp: NOW, sequence: 10, signers: vec![ADMIN] };
    assert_eq!(s.execute_callback(&call, nonce, ORIGIN_A, 1), Err(Failure::AuthMissing(ORIGIN_A)));
    assert!(!s.is_callback_consumed(nonce));
}
