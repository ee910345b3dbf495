use starfund_escrow::consts::SCHEMA_VERSION;
use starfund_escrow::errors::{EscrowError, Failure};
use starfund_escrow::state::StarfundEscrow;
use starfund_escrow::types::{Addr, InvoiceEscrow, Sym};

fn sample_escrow() -> InvoiceEscrow {
    InvoiceEscrow {
        invoice_id: Sym::from_bytes(b"inv"),
        admin: Addr::new(1),
        sme_address: Addr::new(2),
        payer: Addr::new(1),
        amount: 1_000,
        funding_target: 1_000,
        funded_amount: 0,
        yield_bps: 0,
        maturity: 0,
        status: 0,
        dispute_active: false,
    }
}

#[test]
fn first_initialization_is_allowed() {
    let s = StarfundEscrow::new();
    assert_eq!(s.ensure_not_initialized(), Ok(()));
}

#[test]
fn same_parameters_again_rejected() {
    let mut s = StarfundEscrow::new();
    s.escrow = Some(sample_escrow());
    s.version = Some(SCHEMA_VERSION);
    let result = s.ensure_not_initialized();
    assert!(result.is_err());
    assert_eq!(result, Err(Failure::Escrow(EscrowError::EscrowAlreadyInitialized)));
    assert!(s.escrow.is_some());
    assert!(s.version.is_some());
}

#[test]
fn different_admin_rejected() {
    let mut s = StarfundEscrow::new();
    s.escrow = Some(sample_escrow());
    let result = s.ensure_not_initialized();
    assert!(result.is_err());
}

#[test]
fn different_token_rejected() {
    let mut s = StarfundEscrow::new();
    s.version = Some(SCHEMA_VERSION);
    let result = s.ensure_not_initialized();
    assert!(result.is_err());
}

#[test]
fn initialization_during_another_call_rejected() {
    let mut s = StarfundEscrow::new();
    s.version = Some(SCHEMA_VERSION);
    let result = s.ensure_not_initialized();
    assert!(result.is_err());
}
