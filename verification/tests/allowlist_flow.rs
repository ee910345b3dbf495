use starfund_escrow::errors::{EscrowError, Failure};
use starfund_escrow::state::StarfundEscrow;
use starfund_escrow::types::{Addr, CallContext};

const ADMIN: Addr = Addr { id: 1 };
const SME: Addr = Addr { id: 2 };
const TOKEN: Addr = Addr { id: 3 };
const TREASURY: Addr = Addr { id: 4 };
const INV_A: Addr = Addr { id: 10 };
const INV_B: Addr = Addr { id: 11 };
const INV_C: Addr = Addr { id: 12 };

fn everyone(ts: u64) -> CallContext {
    CallContext { timestamp: ts, sequence: 60, signers: vec![ADMIN, SME, TOKEN, TREASURY] }
}

fn err(e: EscrowError) -> Failure {
    Failure::Escrow(e)
}

fn deploy() -> StarfundEscrow {
    let mut s = StarfundEscrow::new();
    s.init(&everyone(100), ADMIN, b"INV_AL", SME, 1_000, 800, 0, TOKEN, None, TREASURY, None, None, None, None, None, None, None, Some(true), None, None).unwrap();
    s
}

#[test]
fn allowlist_gate_flag_from_init_and_toggle() {
    let mut s = deploy();
    assert!(s.is_allowlist_active());
    s.set_allowlist_active(&everyone(200), false, 0).unwrap();
    assert!(!s.is_allowlist_active());
    assert_eq!(s.set_allowlist_active(&everyone(200), true, 0), Err(err(EscrowError::AdminNonceMismatch)));
}

#[test]
fn entries_and_index_stay_in_step() {
    let mut s = deploy();
    s.set_investor_allowlisted(&everyone(200), INV_A, true, 0).unwrap();
    s.set_investor_allowlisted(&everyone(200), INV_B, true, 1).unwrap();
    s.set_investor_allowlisted(&everyone(200), INV_A, true, 2).unwrap();
    assert_eq!(s.get_allowlisted_investors(0, 10), vec![INV_A, INV_B]);
    assert_eq!(s.get_allowlisted_investors_count(), 2);
    s.set_investor_allowlisted(&everyone(200), INV_A, false, 3).unwrap();
    assert!(!s.is_investor_allowlisted(INV_A));
    assert!(s.is_investor_allowlisted(INV_B));
    assert_eq!(s.get_allowlisted_investors(0, 10), vec![INV_B]);
    assert_eq!(s.get_allowlisted_investors_count(), 1);
    assert_eq!(s.get_allowlisted_investors(5, 10), vec![]);
}

#[test]
fn batch_matches_single_calls() {
    let mut batch = deploy();
    batch.set_investors_allowlisted(&everyone(200), &vec![INV_A, INV_B, INV_C], true, 0).unwrap();
    batch.set_investors_allowlisted(&everyone(200), &vec![INV_B], false, 1).unwrap();

    let mut single = deploy();
    single.set_investor_allowlisted(&everyone(200), INV_A, true, 0).unwrap();
    single.set_investor_allowlisted(&everyone(200), INV_B, true, 1).unwrap();
    single.set_investor_allowlisted(&everyone(200), INV_C, true, 2).unwrap();
    single.set_investor_allowlisted(&everyone(200), INV_B, false, 3).unwrap();

    for a in [INV_A, INV_B, INV_C] {
        assert_eq!(batch.is_investor_allowlisted(a), single.is_investor_allowlisted(a));
    }
    assert_eq!(batch.get_allowlisted_investors(0, 50), single.get_allowlisted_investors(0, 50));
    assert_eq!(batch.get_allowlisted_investors(0, 50), vec![INV_A, INV_C]);
    assert_eq!(batch.get_admin_nonce(), 2);
    assert_eq!(single.get_admin_nonce(), 4);
}

#[test]
fn batch_bounds() {
    let mut s = deploy();
    assert_eq!(s.set_investors_allowlisted(&everyone(200), &vec![], true, 0), Err(err(EscrowError::InvestorBatchEmpty)));
    let big: Vec<Addr> = (0..33u64).map(|i| Addr::new(500 + i)).collect();
    assert_eq!(s.set_investors_allowlisted(&everyone(200), &big, true, 0), Err(err(EscrowError::InvestorBatchTooLarge)));
    assert_eq!(s.get_admin_nonce(), 0);
}
