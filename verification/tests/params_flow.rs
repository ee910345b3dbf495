use starfund_escrow::consts::{DEFAULT_MATURITY_MAX_HORIZON_SECS, INSTANCE_TTL_MIN_EXTENSION_LEDGERS, SCHEMA_VERSION, TTL_ACTIVE_ESCROW_LEDGERS, TTL_DISPUTED_ESCROW_LEDGERS};
use starfund_escrow::errors::{EscrowError, Failure};
use starfund_escrow::state::StarfundEscrow;
use starfund_escrow::types::{Addr, CallContext};

const ADMIN: Addr = Addr { id: 1 };
const SME: Addr = Addr { id: 2 };
const TOKEN: Addr = Addr { id: 3 };
const TREASURY: Addr = Addr { id: 4 };
const INV_A: Addr = Addr { id: 10 };
const INV_B: Addr = Addr { id: 11 };

fn everyone(ts: u64) -> CallContext {
    CallContext { timestamp: ts, sequence: 30, signers: vec![ADMIN, SME, TOKEN, TREASURY, INV_A, INV_B] }
}

fn err(e: EscrowError) -> Failure {
    Failure::Escrow(e)
}

fn deploy(maturity: u64, deadline: Option<u64>, unique_cap: Option<u32>, per_cap: Option<i128>, floor: Option<i128>) -> StarfundEscrow {
    let mut s = StarfundEscrow::new();
    s.init(&everyone(100), ADMIN, b"INV_PAR", SME, 1_000, 800, maturity, TOKEN, None, TREASURY, None, floor, unique_cap, per_cap, None, None, deadline, None, None, None).unwrap();
    s
}

#[test]
fn lowering_the_target_closes_funding_once() {
    let mut s = deploy(0, None, None, None, None);
    s.fund(&everyone(200), INV_A, 600).unwrap();
    assert_eq!(s.update_funding_target(&everyone(210), 0, 0), Err(err(EscrowError::TargetNotPositive)));
    assert_eq!(s.update_funding_target(&everyone(210), 500, 0), Err(err(EscrowError::TargetBelowFundedAmount)));
    let e = s.update_funding_target(&everyone(210), 600, 0).unwrap();
    assert_eq!(e.status, 1);
    assert_eq!(e.funding_target, 600);
    let snap = s.get_funding_close_snapshot().unwrap();
    assert_eq!(snap.total_principal, 600);
    assert_eq!(snap.funding_target, 600);
    assert_eq!(s.update_funding_target(&everyone(220), 700, 1), Err(err(EscrowError::TargetUpdateNotOpen)));
}

#[test]
fn deadline_update_and_extension() {
    let mut s = deploy(10_000, Some(1_000), None, None, None);
    assert_eq!(s.update_funding_deadline(&everyone(200), Some(150), 0), Err(err(EscrowError::FundingDeadlinePassed)));
    s.update_funding_deadline(&everyone(200), Some(2_000), 0).unwrap();
    assert_eq!(s.get_funding_deadline(), Some(2_000));
    assert_eq!(s.extend_funding_deadline(&everyone(300), 1_500), Err(err(EscrowError::FundingDeadlineNotExtended)));
    assert_eq!(s.extend_funding_deadline(&everyone(300), 10_000), Err(err(EscrowError::FundingDeadlineAtOrAfterMaturity)));
    assert_eq!(s.extend_funding_deadline(&everyone(300), 3_000), Ok(3_000));
    assert_eq!(s.extend_funding_deadline(&everyone(3_001), 4_000), Err(err(EscrowError::FundingDeadlinePassed)));
    s.update_funding_deadline(&everyone(400), None, 1).unwrap();
    assert_eq!(s.get_funding_deadline(), None);
    assert_eq!(s.extend_funding_deadline(&everyone(400), 5_000), Err(err(EscrowError::FundingDeadlineNotExtended)));
}

#[test]
fn investor_caps_move_in_one_direction() {
    let mut s = deploy(0, None, Some(5), Some(300), Some(50));
    s.fund(&everyone(200), INV_A, 100).unwrap();
    s.fund(&everyone(200), INV_B, 100).unwrap();
    assert_eq!(s.lower_max_unique_investors(&everyone(210), 5, 0), Err(err(EscrowError::NewCapNotLower)));
    assert_eq!(s.lower_max_unique_investors(&everyone(210), 1, 0), Err(err(EscrowError::NewCapBelowCurrentFunderCount)));
    assert_eq!(s.lower_max_unique_investors(&everyone(210), 2, 0), Ok(2));
    assert_eq!(s.get_max_unique_investors_cap(), Some(2));
    assert_eq!(s.raise_max_unique_investors(&everyone(220), 2), Err(err(EscrowError::NewCapNotHigher)));
    assert_eq!(s.raise_max_unique_investors(&everyone(220), 4), Ok(4));
    assert_eq!(s.raise_max_per_investor(&everyone(220), 300), Err(err(EscrowError::MaxPerInvestorCapNotRaised)));
    assert_eq!(s.raise_max_per_investor(&everyone(220), 400), Ok(400));
    assert_eq!(s.get_max_per_investor_cap(), Some(400));
    assert_eq!(s.lower_min_contribution_floor(&everyone(230), 60), Err(err(EscrowError::NewFloorNotLower)));
    assert_eq!(s.lower_min_contribution_floor(&everyone(230), 0), Err(err(EscrowError::NewFloorNotPositive)));
    assert_eq!(s.lower_min_contribution_floor(&everyone(230), 20), Ok(20));
    assert_eq!(s.get_min_contribution_floor(), 20);
}

#[test]
fn caps_need_configuration() {
    let mut s = deploy(0, None, None, None, None);
    assert_eq!(s.lower_max_unique_investors(&everyone(210), 2, 0), Err(err(EscrowError::NoInvestorCapConfigured)));
    assert_eq!(s.raise_max_unique_investors(&everyone(210), 2), Err(err(EscrowError::NoInvestorCapConfigured)));
    assert_eq!(s.raise_max_per_investor(&everyone(210), 2), Err(err(EscrowError::MaxPerInvestorCapNotConfigured)));
}

#[test]
fn maturity_and_yield_updates_while_open() {
    let mut s = deploy(5_000, None, None, None, None);
    assert_eq!(s.update_maturity(&everyone(200), 5_000), Err(err(EscrowError::MaturityUnchanged)));
    assert_eq!(s.update_maturity(&everyone(200), 150), Err(err(EscrowError::MaturityInPast)));
    assert_eq!(s.update_maturity(&everyone(200), 200 + DEFAULT_MATURITY_MAX_HORIZON_SECS + 1), Err(err(EscrowError::MaturityExceedsMaxHorizon)));
    assert_eq!(s.update_maturity(&everyone(200), 6_000).unwrap().maturity, 6_000);
    assert!(s.has_maturity_lock().unwrap());
    assert_eq!(s.update_yield_bps(&everyone(200), 10_001), Err(err(EscrowError::YieldBpsOutOfRange)));
    assert_eq!(s.update_yield_bps(&everyone(200), 800), Err(err(EscrowError::YieldBpsUnchanged)));
    assert_eq!(s.update_yield_bps(&everyone(200), 900).unwrap().yield_bps, 900);
    s.fund(&everyone(300), INV_A, 1_000).unwrap();
    assert_eq!(s.update_maturity(&everyone(400), 7_000), Err(err(EscrowError::MaturityUpdateNotOpen)));
    assert_eq!(s.update_yield_bps(&everyone(400), 700), Err(err(EscrowError::YieldBpsUpdateNotOpen)));
}

#[test]
fn horizon_and_storage_limit() {
    let mut s = deploy(0, None, None, None, None);
    assert_eq!(s.get_maturity_max_horizon(), DEFAULT_MATURITY_MAX_HORIZON_SECS);
    assert_eq!(s.raise_maturity_max_horizon(&everyone(200), 10), Err(err(EscrowError::HorizonNotRaised)));
    assert_eq!(s.raise_maturity_max_horizon(&everyone(200), DEFAULT_MATURITY_MAX_HORIZON_SECS + 1), Ok(DEFAULT_MATURITY_MAX_HORIZON_SECS + 1));
    assert_eq!(s.update_maturity_max_horizon(&everyone(200), 10), Ok(10));
    assert_eq!(s.get_maturity_max_horizon(), 10);
    assert_eq!(s.get_storage_limit(), INSTANCE_TTL_MIN_EXTENSION_LEDGERS);
    assert_eq!(s.set_storage_limit(&everyone(200), 0), Err(err(EscrowError::StorageLimitOutOfRange)));
    assert_eq!(s.set_storage_limit(&everyone(200), 7_200), Ok(7_200));
    assert_eq!(s.get_storage_limit(), 7_200);
}

#[test]
fn bump_ttl_returns_the_lifecycle_horizon() {
    let mut s = deploy(0, None, None, None, None);
    assert_eq!(s.bump_ttl(&vec![]), Err(err(EscrowError::BumpTtlBatchEmpty)));
    let big: Vec<Addr> = (0..33u64).map(Addr::new).collect();
    assert_eq!(s.bump_ttl(&big), Err(err(EscrowError::BumpTtlBatchTooLarge)));
    assert_eq!(s.bump_ttl(&vec![INV_A]), Ok(TTL_ACTIVE_ESCROW_LEDGERS));
    s.set_dispute_active(&everyone(200), true).unwrap();
    assert_eq!(s.bump_ttl(&vec![INV_A]), Ok(TTL_DISPUTED_ESCROW_LEDGERS));
}

#[test]
fn migrate_fails_on_every_path() {
    let mut s = deploy(0, None, None, None, None);
    assert_eq!(s.get_version(), SCHEMA_VERSION);
    assert_eq!(s.migrate(&everyone(200), 1, 0), Err(err(EscrowError::MigrationVersionMismatch)));
    assert_eq!(s.migrate(&everyone(200), SCHEMA_VERSION, 0), Err(err(EscrowError::AlreadyCurrentSchemaVersion)));
    s.version = Some(2);
    assert_eq!(s.migrate(&everyone(200), 2, 0), Err(err(EscrowError::NoMigrationPath)));
    assert_eq!(s.get_admin_nonce(), 0);
}

#[test]
fn upgrade_consumes_the_nonce() {
    let mut s = deploy(0, None, None, None, None);
    assert_eq!(s.upgrade(&everyone(200), 1), Err(err(EscrowError::AdminNonceMismatch)));
    assert_eq!(s.upgrade(&everyone(200), 0), Ok(()));
    assert_eq!(s.get_admin_nonce(), 1);
}
