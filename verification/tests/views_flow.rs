use starfund_escrow::consts::{DEFAULT_MATURITY_MAX_HORIZON_SECS, SCHEMA_VERSION};
use starfund_escrow::errors::{EscrowError, Failure};
use starfund_escrow::state::StarfundEscrow;
use starfund_escrow::types::{
    Addr, CallContext, CollateralCommitmentSnapshot, EscrowCloseSnapshot, RentBumpEntry, RentStatus,
    PauseReason, PauseScope, SettlementReadiness, Sym, YieldResolution, YieldTier,
};

const ADMIN: Addr = Addr { id: 1 };
const SME: Addr = Addr { id: 2 };
const TOKEN: Addr = Addr { id: 3 };
const TREASURY: Addr = Addr { id: 4 };
const INV_A: Addr = Addr { id: 10 };
const INV_B: Addr = Addr { id: 11 };

fn everyone(ts: u64) -> CallContext {
    CallContext { timestamp: ts, sequence: 80, signers: vec![ADMIN, SME, TOKEN, TREASURY, INV_A, INV_B] }
}

fn deploy(maturity: u64, tiers: Option<Vec<YieldTier>>) -> StarfundEscrow {
    let mut s = StarfundEscrow::new();
    s.init(&everyone(100), ADMIN, b"INV_VIEW", SME, 1_000, 800, maturity, TOKEN, None, TREASURY, tiers, None, None, None, None, None, None, None, Some(150), None).unwrap();
    s
}

#[test]
fn summary_collects_the_state() {
    let mut s = deploy(5_000, None);
    s.fund(&everyone(200), INV_A, 1_000).unwrap();
    s.record_sme_collateral_commitment(&everyone(210), Sym::from_bytes(b"USDC"), 50).unwrap();
    s.append_attestation_digest(&everyone(220), [1u8; 32]).unwrap();
    let sum = s.get_escrow_summary(&everyone(230)).unwrap();
    assert_eq!(sum.escrow.status, 1);
    assert!(sum.has_maturity_lock);
    assert!(!sum.legal_hold);
    assert!(matches!(sum.funding_close_snapshot, EscrowCloseSnapshot::Present(snap) if snap.total_principal == 1_000));
    assert!(matches!(sum.sme_collateral_commitment, CollateralCommitmentSnapshot::Present(c) if c.amount == 50));
    assert_eq!(sum.unique_funder_count, 1);
    assert_eq!(sum.schema_version, SCHEMA_VERSION);
    assert!(!sum.has_primary_attestation);
    assert_eq!(sum.attestation_log_length, 1);
    assert!(!sum.paused);
    assert_eq!(sum.protocol_fee_bps, 150);
    let blank = StarfundEscrow::new();
    assert_eq!(blank.get_escrow_summary(&everyone(1)).map(|x| x.unique_funder_count), Err(Failure::NotInitialized));
}

#[test]
fn readiness_matches_settleable() {
    let mut s = deploy(5_000, None);
    s.fund(&everyone(200), INV_A, 1_000).unwrap();
    let early = s.get_settlement_readiness(&everyone(4_000)).unwrap();
    assert_eq!(early, SettlementReadiness { is_settleable: false, legal_hold_active: false, maturity_reached: false, ready_now: false });
    let ripe = s.get_settlement_readiness(&everyone(5_000)).unwrap();
    assert_eq!(ripe, SettlementReadiness { is_settleable: true, legal_hold_active: false, maturity_reached: true, ready_now: true });
    assert_eq!(s.is_settleable(&everyone(5_000)), Ok(true));
    assert!(s.settle(&everyone(5_000)).is_ok());
    s.set_legal_hold(&everyone(5_001), true, 0).unwrap();
    assert_eq!(s.is_settleable(&everyone(5_001)), Ok(false));
}

#[test]
fn settlement_config_defaults_before_init() {
    let blank = StarfundEscrow::new();
    let c = blank.get_settlement_config();
    assert_eq!(c.yield_bps, 0);
    assert_eq!(c.maturity, 0);
    assert_eq!(c.maturity_max_horizon, DEFAULT_MATURITY_MAX_HORIZON_SECS);
    assert!(c.yield_tiers.is_empty());
    let s = deploy(5_000, Some(vec![YieldTier { min_lock_secs: 10, yield_bps: 900 }]));
    let c = s.get_settlement_config();
    assert_eq!(c.yield_bps, 800);
    assert_eq!(c.maturity, 5_000);
    assert_eq!(c.protocol_fee_bps, 150);
    assert_eq!(c.yield_tiers, vec![YieldTier { min_lock_secs: 10, yield_bps: 900 }]);
}

#[test]
fn investor_reads_and_pages() {
    let mut s = deploy(0, None);
    s.fund(&everyone(200), INV_A, 300).unwrap();
    s.fund(&everyone(200), INV_B, 200).unwrap();
    assert_eq!(s.get_contributions(&vec![INV_B, Addr::new(99), INV_A]), Ok(vec![200, 0, 300]));
    let big: Vec<Addr> = (0..51u64).map(Addr::new).collect();
    assert_eq!(s.get_contributions(&big), Err(Failure::Escrow(EscrowError::ContributionReadBatchTooLarge)));
    assert_eq!(s.get_investors(1, 10), vec![INV_B]);
    assert_eq!(s.get_investors(0, 0), vec![]);
    assert_eq!(s.get_funding_records(0, 1), vec![(INV_A, 300)]);
    assert_eq!(s.get_funding_records(0, 50), vec![(INV_A, 300), (INV_B, 200)]);
    assert_eq!(s.get_funding_records(2, 50), vec![]);
}

#[test]
fn rent_plan_classifies_entries() {
    let mut s = deploy(0, None);
    s.fund(&everyone(200), INV_A, 300).unwrap();
    let plan = s.get_rent_bump_plan(0, 10, 0);
    assert_eq!(
        plan,
        vec![RentBumpEntry {
            investor: INV_A,
            contribution_status: RentStatus::Current,
            effective_yield_status: RentStatus::Current,
            claimed_status: RentStatus::Expired,
            contribution_ttl: 1,
        }]
    );
    let warned = s.get_rent_bump_plan(0, 10, 3_600);
    assert_eq!(warned[0].contribution_status, RentStatus::Warning);
    assert_eq!(warned[0].claimed_status, RentStatus::Expired);
    assert_eq!(s.get_rent_bump_plan(1, 10, 0), vec![]);
}

#[test]
fn tier_reads_and_preview() {
    let tiers = vec![
        YieldTier { min_lock_secs: 100, yield_bps: 900 },
        YieldTier { min_lock_secs: 200, yield_bps: 1_000 },
        YieldTier { min_lock_secs: 300, yield_bps: 1_100 },
    ];
    let s = deploy(0, Some(tiers.clone()));
    assert_eq!(s.get_yield_tiers(), tiers);
    assert_eq!(s.get_yield_tiers_page(1, 1), vec![tiers[1]]);
    assert_eq!(s.get_yield_tiers_page(3, 1), vec![]);
    assert_eq!(s.preview_yield_tier(1, 250), Ok(YieldResolution { effective_yield_bps: 1_000, matched_lock_secs: 200 }));
    assert_eq!(s.preview_yield_tier(1, 0), Ok(YieldResolution { effective_yield_bps: 800, matched_lock_secs: 0 }));
    assert_eq!(s.preview_yield_tier(1, 50), Ok(YieldResolution { effective_yield_bps: 800, matched_lock_secs: 0 }));
}

#[test]
fn readiness_sees_disputes_and_settlement_pauses() {
    let mut s = deploy(0, None);
    s.fund(&everyone(200), INV_A, 1_000).unwrap();
    assert_eq!(s.is_settleable(&everyone(300)), Ok(true));
    s.open_dispute(&everyone(300), ADMIN).unwrap();
    assert_eq!(s.is_settleable(&everyone(301)), Ok(false));
    assert!(!s.get_settlement_readiness(&everyone(301)).unwrap().ready_now);
    assert_eq!(s.settle(&everyone(301)), Err(Failure::Escrow(EscrowError::DisputeBlocksSettlement)));
    s.close_dispute(&everyone(302), ADMIN, true).unwrap();
    s.set_paused(&everyone(303), true, PauseScope::Settlement, PauseReason::Maintenance).unwrap();
    assert_eq!(s.is_settleable(&everyone(304)), Ok(false));
    assert_eq!(s.settle(&everyone(304)), Err(Failure::Escrow(EscrowError::PausedBlocksSettlement)));
    s.set_paused(&everyone(305), false, PauseScope::Settlement, PauseReason::Maintenance).unwrap();
    assert_eq!(s.is_settleable(&everyone(306)), Ok(true));
    assert!(s.get_settlement_readiness(&everyone(306)).unwrap().ready_now);
    assert!(s.settle(&everyone(306)).is_ok());
}
