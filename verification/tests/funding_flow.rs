use starfund_escrow::errors::{EscrowError, Failure};
use starfund_escrow::state::StarfundEscrow;
use starfund_escrow::types::{Addr, CallContext, PauseReason, PauseScope, YieldTier};

const ADMIN: Addr = Addr { id: 1 };
const SME: Addr = Addr { id: 2 };
const TOKEN: Addr = Addr { id: 3 };
const TREASURY: Addr = Addr { id: 4 };
const INV_A: Addr = Addr { id: 10 };
const INV_B: Addr = Addr { id: 11 };
const INV_C: Addr = Addr { id: 12 };

fn everyone(ts: u64) -> CallContext {
    CallContext { timestamp: ts, sequence: 50, signers: vec![ADMIN, SME, TOKEN, TREASURY, INV_A, INV_B, INV_C] }
}

fn only(ts: u64, signers: &[Addr]) -> CallContext {
    CallContext { timestamp: ts, sequence: 50, signers: signers.to_vec() }
}

fn err(e: EscrowError) -> Failure {
    Failure::Escrow(e)
}

/// An escrow of 1 000 at 800 bps, optionally with tiers, a per-investor cap and a floor.
fn deploy(tiers: Option<Vec<YieldTier>>, per_cap: Option<i128>, floor: Option<i128>, unique_cap: Option<u32>) -> StarfundEscrow {
    let mut s = StarfundEscrow::new();
    s.init(
        &everyone(100),
        ADMIN,
        b"INV_FUND",
        SME,
        1_000,
        800,
        0,
        TOKEN,
        None,
        TREASURY,
        tiers,
        floor,
        unique_cap,
        per_cap,
        None,
        None,
        None,
        None,
        None,
        None,
    )
    .unwrap();
    s
}

#[test]
fn fund_records_principal_and_closes_at_target() {
    let mut s = deploy(None, None, None, None);
    let e = s.fund(&everyone(200), INV_A, 600).unwrap();
    assert_eq!(e.funded_amount, 600);
    assert_eq!(e.status, 0);
    assert_eq!(s.get_contribution(INV_A), 600);
    assert_eq!(s.get_unique_funder_count(), 1);
    assert_eq!(s.get_funding_close_snapshot(), None);

    let e = s.fund(&everyone(300), INV_B, 400).unwrap();
    assert_eq!(e.funded_amount, 1_000);
    assert_eq!(e.status, 1);
    let snap = s.get_funding_close_snapshot().unwrap();
    assert_eq!(snap.total_principal, 1_000);
    assert_eq!(snap.funding_target, 1_000);
    assert_eq!(snap.closed_at_ledger_timestamp, 300);
    assert_eq!(snap.closed_at_ledger_sequence, 50);
    assert_eq!(s.get_investors(0, 10), vec![INV_A, INV_B]);
    assert_eq!(s.get_investor_yield_bps(INV_A), Ok(800));
}

#[test]
fn funding_after_close_is_rejected() {
    let mut s = deploy(None, None, None, None);
    s.fund(&everyone(200), INV_A, 1_000).unwrap();
    assert_eq!(s.fund(&everyone(201), INV_B, 10), Err(err(EscrowError::EscrowNotOpenForFunding)));
}

#[test]
fn over_funding_is_recorded_in_snapshot() {
    let mut s = deploy(None, None, None, None);
    s.fund(&everyone(200), INV_A, 900).unwrap();
    s.fund(&everyone(200), INV_B, 300).unwrap();
    assert_eq!(s.get_funding_close_snapshot().unwrap().total_principal, 1_200);
}

#[test]
fn fund_rejects_non_positive_amount() {
    let mut s = deploy(None, None, None, None);
    assert_eq!(s.fund(&everyone(200), INV_A, 0), Err(err(EscrowError::FundingAmountNotPositive)));
    assert_eq!(s.fund(&everyone(200), INV_A, -5), Err(err(EscrowError::FundingAmountNotPositive)));
}

#[test]
fn fund_requires_investor_and_payer_authorization() {
    let mut s = deploy(None, None, None, None);
    assert_eq!(s.fund(&only(200, &[ADMIN]), INV_A, 10), Err(Failure::AuthMissing(INV_A)));
    assert_eq!(s.fund(&only(200, &[INV_A]), INV_A, 10), Err(Failure::AuthMissing(ADMIN)));
    assert_eq!(s.get_contribution(INV_A), 0);
}

#[test]
fn fund_before_init_is_an_untyped_abort() {
    let mut s = StarfundEscrow::new();
    assert_eq!(s.fund(&everyone(1), INV_A, 10), Err(Failure::NotInitialized));
}

#[test]
fn per_investor_cap_and_floor_are_enforced() {
    let mut s = deploy(None, Some(500), Some(100), None);
    assert_eq!(s.fund(&everyone(200), INV_A, 50), Err(err(EscrowError::FundingBelowMinContribution)));
    s.fund(&everyone(200), INV_A, 400).unwrap();
    assert_eq!(s.fund(&everyone(200), INV_A, 200), Err(err(EscrowError::InvestorContributionExceedsCap)));
    assert_eq!(s.get_contribution(INV_A), 400);
}

#[test]
fn unique_investor_cap_blocks_new_funders_only() {
    let mut s = deploy(None, None, None, Some(1));
    s.fund(&everyone(200), INV_A, 100).unwrap();
    assert_eq!(s.fund(&everyone(200), INV_B, 100), Err(err(EscrowError::UniqueInvestorCapReached)));
    s.fund(&everyone(200), INV_A, 100).unwrap();
    assert_eq!(s.get_contribution(INV_A), 200);
    assert_eq!(s.get_remaining_investor_slots(), Some(0));
}

#[test]
fn paused_funding_is_blocked() {
    let mut s = deploy(None, None, None, None);
    s.set_paused(&everyone(150), true, PauseScope::Funding, PauseReason::Maintenance).unwrap();
    assert_eq!(s.fund(&everyone(200), INV_A, 10), Err(err(EscrowError::PausedBlocksFunding)));
    s.set_paused(&everyone(250), false, PauseScope::Funding, PauseReason::Maintenance).unwrap();
    assert!(s.fund(&everyone(260), INV_A, 10).is_ok());
}

#[test]
fn legal_hold_blocks_funding() {
    let mut s = deploy(None, None, None, None);
    s.set_legal_hold(&everyone(150), true, 0).unwrap();
    assert_eq!(s.fund(&everyone(200), INV_A, 10), Err(err(EscrowError::LegalHoldBlocksFunding)));
}

#[test]
fn allowlist_gate_rejects_unlisted_investors() {
    let mut s = deploy(None, None, None, None);
    s.set_allowlist_active(&everyone(150), true, 0).unwrap();
    assert_eq!(s.fund(&everyone(200), INV_A, 10), Err(err(EscrowError::InvestorNotAllowlisted)));
    s.set_investor_allowlisted(&everyone(150), INV_A, true, 1).unwrap();
    assert!(s.fund(&everyone(200), INV_A, 10).is_ok());
}

#[test]
fn funding_deadline_is_enforced() {
    let mut s = StarfundEscrow::new();
    s.init(&everyone(100), ADMIN, b"INV_DL", SME, 1_000, 800, 0, TOKEN, None, TREASURY, None, None, None, None, None, None, Some(500), None, None, None).unwrap();
    assert!(s.fund(&everyone(500), INV_A, 10).is_ok());
    assert_eq!(s.fund(&everyone(501), INV_A, 10), Err(err(EscrowError::FundingDeadlinePassed)));
    assert!(s.is_funding_expired(&everyone(501)));
}

#[test]
fn token_scale_is_enforced() {
    let mut s = StarfundEscrow::new();
    s.init(&everyone(100), ADMIN, b"INV_SC", SME, 1_000, 800, 0, TOKEN, None, TREASURY, None, None, None, None, None, None, None, None, None, Some(2)).unwrap();
    assert_eq!(s.fund(&everyone(200), INV_A, 150), Err(err(EscrowError::FundingTokenScaleInvalid)));
    assert!(s.fund(&everyone(200), INV_A, 200).is_ok());
}

#[test]
fn committed_deposit_selects_tier_and_lock() {
    let tiers = vec![YieldTier { min_lock_secs: 100, yield_bps: 900 }, YieldTier { min_lock_secs: 1_000, yield_bps: 1_200 }];
    let mut s = deploy(Some(tiers), None, None, None);
    s.fund_with_commitment(&everyone(200), INV_A, 300, 1_500).unwrap();
    assert_eq!(s.get_investor_yield_bps(INV_A), Ok(1_200));
    assert_eq!(s.get_investor_claim_not_before(INV_A), 1_700);
    s.fund_with_commitment(&everyone(200), INV_B, 300, 150).unwrap();
    assert_eq!(s.get_investor_yield_bps(INV_B), Ok(900));
    assert_eq!(s.fund_with_commitment(&everyone(200), INV_A, 10, 150), Err(err(EscrowError::TieredSecondDeposit)));
    // A follow-on simple deposit keeps the fixed tier.
    s.fund(&everyone(300), INV_A, 50).unwrap();
    assert_eq!(s.get_investor_yield_bps(INV_A), Ok(1_200));
    assert_eq!(s.get_contribution(INV_A), 350);
}

#[test]
fn commitment_lock_may_not_pass_maturity() {
    let mut s = StarfundEscrow::new();
    s.init(&everyone(100), ADMIN, b"INV_MAT", SME, 1_000, 800, 10_000, TOKEN, None, TREASURY, None, None, None, None, None, None, None, None, None, None).unwrap();
    assert_eq!(s.fund_with_commitment(&everyone(200), INV_A, 10, 20_000), Err(err(EscrowError::CommitmentLockExceedsMaturity)));
}

#[test]
fn fund_batch_funds_all_in_order() {
    let mut s = deploy(None, None, None, None);
    let e = s.fund_batch(&everyone(200), &vec![(INV_A, 300), (INV_B, 200)]).unwrap();
    assert_eq!(e.funded_amount, 500);
    assert_eq!(s.get_contribution(INV_A), 300);
    assert_eq!(s.get_contribution(INV_B), 200);
    assert_eq!(s.get_investors(0, 50), vec![INV_A, INV_B]);
}

#[test]
fn fund_batch_is_atomic() {
    let mut s = deploy(None, Some(250), None, None);
    let r = s.fund_batch(&everyone(200), &vec![(INV_A, 200), (INV_B, 300)]);
    assert_eq!(r, Err(err(EscrowError::InvestorContributionExceedsCap)));
    assert_eq!(s.get_contribution(INV_A), 0);
    assert_eq!(s.get_escrow().unwrap().funded_amount, 0);
}

#[test]
fn fund_batch_rejects_bad_batches() {
    let mut s = deploy(None, None, None, None);
    assert_eq!(s.fund_batch(&everyone(200), &vec![]), Err(err(EscrowError::FundingBatchEmpty)));
    let big: Vec<(Addr, i128)> = (0..51u64).map(|i| (Addr::new(100 + i), 1)).collect();
    assert_eq!(s.fund_batch(&everyone(200), &big), Err(err(EscrowError::FundingBatchTooLarge)));
    assert_eq!(s.fund_batch(&everyone(200), &vec![(INV_A, 1), (INV_A, 2)]), Err(err(EscrowError::FundingBatchDuplicateInvestor)));
    assert_eq!(s.fund_batch(&everyone(200), &vec![(INV_A, 1), (INV_B, 0)]), Err(err(EscrowError::FundingAmountNotPositive)));
}

#[test]
fn unfund_undoes_a_deposit() {
    let mut s = deploy(None, None, None, None);
    s.fund(&everyone(200), INV_A, 300).unwrap();
    let e = s.unfund(&everyone(210), INV_A, 300).unwrap();
    assert_eq!(e.funded_amount, 0);
    assert_eq!(s.get_contribution(INV_A), 0);
    assert_eq!(s.get_unique_funder_count(), 0);
    assert_eq!(s.unfund(&everyone(210), INV_A, 1), Err(err(EscrowError::OverWithdrawal)));
}

#[test]
fn unfund_is_blocked_after_close() {
    let mut s = deploy(None, None, None, None);
    s.fund(&everyone(200), INV_A, 1_000).unwrap();
    assert_eq!(s.unfund(&everyone(210), INV_A, 10), Err(err(EscrowError::UnfundEscrowNotOpen)));
}

#[test]
fn remaining_capacity_never_goes_negative() {
    let mut s = deploy(None, None, None, None);
    assert_eq!(s.get_remaining_funding_capacity(), Ok(1_000));
    s.fund(&everyone(200), INV_A, 400).unwrap();
    assert_eq!(s.get_remaining_funding_capacity(), Ok(600));
    s.fund(&everyone(200), INV_B, 900).unwrap();
    assert_eq!(s.get_remaining_funding_capacity(), Ok(0));
}
