use starfund_escrow::errors::{EscrowError, Failure};
use starfund_escrow::settlement::Withdrawal;
use starfund_escrow::state::StarfundEscrow;
use starfund_escrow::types::{Addr, CallContext, PauseReason, PauseScope, ReconciliationView};

const ADMIN: Addr = Addr { id: 1 };
const SME: Addr = Addr { id: 2 };
const TOKEN: Addr = Addr { id: 3 };
const TREASURY: Addr = Addr { id: 4 };
const INV_A: Addr = Addr { id: 10 };
const INV_B: Addr = Addr { id: 11 };

fn everyone(ts: u64) -> CallContext {
    CallContext { timestamp: ts, sequence: 70, signers: vec![ADMIN, SME, TOKEN, TREASURY, INV_A, INV_B] }
}

fn only(ts: u64, signers: &[Addr]) -> CallContext {
    CallContext { timestamp: ts, sequence: 70, signers: signers.to_vec() }
}

fn err(e: EscrowError) -> Failure {
    Failure::Escrow(e)
}

/// An escrow of 1 000 at 800 bps with the given maturity and fee, funded 600 / 400.
fn funded(maturity: u64, fee_bps: Option<i64>) -> StarfundEscrow {
    let mut s = StarfundEscrow::new();
    s.init(&everyone(100), ADMIN, b"INV_SET", SME, 1_000, 800, maturity, TOKEN, None, TREASURY, None, None, None, None, None, None, None, None, fee_bps, None).unwrap();
    s.fund(&everyone(200), INV_A, 600).unwrap();
    s.fund(&everyone(200), INV_B, 400).unwrap();
    s
}

#[test]
fn settle_reports_coupon_and_pool() {
    let mut s = funded(0, None);
    let r = s.settle(&everyone(300)).unwrap();
    assert_eq!(r.coupon, 80);
    assert_eq!(r.settle_pool, 1_080);
    assert_eq!(r.settled_at, 300);
    assert_eq!(r.escrow.status, 2);
    assert_eq!(s.get_settled_at(), Some(300));
    assert_eq!(s.get_settlement_pool(), Ok(1_080));
}

#[test]
fn settle_happens_once() {
    let mut s = funded(0, None);
    s.settle(&everyone(300)).unwrap();
    assert_eq!(s.settle(&everyone(301)), Err(err(EscrowError::EscrowAlreadySettled)));
}

#[test]
fn settle_waits_for_maturity_and_sme() {
    let mut s = funded(5_000, None);
    assert_eq!(s.settle(&everyone(4_999)), Err(err(EscrowError::MaturityNotReached)));
    assert_eq!(s.settle(&only(5_000, &[ADMIN])), Err(Failure::AuthMissing(SME)));
    assert!(s.settle(&everyone(5_000)).is_ok());
}

#[test]
fn settle_requires_funded_status() {
    let mut s = StarfundEscrow::new();
    s.init(&everyone(100), ADMIN, b"INV_OPEN", SME, 1_000, 800, 0, TOKEN, None, TREASURY, None, None, None, None, None, None, None, None, None, None).unwrap();
    assert_eq!(s.settle(&everyone(300)), Err(err(EscrowError::SettlementNotFunded)));
}

#[test]
fn settlement_pause_blocks_settle_only() {
    let mut s = funded(0, None);
    s.set_paused(&everyone(250), true, PauseScope::Settlement, PauseReason::Incident).unwrap();
    assert_eq!(s.settle(&everyone(300)), Err(err(EscrowError::PausedBlocksSettlement)));
    assert_eq!(s.is_settleable(&everyone(300)), Ok(false));
}

#[test]
fn dispute_blocks_settlement() {
    let mut s = funded(0, None);
    s.open_dispute(&everyone(250), ADMIN).unwrap();
    assert_eq!(s.settle(&everyone(300)), Err(err(EscrowError::DisputeBlocksSettlement)));
    s.close_dispute(&everyone(260), ADMIN, true).unwrap();
    assert!(s.settle(&everyone(300)).is_ok());
}

#[test]
fn claims_pay_pro_rata_and_once() {
    let mut s = funded(0, None);
    s.settle(&everyone(300)).unwrap();
    assert_eq!(s.get_claimable_payout(&everyone(300), INV_A), Ok(648));
    assert_eq!(s.claim_investor_payout(&everyone(300), INV_A), Ok(Some(648)));
    assert!(s.is_investor_claimed(INV_A));
    assert_eq!(s.claim_investor_payout(&everyone(301), INV_A), Ok(None));
    assert_eq!(s.get_claimable_payout(&everyone(301), INV_A), Ok(0));
    assert_eq!(s.claim_investor_payout(&everyone(300), INV_B), Ok(Some(432)));
}

#[test]
fn claim_before_settlement_is_rejected() {
    let mut s = funded(0, None);
    assert_eq!(s.claim_investor_payout(&everyone(300), INV_A), Err(err(EscrowError::InvestorClaimNotSettled)));
    assert_eq!(s.claim_investor_payout(&everyone(300), Addr::new(99)), Err(Failure::AuthMissing(Addr::new(99))));
}

#[test]
fn claim_without_contribution_is_rejected() {
    let mut s = funded(0, None);
    s.settle(&everyone(300)).unwrap();
    let stranger = Addr::new(77);
    assert_eq!(s.claim_investor_payout(&only(300, &[stranger]), stranger), Err(err(EscrowError::NoContributionToClaim)));
}

#[test]
fn compute_investor_payout_uses_snapshot() {
    let s = funded(0, None);
    assert_eq!(s.compute_investor_payout(INV_A), Ok(648));
    assert_eq!(s.compute_investor_payout(INV_B), Ok(432));
    assert_eq!(s.compute_investor_payout(Addr::new(5)), Ok(0));
}

#[test]
fn withdraw_splits_fee_and_net() {
    let mut s = funded(0, Some(250));
    let w = s.withdraw(&everyone(300), 1_000).unwrap();
    assert_eq!(w.fee, 25);
    assert_eq!(w.net, 975);
    assert_eq!(w.fee + w.net, 1_000);
    assert_eq!(w.fee_recipient, Some(TREASURY));
    assert_eq!(w.escrow.status, 3);
    assert_eq!(s.get_distributed_principal(), 1_000);
}

#[test]
fn withdraw_without_fee_names_no_recipient() {
    let mut s = funded(0, None);
    let w: Withdrawal = s.withdraw(&everyone(300), 1_000).unwrap();
    assert_eq!(w.fee, 0);
    assert_eq!(w.net, 1_000);
    assert_eq!(w.fee_recipient, None);
}

#[test]
fn withdraw_needs_balance() {
    let mut s = funded(0, None);
    assert_eq!(s.withdraw(&everyone(300), 999), Err(err(EscrowError::InsufficientContractBalance)));
    assert_eq!(s.get_escrow().unwrap().status, 1);
}

#[test]
fn release_pays_in_parts_then_completes() {
    let mut s = funded(0, None);
    let e = s.release(&everyone(300), 400, 1_000).unwrap();
    assert_eq!(e.status, 1);
    assert_eq!(s.released_amount, 400);
    assert_eq!(s.release(&everyone(300), 601, 1_000), Err(err(EscrowError::ReleaseExceedsRemaining)));
    let e = s.release(&everyone(300), 600, 1_000).unwrap();
    assert_eq!(e.status, 3);
    assert_eq!(s.released_amount, 1_000);
    assert_eq!(s.release(&everyone(300), 0, 1_000), Err(err(EscrowError::ReleaseAmountNotPositive)));
}

#[test]
fn partial_settle_closes_funding_early() {
    let mut s = StarfundEscrow::new();
    s.init(&everyone(100), ADMIN, b"INV_PS", SME, 1_000, 800, 0, TOKEN, None, TREASURY, None, None, None, None, None, None, None, None, None, None).unwrap();
    s.fund(&everyone(200), INV_A, 300).unwrap();
    assert_eq!(s.partial_settle(&everyone(250), INV_A), Err(err(EscrowError::PartialSettleUnauthorizedCaller)));
    let e = s.partial_settle(&everyone(250), SME).unwrap();
    assert_eq!(e.status, 1);
    assert_eq!(s.get_funding_close_snapshot().unwrap().total_principal, 300);
    assert_eq!(s.partial_settle(&everyone(260), SME), Err(err(EscrowError::PartialSettleNotOpen)));
}

#[test]
fn cancel_and_refund_flow() {
    let mut s = StarfundEscrow::new();
    s.init(&everyone(100), ADMIN, b"INV_CAN", SME, 1_000, 800, 0, TOKEN, None, TREASURY, None, None, None, None, None, None, None, None, None, None).unwrap();
    s.fund(&everyone(200), INV_A, 300).unwrap();
    s.fund(&everyone(200), INV_B, 200).unwrap();
    assert_eq!(s.refund(&everyone(250), INV_A), Err(err(EscrowError::RefundNotCancelled)));
    assert_eq!(s.cancel_funding(&everyone(250), 5), Err(err(EscrowError::AdminNonceMismatch)));
    let e = s.cancel_funding(&everyone(250), 0).unwrap();
    assert_eq!(e.status, 4);
    assert_eq!(s.get_admin_nonce(), 1);
    assert_eq!(s.refund(&everyone(260), INV_A), Ok(300));
    assert!(s.is_investor_refunded(INV_A));
    assert_eq!(s.get_contribution(INV_A), 0);
    assert_eq!(s.get_distributed_principal(), 300);
    assert_eq!(s.refund(&everyone(261), INV_A), Err(err(EscrowError::NoContributionToRefund)));
    // The batch skips the investor already refunded.
    assert_eq!(s.refund_batch(&everyone(262), &vec![INV_A, INV_B]), Ok(vec![(INV_B, 200)]));
    assert_eq!(s.get_distributed_principal(), 500);
}

#[test]
fn refund_batch_rejects_bad_batches() {
    let mut s = funded(0, None);
    assert_eq!(s.refund_batch(&everyone(300), &vec![]), Err(err(EscrowError::RefundBatchEmpty)));
    let big: Vec<Addr> = (0..51u64).map(|i| Addr::new(200 + i)).collect();
    assert_eq!(s.refund_batch(&everyone(300), &big), Err(err(EscrowError::RefundBatchTooLarge)));
    assert_eq!(s.refund_batch(&everyone(300), &vec![INV_A]), Err(err(EscrowError::RefundNotCancelled)));
}

#[test]
fn cancel_requires_open_escrow() {
    let mut s = funded(0, None);
    assert_eq!(s.cancel_funding(&everyone(250), 0), Err(err(EscrowError::CancelFundingNotOpen)));
    assert_eq!(s.get_admin_nonce(), 0);
}

#[test]
fn sweep_keeps_the_liability_floor() {
    let mut s = StarfundEscrow::new();
    s.init(&everyone(100), ADMIN, b"INV_SW", SME, 1_000, 800, 0, TOKEN, None, TREASURY, None, None, None, None, None, None, None, None, None, None).unwrap();
    s.fund(&everyone(200), INV_A, 300).unwrap();
    s.cancel_funding(&everyone(250), 0).unwrap();
    // 300 still owed; a balance of 310 leaves 10 of dust.
    assert_eq!(s.sweep_terminal_dust(&everyone(260), 20, 310), Err(err(EscrowError::SweepExceedsLiabilityFloor)));
    assert_eq!(s.sweep_terminal_dust(&only(260, &[ADMIN]), 10, 310), Err(Failure::AuthMissing(TREASURY)));
    assert_eq!(s.sweep_terminal_dust(&everyone(260), 10, 310), Ok(10));
    assert_eq!(
        s.get_reconciliation(300),
        Ok(ReconciliationView { token_balance: 300, outstanding_liability: 300, surplus: 0 })
    );
    // The sweep leaves the cancelled escrow as it was, so the investor can still be refunded.
    assert_eq!(s.get_escrow().unwrap().status, 4);
    assert_eq!(s.refund(&everyone(270), INV_A), Ok(300));
}

#[test]
fn sweep_rejects_open_escrow_and_bad_amounts() {
    let mut s = funded(0, None);
    assert_eq!(s.sweep_terminal_dust(&everyone(260), 0, 10), Err(err(EscrowError::SweepAmountNotPositive)));
    assert_eq!(s.sweep_terminal_dust(&everyone(260), 100_000_001, 10), Err(err(EscrowError::SweepAmountExceedsMax)));
    assert_eq!(s.sweep_terminal_dust(&everyone(260), 10, 10), Err(err(EscrowError::DustSweepNotTerminal)));
}

#[test]
fn settle_batch_is_atomic() {
    let a = funded(0, None);
    let b = funded(0, None);
    let mut open = StarfundEscrow::new();
    open.init(&everyone(100), ADMIN, b"INV_O", SME, 1_000, 800, 0, TOKEN, None, TREASURY, None, None, None, None, None, None, None, None, None, None).unwrap();
    let mut batch = vec![a, b, open];
    assert_eq!(StarfundEscrow::settle_batch(&everyone(300), &mut batch), Err(err(EscrowError::SettlementNotFunded)));
    assert_eq!(batch[0].get_escrow().unwrap().status, 1);
    let mut ok = vec![funded(0, None), funded(0, None)];
    let results = StarfundEscrow::settle_batch(&everyone(300), &mut ok).unwrap();
    assert_eq!(results.len(), 2);
    assert_eq!(ok[0].get_escrow().unwrap().status, 2);
    assert_eq!(ok[1].get_escrow().unwrap().status, 2);
    let mut empty: Vec<StarfundEscrow> = Vec::new();
    assert_eq!(StarfundEscrow::settle_batch(&everyone(300), &mut empty), Err(err(EscrowError::SettlementBatchEmpty)));
}

#[test]
fn reconciliation_reports_surplus() {
    let s = funded(0, None);
    assert_eq!(
        s.get_reconciliation(1_050),
        Ok(ReconciliationView { token_balance: 1_050, outstanding_liability: 1_000, surplus: 50 })
    );
}

#[test]
fn payouts_leave_only_rounding_residue() {
    let c = Addr::new(12);
    let mut s = StarfundEscrow::new();
    s.init(&everyone(100), ADMIN, b"INV_RES", SME, 1_000, 800, 0, TOKEN, None, TREASURY, None, None, None, None, None, None, None, None, None, None).unwrap();
    let all = CallContext { timestamp: 200, sequence: 70, signers: vec![ADMIN, SME, TOKEN, TREASURY, INV_A, INV_B, c] };
    s.fund(&all, INV_A, 333).unwrap();
    s.fund(&all, INV_B, 333).unwrap();
    s.fund(&all, c, 334).unwrap();
    let pool = s.get_settlement_pool().unwrap();
    assert_eq!(pool, 1_080);
    let paid = [s.compute_investor_payout(INV_A).unwrap(), s.compute_investor_payout(INV_B).unwrap(), s.compute_investor_payout(c).unwrap()];
    assert_eq!(paid, [359, 359, 360]);
    let sum: i128 = paid.iter().sum();
    assert!(sum <= pool && pool - sum < 3);
}
