use starfund_escrow::consts::{DEFAULT_MATURITY_MAX_HORIZON_SECS, MAX_INVOICE_AMOUNT, SCHEMA_VERSION};
use starfund_escrow::errors::{CloseError, EscrowError, FeeScheduleError, Failure};
use starfund_escrow::rules::{
    coupon, effective_yield_for_commitment, fee_split, is_maturity_reached, is_pre_settlement_status,
    is_terminal_status, paginate_window, payout, sat_add, sat_sub, settle_pool, validate_decimal_scale,
    validate_invoice_id, validate_maturity_bounds, validate_yield_tiers_table,
};
use starfund_escrow::state::StarfundEscrow;
use starfund_escrow::types::{Addr, CallContext, PauseEntry, PauseScope, YieldResolution, YieldTier};

const ADMIN: Addr = Addr { id: 1 };
const SME: Addr = Addr { id: 2 };
const TOKEN: Addr = Addr { id: 3 };
const TREASURY: Addr = Addr { id: 4 };

fn admin_call(ts: u64) -> CallContext {
    CallContext { timestamp: ts, sequence: 1, signers: vec![ADMIN] }
}

fn err(e: EscrowError) -> Failure {
    Failure::Escrow(e)
}

/// `init` with the given amount, yields, maturity and optional settings; `None` elsewhere.
fn try_init(
    s: &mut StarfundEscrow,
    call: &CallContext,
    invoice_id: &[u8],
    amount: i128,
    yield_bps: i64,
    maturity: u64,
    tiers: Option<Vec<YieldTier>>,
    min_contribution: Option<i128>,
    deadline: Option<u64>,
    fee: Option<i64>,
) -> Result<starfund_escrow::types::InvoiceEscrow, Failure> {
    s.init(call, ADMIN, invoice_id, SME, amount, yield_bps, maturity, TOKEN, None, TREASURY, tiers, min_contribution, None, None, None, None, deadline, None, fee, None)
}

#[test]
fn init_writes_the_escrow() {
    let mut s = StarfundEscrow::new();
    let e = try_init(&mut s, &admin_call(100), b"INV_001", 1_000, 800, 0, None, None, None, None).unwrap();
    assert_eq!(e.admin, ADMIN);
    assert_eq!(e.payer, ADMIN);
    assert_eq!(e.sme_address, SME);
    assert_eq!(e.funding_target, 1_000);
    assert_eq!(e.funded_amount, 0);
    assert_eq!(e.status, 0);
    assert_eq!(e.invoice_id.len, 7);
    assert_eq!(&e.invoice_id.bytes[..7], b"INV_001");
    assert_eq!(s.get_version(), SCHEMA_VERSION);
    assert_eq!(s.get_escrow(), Ok(e));
    assert_eq!(s.get_maturity_max_horizon(), DEFAULT_MATURITY_MAX_HORIZON_SECS);
    assert_eq!(s.ensure_not_initialized(), Err(err(EscrowError::EscrowAlreadyInitialized)));
}

#[test]
fn second_init_is_rejected() {
    let mut s = StarfundEscrow::new();
    try_init(&mut s, &admin_call(100), b"INV_001", 1_000, 800, 0, None, None, None, None).unwrap();
    assert_eq!(
        try_init(&mut s, &admin_call(100), b"INV_002", 2_000, 800, 0, None, None, None, None),
        Err(err(EscrowError::EscrowAlreadyInitialized))
    );
    assert_eq!(s.get_escrow().unwrap().amount, 1_000);
}

#[test]
fn init_validates_in_order() {
    let c = admin_call(100);
    let mut s = StarfundEscrow::new();
    assert_eq!(
        s.init(&CallContext { timestamp: 100, sequence: 1, signers: vec![] }, ADMIN, b"X", SME, 1, 0, 0, TOKEN, None, TREASURY, None, None, None, None, None, None, None, None, None, None),
        Err(Failure::AuthMissing(ADMIN))
    );
    assert_eq!(try_init(&mut s, &c, b"X", 0, 0, 0, None, None, None, None), Err(err(EscrowError::AmountMustBePositive)));
    assert_eq!(try_init(&mut s, &c, b"X", MAX_INVOICE_AMOUNT + 1, 0, 0, None, None, None, None), Err(err(EscrowError::AmountExceedsMax)));
    assert_eq!(try_init(&mut s, &c, b"X", 1, 10_001, 0, None, None, None, None), Err(err(EscrowError::YieldBpsOutOfRange)));
    assert_eq!(try_init(&mut s, &c, b"X", 1, 0, 0, None, None, None, Some(-1)), Err(err(EscrowError::ProtocolFeeBpsOutOfRange)));
    assert_eq!(
        try_init(&mut s, &c, b"X", 1, 500, 0, Some(vec![YieldTier { min_lock_secs: 1, yield_bps: 400 }]), None, None, None),
        Err(err(EscrowError::TierYieldBelowBase))
    );
    assert_eq!(try_init(&mut s, &c, b"X", 1, 0, 50, None, None, None, None), Err(err(EscrowError::MaturityInPast)));
    assert_eq!(try_init(&mut s, &c, b"X", 10, 0, 0, None, Some(0), None, None), Err(err(EscrowError::MinContributionNotPositive)));
    assert_eq!(try_init(&mut s, &c, b"X", 10, 0, 0, None, Some(11), None, None), Err(err(EscrowError::MinContributionExceedsAmount)));
    assert_eq!(try_init(&mut s, &c, b"X", 10, 0, 0, None, None, Some(100), None), Err(err(EscrowError::FundingDeadlinePassed)));
    assert_eq!(try_init(&mut s, &c, b"X", 10, 0, 500, None, None, Some(500), None), Err(err(EscrowError::FundingDeadlineAtOrAfterMaturity)));
    assert_eq!(try_init(&mut s, &c, b"", 10, 0, 0, None, None, None, None), Err(err(EscrowError::InvoiceIdInvalidLength)));
    assert_eq!(try_init(&mut s, &c, b"bad-id", 10, 0, 0, None, None, None, None), Err(err(EscrowError::InvoiceIdInvalidCharset)));
    assert_eq!(s.get_escrow(), Err(Failure::NotInitialized));
    assert_eq!(s.get_version(), 0);
}

#[test]
fn init_rejects_non_positive_caps() {
    let c = admin_call(100);
    let mut s = StarfundEscrow::new();
    assert_eq!(
        s.init(&c, ADMIN, b"X", SME, 10, 0, 0, TOKEN, None, TREASURY, None, None, None, Some(0), None, None, None, None, None, None),
        Err(err(EscrowError::MaxPerInvestorNotPositive))
    );
    assert_eq!(
        s.init(&c, ADMIN, b"X", SME, 10, 0, 0, TOKEN, None, TREASURY, None, None, Some(0), None, None, None, None, None, None, None),
        Err(err(EscrowError::MaxUniqueInvestorsNotPositive))
    );
}

#[test]
fn status_predicates() {
    assert!(!is_terminal_status(0));
    assert!(!is_terminal_status(1));
    assert!(is_terminal_status(2));
    assert!(is_terminal_status(3));
    assert!(is_terminal_status(4));
    assert!(is_pre_settlement_status(0));
    assert!(is_pre_settlement_status(1));
    assert!(!is_pre_settlement_status(2));
    assert!(is_maturity_reached(5, 0));
    assert!(!is_maturity_reached(4, 5));
    assert!(is_maturity_reached(5, 5));
}

#[test]
fn pause_scope_blocks_its_family() {
    assert!(PauseScope::All.blocks(PauseEntry::Claims));
    assert!(PauseScope::Funding.blocks(PauseEntry::Funding));
    assert!(!PauseScope::Funding.blocks(PauseEntry::Settlement));
    assert!(!PauseScope::Withdrawal.blocks(PauseEntry::Claims));
}

#[test]
fn payout_arithmetic_exact_values() {
    assert_eq!(coupon(1_000, 800), Some(80));
    assert_eq!(coupon(999, 1), Some(0));
    assert_eq!(settle_pool(1_000, 800), Some(1_080));
    assert_eq!(payout(600, 1_000, 800), Ok(648));
    assert_eq!(payout(1, 3, 10_000), Ok(2));
    assert_eq!(payout(0, 1_000, 800), Ok(0));
    assert_eq!(payout(i128::MAX, 1_000, 800), Err(EscrowError::ComputePayoutArithmeticOverflow));
    assert_eq!(fee_split(1_000, 250), Ok((25, 975)));
    assert_eq!(fee_split(999, 10_000), Ok((999, 0)));
    assert_eq!(sat_add(i128::MAX, 1), i128::MAX);
    assert_eq!(sat_sub(i128::MIN, 1), i128::MIN);
    assert_eq!(sat_sub(5, 7), -2);
}

#[test]
fn payouts_add_up_to_at_most_the_pool() {
    let pool = settle_pool(1_000, 333).unwrap();
    let shares = [333i128, 333, 334];
    let total: i128 = shares.iter().map(|c| payout(*c, 1_000, 333).unwrap()).sum();
    assert!(total <= pool);
    assert_eq!(pool, 1_033);
    assert_eq!(total, 1_031);
}

#[test]
fn validation_helpers() {
    assert_eq!(validate_decimal_scale(1_500, 2), Ok(()));
    assert_eq!(validate_decimal_scale(1_550, 3), Err(EscrowError::FundingTokenScaleInvalid));
    assert_eq!(validate_decimal_scale(7, 0), Ok(()));
    assert_eq!(validate_decimal_scale(10, 40), Err(EscrowError::FundingTokenScaleInvalid));
    assert_eq!(validate_maturity_bounds(100, 0, 10), Ok(()));
    assert_eq!(validate_maturity_bounds(100, 111, 10), Err(EscrowError::MaturityExceedsMaxHorizon));
    assert_eq!(validate_maturity_bounds(100, 110, 10), Ok(()));
    assert_eq!(validate_maturity_bounds(u64::MAX - 1, u64::MAX, u64::MAX), Ok(()));
    assert!(validate_invoice_id(b"ABC_123").is_ok());
    assert_eq!(validate_invoice_id(&[b'a'; 33]), Err(EscrowError::InvoiceIdInvalidLength));
    assert_eq!(validate_invoice_id(b"a b"), Err(EscrowError::InvoiceIdInvalidCharset));
}

#[test]
fn tier_table_validation_and_resolution() {
    let good = vec![YieldTier { min_lock_secs: 10, yield_bps: 900 }, YieldTier { min_lock_secs: 20, yield_bps: 900 }];
    assert_eq!(validate_yield_tiers_table(&good, 800), Ok(()));
    assert_eq!(validate_yield_tiers_table(&vec![YieldTier { min_lock_secs: 10, yield_bps: 10_001 }], 0), Err(EscrowError::TierYieldOutOfRange));
    assert_eq!(
        validate_yield_tiers_table(&vec![YieldTier { min_lock_secs: 10, yield_bps: 900 }, YieldTier { min_lock_secs: 10, yield_bps: 950 }], 0),
        Err(EscrowError::TierLockNotIncreasing)
    );
    assert_eq!(
        validate_yield_tiers_table(&vec![YieldTier { min_lock_secs: 10, yield_bps: 900 }, YieldTier { min_lock_secs: 20, yield_bps: 850 }], 0),
        Err(EscrowError::TierYieldNotNonDecreasing)
    );
    assert_eq!(effective_yield_for_commitment(&good, 800, 25), YieldResolution { effective_yield_bps: 900, matched_lock_secs: 10 });
    assert_eq!(effective_yield_for_commitment(&good, 800, 5), YieldResolution { effective_yield_bps: 800, matched_lock_secs: 0 });
}

#[test]
fn pagination_windows() {
    assert_eq!(paginate_window(0, 10, 50, 5), Some((0, 5)));
    assert_eq!(paginate_window(2, 100, 50, 200), Some((2, 52)));
    assert_eq!(paginate_window(5, 1, 50, 5), None);
    assert_eq!(paginate_window(0, 0, 50, 5), None);
    assert_eq!(paginate_window(u32::MAX - 1, 50, 50, u32::MAX), Some((u32::MAX - 1, u32::MAX)));
}

#[test]
fn error_codes_are_stable() {
    assert_eq!(EscrowError::AmountMustBePositive.code(), 1);
    assert_eq!(EscrowError::EscrowAlreadyInitialized.code(), 3);
    assert_eq!(EscrowError::TransferAmountNotPositive.code(), 36);
    assert_eq!(EscrowError::SettlementBatchEmpty.code(), 223);
    assert_eq!(CloseError::ActiveDispute.code(), 4);
    assert_eq!(FeeScheduleError::PendingScheduleExists.code(), 3);
}

#[test]
fn init_refuses_a_store_holding_only_a_version_first() {
    let mut s = StarfundEscrow::new();
    s.version = Some(SCHEMA_VERSION);
    let nobody = CallContext { timestamp: 100, sequence: 1, signers: vec![] };
    // The re-initialization guard comes before the authorization and the amount check.
    assert_eq!(try_init(&mut s, &nobody, b"X", 0, 0, 0, None, None, None, None), Err(err(EscrowError::EscrowAlreadyInitialized)));
    assert!(s.escrow.is_none());
    let mut fresh = StarfundEscrow::new();
    assert_eq!(try_init(&mut fresh, &nobody, b"X", 10, 0, 0, None, None, None, None), Err(Failure::AuthMissing(ADMIN)));
    try_init(&mut fresh, &admin_call(100), b"X", 10, 0, 0, None, None, None, None).unwrap();
    assert_eq!(try_init(&mut fresh, &admin_call(100), b"X", -5, 0, 0, None, None, None, None), Err(err(EscrowError::EscrowAlreadyInitialized)));
}
