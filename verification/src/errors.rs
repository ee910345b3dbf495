use vstd::prelude::*;

verus! {

/// Stable typed errors of the escrow entrypoints. [`EscrowError::code`] gives the numeric code
/// that clients branch on.
#[derive(Clone, Copy, Debug, PartialEq, Eq, Structural)]
pub enum EscrowError {
    /// [`StarfundEscrow::init`] rejected a non-positive invoice amount.
    AmountMustBePositive,
    /// [`StarfundEscrow::init`] rejected `yield_bps` outside `0..=10_000`.
    YieldBpsOutOfRange,
    /// [`StarfundEscrow::init`] called when escrow storage already exists.
    ///
    /// Returned for every second initialization attempt - same parameters, a different
    /// admin, a different token, or a re-entrant initialization during `init` - before
    /// any state mutation or event emission. Existing admin, token metadata, and escrow
    /// state are left unchanged.
    EscrowAlreadyInitialized,
    /// [`StarfundEscrow::init`] rejected an invoice amount too large to keep
    /// `compute_investor_payout` arithmetic overflow-free.
    AmountExceedsMax,
    /// [`StarfundEscrow::init`] rejected an `invoice_id` outside the allowed length range.
    InvoiceIdInvalidLength,
    /// [`StarfundEscrow::init`] rejected an `invoice_id` with disallowed characters.
    InvoiceIdInvalidCharset,
    /// [`StarfundEscrow::init`] configured `min_contribution` but it is not positive.
    MinContributionNotPositive,
    /// [`StarfundEscrow::init`] configured `min_contribution` above the target hint.
    MinContributionExceedsAmount,
    /// [`StarfundEscrow::init`] configured `max_unique_investors` but it is not positive.
    MaxUniqueInvestorsNotPositive,
    /// [`StarfundEscrow::init`] configured `max_per_investor` but it is not positive.
    MaxPerInvestorNotPositive,
    /// [`StarfundEscrow::init`] rejected a tier with `yield_bps` outside `0..=10_000`.
    TierYieldOutOfRange,
    /// [`StarfundEscrow::init`] rejected a tier yield below the base `yield_bps`.
    TierYieldBelowBase,
    /// [`StarfundEscrow::init`] rejected tiers whose `min_lock_secs` are not strictly increasing.
    TierLockNotIncreasing,
    /// [`StarfundEscrow::init`] rejected tiers whose `yield_bps` decrease across tiers.
    TierYieldNotNonDecreasing,
    /// Escrow storage is missing; entrypoint requires prior [`StarfundEscrow::init`].
    EscrowNotInitialized,
    /// [`DataKey::FundingToken`] is unset (escrow not fully initialized).
    FundingTokenNotSet,
    /// [`DataKey::Treasury`] is unset (escrow not fully initialized).
    TreasuryNotSet,
    /// [`StarfundEscrow::sweep_terminal_dust`] blocked while a legal hold is active.
    LegalHoldBlocksTreasuryDustSweep,
    /// [`StarfundEscrow::sweep_terminal_dust`] received a non-positive sweep amount.
    SweepAmountNotPositive,
    /// [`StarfundEscrow::sweep_terminal_dust`] exceeded [`MAX_DUST_SWEEP_AMOUNT`].
    SweepAmountExceedsMax,
    /// [`StarfundEscrow::sweep_terminal_dust`] called before a terminal escrow status.
    DustSweepNotTerminal,
    /// [`StarfundEscrow::sweep_terminal_dust`] found no funding-token balance to sweep.
    NoFundingTokenBalanceToSweep,
    /// [`StarfundEscrow::sweep_terminal_dust`] computed an effective sweep amount of zero.
    EffectiveSweepAmountZero,
    /// Token transfer wrapper received a non-positive amount (see `external_calls`).
    TransferAmountNotPositive,
    /// Token transfer wrapper found insufficient sender balance before transfer.
    InsufficientTokenBalanceBeforeTransfer,
    /// Token transfer wrapper detected sender balance delta underflow.
    SenderBalanceUnderflow,
    /// Token transfer wrapper detected recipient balance delta underflow.
    RecipientBalanceUnderflow,
    /// Token transfer wrapper detected sender spent amount differs from requested transfer.
    SenderBalanceDeltaMismatch,
    /// Token transfer wrapper detected recipient received amount differs from requested transfer.
    RecipientBalanceDeltaMismatch,
    /// Sweep would reduce the contract balance below outstanding investor liabilities.
    /// `balance - sweep_amt` must be `>= funded_amount - distributed_principal`.
    SweepExceedsLiabilityFloor,
    /// [`StarfundEscrow::bind_primary_attestation_hash`] called when a primary hash exists.
    PrimaryAttestationAlreadyBound,
    /// [`StarfundEscrow::append_attestation_digest`] exceeded [`MAX_ATTESTATION_APPEND_ENTRIES`].
    AttestationAppendLogCapacityReached,
    /// [`StarfundEscrow::revoke_attestation_digest`] received an `index >= log.len()`.
    AttestationIndexOutOfRange,
    /// [`StarfundEscrow::revoke_attestation_digest`] called on an already-revoked index.
    AttestationAlreadyRevoked,
    /// [`StarfundEscrow::revoke_attestation_digests`] received an empty indices list.
    AttestationBatchEmpty,
    /// [`StarfundEscrow::revoke_attestation_digests`] exceeded [`MAX_ATTESTATION_REVOKE_BATCH`].
    AttestationBatchTooLarge,
    /// [`StarfundEscrow::unrevoke_attestation_digest`] called on an index that is not revoked.
    AttestationNotRevoked,
    /// [`StarfundEscrow::get_revoked_attestation_digests`] received a zero page limit.
    AttestationReadLimitZero,
    /// [`StarfundEscrow::get_revoked_attestation_digests`] exceeded
    /// [`MAX_ATTESTATION_READ_PAGE`].
    AttestationReadLimitTooLarge,
    /// [`StarfundEscrow::record_sme_collateral_commitment`] received a non-positive amount.
    CollateralAmountNotPositive,
    /// [`StarfundEscrow::record_sme_collateral_commitment`] received an empty asset symbol.
    CollateralAssetEmpty,
    /// [`StarfundEscrow::record_sme_collateral_commitment`] received a timestamp before the stored record.
    CollateralTimestampBackwards,
    /// [`StarfundEscrow::clear_sme_collateral_commitment`] called when no pledge exists.
    NoCollateralToClear,
    /// [`StarfundEscrow::set_investors_allowlisted`] received an empty batch.
    InvestorBatchEmpty,
    /// [`StarfundEscrow::set_investors_allowlisted`] exceeded [`MAX_INVESTOR_ALLOWLIST_BATCH`].
    InvestorBatchTooLarge,
    /// [`StarfundEscrow::fund_batch`] received an empty entries vector.
    FundingBatchEmpty,
    /// [`StarfundEscrow::fund_batch`] exceeded [`MAX_FUND_BATCH`].
    FundingBatchTooLarge,
    /// [`StarfundEscrow::fund_batch`] contains two or more entries with the same investor address.
    ///
    /// Every investor address in the batch must be unique. Duplicate addresses indicate a
    /// malformed batch and the entire call is rejected atomically before any state mutation.
    FundingBatchDuplicateInvestor,
    /// [`StarfundEscrow::get_contributions`] exceeded [`MAX_INVESTOR_READ_BATCH`].
    ContributionReadBatchTooLarge,
    /// [`StarfundEscrow::update_funding_target`] received a non-positive target.
    TargetNotPositive,
    /// [`StarfundEscrow::update_funding_target`] called while escrow is not open.
    TargetUpdateNotOpen,
    /// [`StarfundEscrow::update_funding_target`] set target below already-funded principal.
    TargetBelowFundedAmount,
    /// [`StarfundEscrow::lower_max_unique_investors`] called while escrow is not open.
    CapLowerNotOpen,
    /// [`StarfundEscrow::lower_max_unique_investors`] called with no investor cap configured.
    NoInvestorCapConfigured,
    /// [`StarfundEscrow::lower_max_unique_investors`] did not strictly lower the cap.
    NewCapNotLower,
    /// [`StarfundEscrow::raise_max_unique_investors`] did not strictly raise the cap.
    NewCapNotHigher,
    /// [`StarfundEscrow::lower_max_unique_investors`] set cap below current unique funder count.
    NewCapBelowCurrentFunderCount,
    /// [`StarfundEscrow::update_maturity`] called while escrow is not open.
    MaturityUpdateNotOpen,
    /// [`StarfundEscrow::propose_admin`] nominated the current admin address.
    NewAdminSameAsCurrent,
    /// [`StarfundEscrow::propose_admin`] repeated the already-pending admin address.
    PendingAdminUnchanged,
    /// [`StarfundEscrow::update_maturity`] set maturity to the same value as current.
    MaturityUnchanged,
    /// [`StarfundEscrow::accept_admin`] called after the proposal expiry recorded at
    /// [`DataKey::PendingAdminExpiry`]. Re-propose to nominate a fresh successor.
    AdminProposalExpired,
    /// [`StarfundEscrow::migrate`] `from_version` does not match stored version.
    MigrationVersionMismatch,
    /// [`StarfundEscrow::migrate`] called at or above [`SCHEMA_VERSION`].
    AlreadyCurrentSchemaVersion,
    /// [`StarfundEscrow::migrate`] has no implemented path from the requested version.
    NoMigrationPath,
    /// [`StarfundEscrow::fund`] / [`StarfundEscrow::fund_with_commitment`] received non-positive amount.
    FundingAmountNotPositive,
    /// Funding amount is below configured `min_contribution`.
    FundingBelowMinContribution,
    /// Funding blocked while a legal hold is active.
    LegalHoldBlocksFunding,
    /// Funding attempted while escrow is not in open status.
    EscrowNotOpenForFunding,
    /// Allowlist gate active and investor address is not allowlisted.
    InvestorNotAllowlisted,
    /// Adding funding would overflow the investor's stored contribution.
    InvestorContributionOverflow,
    /// Funding would exceed configured `max_per_investor`.
    InvestorContributionExceedsCap,
    /// A new investor would exceed configured `max_unique_investors`.
    UniqueInvestorCapReached,
    /// [`StarfundEscrow::fund_with_commitment`] called after investor already has principal.
    ///
    /// Tier and lock selection are immutable after the first deposit leg. Once an investor
    /// has a non-zero contribution recorded under [`DataKey::InvestorContribution`], the
    /// yield rate and claim-lock timestamp are permanently fixed; calling
    /// [`StarfundEscrow::fund_with_commitment`] again would allow re-selecting a tier,
    /// violating the fairness guarantee.
    ///
    /// **Client action:** Use [`StarfundEscrow::fund`] for all additional principal from
    /// the same investor. `fund()` reads the stored effective yield set on the first leg
    /// and does not allow tier re-selection.
    ///
    /// **Code:** `108` - stable, append-only.
    TieredSecondDeposit,
    /// Computing investor claim-not-before timestamp would overflow.
    InvestorClaimTimeOverflow,
    /// Adding funding would overflow escrow `funded_amount`.
    FundedAmountOverflow,
    /// Commitment lock would push `now + committed_lock_secs` past the escrow maturity.
    /// Reject at deposit time so a settled escrow cannot hold an investor's payout
    /// claim hostage beyond the point where principal is due.
    CommitmentLockExceedsMaturity,
    /// [`StarfundEscrow::settle`] blocked while a legal hold is active.
    LegalHoldBlocksSettlement,
    /// [`StarfundEscrow::settle`] called before escrow reached funded status.
    SettlementNotFunded,
    /// [`StarfundEscrow::settle`] called before configured maturity timestamp.
    MaturityNotReached,
    /// [`StarfundEscrow::withdraw`] blocked while a legal hold is active.
    LegalHoldBlocksWithdrawal,
    /// [`StarfundEscrow::withdraw`] called before escrow reached funded status.
    WithdrawalNotFunded,
    /// [`StarfundEscrow::claim_investor_payout`] blocked while a legal hold is active.
    LegalHoldBlocksInvestorClaims,
    /// [`StarfundEscrow::claim_investor_payout`] for an address with zero contribution.
    NoContributionToClaim,
    /// [`StarfundEscrow::claim_investor_payout`] before escrow is settled.
    InvestorClaimNotSettled,
    /// [`StarfundEscrow::claim_investor_payout`] before tier commitment lock expires.
    InvestorCommitmentLockNotExpired,
    /// Checked arithmetic overflow in [`StarfundEscrow::compute_investor_payout`].
    ComputePayoutArithmeticOverflow,
    /// [`StarfundEscrow::cancel_funding`] blocked while a legal hold is active.
    LegalHoldBlocksCancelFunding,
    /// [`StarfundEscrow::cancel_funding`] called while escrow is not open.
    CancelFundingNotOpen,
    /// [`StarfundEscrow::refund`] called while escrow is not cancelled.
    RefundNotCancelled,
    /// [`StarfundEscrow::refund`] for an address with zero contribution.
    NoContributionToRefund,
    /// [`StarfundEscrow::refund_batch`] received an empty investors vector.
    RefundBatchEmpty,
    /// [`StarfundEscrow::refund_batch`] exceeded [`MAX_REFUND_BATCH`].
    RefundBatchTooLarge,
    /// `clear_legal_hold` was called without a prior `request_legal_hold_clear`.
    LegalHoldClearRequestMissing,
    /// The two-phase legal-hold clear delay has not elapsed yet.
    LegalHoldClearNotReady,
    /// Computing the legal-hold clear ready-at timestamp would overflow.
    LegalHoldClearDelayOverflow,
    /// Funding deadline has passed, new deposits are rejected.
    FundingDeadlinePassed,
    /// A legal hold blocks rotating the beneficiary (SME) address.
    LegalHoldBlocksBeneficiaryRotation,
    /// Beneficiary rotation was attempted while the escrow was not in a
    /// pre-settlement state (`status` must be 0 = open or 1 = funded).
    RotationNotOpen,
    /// The proposed new SME address is identical to the current beneficiary.
    NewSmeSameAsCurrent,
    /// Attempted to accept admin role when no pending admin exists.
    NoPendingAdmin,
    /// Admin-nonce replay protection: the supplied nonce does not match the current expected nonce.
    /// Returned for stale (old), duplicate (same), or future (out-of-sequence) nonces.
    /// Does not leak which specific mismatch occurred to avoid giving attackers information.
    AdminNonceMismatch,
    /// The contract's funding-token balance is less than `funded_amount` at withdraw time.
    /// Funds must be custodied in this contract before the SME can pull them.
    InsufficientContractBalance,
    /// [`validate_maturity_bounds`] rejected a maturity timestamp in the past.
    MaturityInPast,
    /// [`validate_maturity_bounds`] rejected a maturity timestamp beyond the configured horizon.
    MaturityExceedsMaxHorizon,
    /// [`StarfundEscrow::update_funding_deadline`] called while escrow is not open.
    FundingDeadlineUpdateNotOpen,
    /// [`StarfundEscrow::claim_investor_payout`] computed a zero payout.
    PayoutZero,
    /// Inbound token transfer received a non-positive amount.
    InboundTransferAmountNotPositive,
    /// Inbound token transfer found insufficient sender balance before transfer.
    InboundInsufficientTokenBalanceBeforeTransfer,
    /// Inbound token transfer detected sender balance delta underflow.
    InboundSenderBalanceUnderflow,
    /// Inbound token transfer detected sender spent amount differs from requested transfer.
    InboundSenderBalanceDeltaMismatch,
    /// Inbound token transfer detected recipient balance delta underflow.
    InboundRecipientBalanceUnderflow,
    /// Inbound token transfer detected recipient received amount differs from requested transfer.
    InboundRecipientBalanceDeltaMismatch,
    /// [`StarfundEscrow::fund`] blocked while operational pause is active.
    PausedBlocksFunding,
    /// [`StarfundEscrow::settle`] blocked while operational pause is active.
    PausedBlocksSettlement,
    /// [`StarfundEscrow::withdraw`] blocked while operational pause is active.
    PausedBlocksWithdrawal,
    /// [`StarfundEscrow::claim_investor_payout`] blocked while operational pause is active.
    PausedBlocksInvestorClaims,
    /// [`StarfundEscrow::init`] rejected `protocol_fee_bps` outside `0..=10_000`.
    ProtocolFeeBpsOutOfRange,
    /// Arithmetic overflow computing protocol fee at [`StarfundEscrow::withdraw`].
    WithdrawFeeArithmeticOverflow,
    /// Arithmetic underflow computing net SME payout at [`StarfundEscrow::withdraw`].
    WithdrawNetArithmeticUnderflow,
    /// [`StarfundEscrow::init`] rejected a `funding_deadline` at or after maturity.
    FundingDeadlineAtOrAfterMaturity,
    /// [`StarfundEscrow::settle_batch`] received an empty escrow addresses vector.
    SettlementBatchEmpty,
    /// [`StarfundEscrow::settle_batch`] exceeded [`MAX_SETTLE_BATCH`].
    SettlementBatchTooLarge,
    /// [`StarfundEscrow::unfund`] called when [`InvoiceEscrow::status`] is not 0 (open).
    /// Unfunding is only valid while the escrow is still accepting contributions.
    UnfundEscrowNotOpen,
    /// [`StarfundEscrow::unfund`] requested amount exceeds the investor's recorded contribution.
    /// Never withdraw more than was contributed; checked via [`i128::checked_sub`].
    OverWithdrawal,
    /// [`StarfundEscrow::unfund`] blocked because a compliance/legal hold is active.
    /// No fund movement is permitted until the hold is cleared by the admin.
    UnfundLegalHoldActive,
    /// [`StarfundEscrow::set_pause_max_duration`] received a nonzero value outside
    /// [`MIN_PAUSE_MAX_DURATION_SECS`, `MAX_PAUSE_MAX_DURATION_SECS`].
    PauseMaxDurationOutOfRange,
    /// [`StarfundEscrow::set_pause_rate_limit`] received a nonzero `max_toggles` outside
    /// [`MIN_PAUSE_TOGGLE_LIMIT`, `MAX_PAUSE_TOGGLE_LIMIT`].
    PauseToggleLimitOutOfRange,
    /// [`StarfundEscrow::set_pause_rate_limit`] received a `window_secs` outside
    /// [`MIN_PAUSE_TOGGLE_WINDOW_SECS`, `MAX_PAUSE_TOGGLE_WINDOW_SECS`] while `max_toggles > 0`.
    PauseToggleWindowOutOfRange,
    /// [`StarfundEscrow::set_pause_rate_limit`] received `max_toggles == 0` paired with a
    /// nonzero `window_secs`, or vice versa. Both must be zero together (disabled) or both
    /// nonzero (enabled).
    PauseRateLimitInvalidCombination,
    /// [`StarfundEscrow::set_paused`] blocked because the configured pause-toggle rate limit
    /// was already reached within the current window. Wait for the window to roll over or ask
    /// the admin to raise the limit via [`StarfundEscrow::set_pause_rate_limit`].
    PauseToggleRateLimitExceeded,
    /// [`StarfundEscrow::update_yield_bps`] called while escrow is not in open status (`status != 0`).
    /// Base yield may only be updated before any investor has committed principal.
    YieldBpsUpdateNotOpen,
    /// [`StarfundEscrow::update_yield_bps`] received a `new_yield_bps` equal to the current value.
    /// No-op updates are rejected to prevent spurious events and unnecessary storage writes.
    YieldBpsUnchanged,
    /// [`StarfundEscrow::set_storage_limit`] received a non-positive limit.
    StorageLimitNotPositive,
    /// [`StarfundEscrow::set_storage_limit`] received a limit outside allowed range.
    StorageLimitOutOfRange,
    /// [`StarfundEscrow::bump_ttl_batch`] received an empty escrow addresses vector.
    BumpTtlBatchEmpty,
    /// [`StarfundEscrow::bump_ttl_batch`] exceeded [`MAX_BUMP_TTL_BATCH`].
    BumpTtlBatchTooLarge,
    /// A second [`StarfundEscrow::settle`] (or [`StarfundEscrow::settle_batch`] entry)
    /// was attempted on an escrow that already reached **settled** status (`status == 2`).
    ///
    /// Settlement is strictly once-only: the settled marker is committed before any outward
    /// effect, so a re-entrant or replayed call is rejected here with a dedicated, stable
    /// typed code rather than a misleading `SettlementNotFunded`.
    EscrowAlreadySettled,
    /// A dispute is active and blocks value release from the escrow.
    DisputeBlocksWithdrawal,
    /// Settlement is blocked while a dispute remains active.
    DisputeBlocksSettlement,
    /// Investor claims are blocked while a dispute remains active.
    DisputeBlocksInvestorClaims,
    /// Partial-settlement is blocked while a dispute remains active.
    DisputeBlocksPartialSettle,
    /// Refund processing is blocked while a dispute remains active.
    DisputeBlocksRefund,
    /// Unfunding is blocked while a dispute remains active.
    DisputeBlocksUnfund,
    /// Terminal dust sweep is blocked while a dispute remains active.
    DisputeBlocksSweep,
    /// The caller is not authorized to open or close a dispute for this escrow.
    DisputeOpenUnauthorized,
    /// The caller is not authorized to close the active dispute.
    DisputeCloseUnauthorized,
    /// A dispute has already been opened and is still active.
    DisputeAlreadyOpen,
    /// No dispute is active for this escrow.
    DisputeNotOpen,
    /// [`StarfundEscrow::execute_callback`] called from an origin address different from the registered origin context.
    CallbackWrongOrigin,
    /// [`StarfundEscrow::execute_callback`] called with an invocation nonce that does not match the stored context.
    CallbackWrongNonce,
    /// [`StarfundEscrow::execute_callback`] called with a lifecycle phase different from the expected phase.
    CallbackWrongPhase,
    /// [`StarfundEscrow::execute_callback`] called with a callback context that has already been consumed (replay attempt).
    CallbackReplayed,
    /// [`StarfundEscrow::execute_callback`] or [`StarfundEscrow::register_callback`] called after the escrow has been cancelled.
    CallbackAfterCancellation,
    /// [`StarfundEscrow::execute_callback`] called with a nonce that has no registered callback context.
    CallbackNotFound,
    /// [`StarfundEscrow::rebind_registry`] called when escrow status is no longer open
    /// (status != 0). The registry hint becomes immutable once funding/settlement begins.
    RegistryImmutableAfterFunding,
    /// [`StarfundEscrow::rotate_beneficiary`] called when escrow status is no longer
    /// pre-settlement (status must be 0 = open or 1 = funded). Beneficiary is immutable after
    /// funding closes.
    BeneficiaryImmutableAfterFunding,
    /// [`StarfundEscrow::execute_admin_recovery`] called before the pending admin proposal
    /// timelock (`DataKey::PendingAdminExpiry`) has elapsed. Recovery is only available
    /// after the abandoned-transfer expiry window passes.
    AdminRecoveryNotExpired,
    /// [`StarfundEscrow::fund_impl`] rejected a new distinct investor because the
    /// unconditional ceiling [`MAX_UNIQUE_INVESTORS`] would be exceeded.
    /// This bounds the worst-case release instruction budget that scales with participant
    /// count when `max_unique_investors` was not configured at init.
    UniqueInvestorHardCapReached,
    /// A funding amount is not representable at the configured token decimal scale.
    FundingTokenScaleInvalid,
    /// A legal hold blocks rotating the payer address.
    LegalHoldBlocksPayerRotation,
    /// Payer rotation attempted outside the open or funded states.
    PayerRotationNotOpen,
    /// The proposed payer equals the current payer.
    NewPayerSameAsCurrent,
    /// [`StarfundEscrow::batch_record_collateral`] received an empty batch.
    CollateralBatchEmpty,
    /// [`StarfundEscrow::batch_record_collateral`] exceeded the collateral batch bound.
    CollateralBatchTooLarge,
    /// An unpause named a scope different from the active pause scope.
    PauseScopeMismatch,
    /// [`StarfundEscrow::partial_settle`] blocked while a legal hold is active.
    LegalHoldBlocksPartialSettle,
    /// [`StarfundEscrow::partial_settle`] caller is neither the SME nor the admin.
    PartialSettleUnauthorizedCaller,
    /// [`StarfundEscrow::partial_settle`] called while the escrow is not open.
    PartialSettleNotOpen,
    /// [`StarfundEscrow::release`] received a non-positive amount.
    ReleaseAmountNotPositive,
    /// [`StarfundEscrow::release`] blocked while an operational pause is active.
    PausedBlocksRelease,
    /// [`StarfundEscrow::release`] blocked while a legal hold is active.
    LegalHoldBlocksRelease,
    /// [`StarfundEscrow::release`] called while the escrow is not funded.
    ReleaseNotFunded,
    /// [`StarfundEscrow::release`] amount exceeds the remaining obligation.
    ReleaseExceedsRemaining,
    /// [`StarfundEscrow::lower_min_contribution_floor`] called while the escrow is not open.
    FloorLowerNotOpen,
    /// [`StarfundEscrow::lower_min_contribution_floor`] received a non-positive floor.
    NewFloorNotPositive,
    /// [`StarfundEscrow::lower_min_contribution_floor`] did not strictly lower the floor.
    NewFloorNotLower,
    /// [`StarfundEscrow::raise_max_per_investor`] called with no per-investor cap configured.
    MaxPerInvestorCapNotConfigured,
    /// [`StarfundEscrow::raise_max_per_investor`] did not strictly raise the cap.
    MaxPerInvestorCapNotRaised,
    /// [`StarfundEscrow::extend_funding_deadline`] found no deadline or did not strictly extend it.
    FundingDeadlineNotExtended,
    /// [`StarfundEscrow::raise_maturity_max_horizon`] did not strictly raise the horizon.
    HorizonNotRaised,
}

impl EscrowError {
    /// The stable numeric code of this error.
    pub open spec fn spec_code(&self) -> u32 {
        match self {
            EscrowError::AmountMustBePositive => 1,
            EscrowError::YieldBpsOutOfRange => 2,
            EscrowError::EscrowAlreadyInitialized => 3,
            EscrowError::AmountExceedsMax => 14,
            EscrowError::InvoiceIdInvalidLength => 4,
            EscrowError::InvoiceIdInvalidCharset => 5,
            EscrowError::MinContributionNotPositive => 6,
            EscrowError::MinContributionExceedsAmount => 7,
            EscrowError::MaxUniqueInvestorsNotPositive => 8,
            EscrowError::MaxPerInvestorNotPositive => 9,
            EscrowError::TierYieldOutOfRange => 10,
            EscrowError::TierYieldBelowBase => 11,
            EscrowError::TierLockNotIncreasing => 12,
            EscrowError::TierYieldNotNonDecreasing => 13,
            EscrowError::EscrowNotInitialized => 20,
            EscrowError::FundingTokenNotSet => 21,
            EscrowError::TreasuryNotSet => 22,
            EscrowError::LegalHoldBlocksTreasuryDustSweep => 30,
            EscrowError::SweepAmountNotPositive => 31,
            EscrowError::SweepAmountExceedsMax => 32,
            EscrowError::DustSweepNotTerminal => 33,
            EscrowError::NoFundingTokenBalanceToSweep => 34,
            EscrowError::EffectiveSweepAmountZero => 35,
            EscrowError::TransferAmountNotPositive => 36,
            EscrowError::InsufficientTokenBalanceBeforeTransfer => 37,
            EscrowError::SenderBalanceUnderflow => 38,
            EscrowError::RecipientBalanceUnderflow => 39,
            EscrowError::SenderBalanceDeltaMismatch => 40,
            EscrowError::RecipientBalanceDeltaMismatch => 41,
            EscrowError::SweepExceedsLiabilityFloor => 42,
            EscrowError::PrimaryAttestationAlreadyBound => 50,
            EscrowError::AttestationAppendLogCapacityReached => 51,
            EscrowError::AttestationIndexOutOfRange => 52,
            EscrowError::AttestationAlreadyRevoked => 53,
            EscrowError::AttestationBatchEmpty => 54,
            EscrowError::AttestationBatchTooLarge => 55,
            EscrowError::AttestationNotRevoked => 56,
            EscrowError::AttestationReadLimitZero => 57,
            EscrowError::AttestationReadLimitTooLarge => 58,
            EscrowError::CollateralAmountNotPositive => 60,
            EscrowError::CollateralAssetEmpty => 61,
            EscrowError::CollateralTimestampBackwards => 62,
            EscrowError::NoCollateralToClear => 63,
            EscrowError::InvestorBatchEmpty => 70,
            EscrowError::InvestorBatchTooLarge => 71,
            EscrowError::FundingBatchEmpty => 82,
            EscrowError::FundingBatchTooLarge => 83,
            EscrowError::FundingBatchDuplicateInvestor => 84,
            EscrowError::ContributionReadBatchTooLarge => 203,
            EscrowError::TargetNotPositive => 72,
            EscrowError::TargetUpdateNotOpen => 73,
            EscrowError::TargetBelowFundedAmount => 74,
            EscrowError::CapLowerNotOpen => 75,
            EscrowError::NoInvestorCapConfigured => 76,
            EscrowError::NewCapNotLower => 77,
            EscrowError::NewCapNotHigher => 176,
            EscrowError::NewCapBelowCurrentFunderCount => 78,
            EscrowError::MaturityUpdateNotOpen => 79,
            EscrowError::NewAdminSameAsCurrent => 80,
            EscrowError::PendingAdminUnchanged => 177,
            EscrowError::MaturityUnchanged => 81,
            EscrowError::AdminProposalExpired => 85,
            EscrowError::MigrationVersionMismatch => 90,
            EscrowError::AlreadyCurrentSchemaVersion => 91,
            EscrowError::NoMigrationPath => 92,
            EscrowError::FundingAmountNotPositive => 100,
            EscrowError::FundingBelowMinContribution => 101,
            EscrowError::LegalHoldBlocksFunding => 102,
            EscrowError::EscrowNotOpenForFunding => 103,
            EscrowError::InvestorNotAllowlisted => 104,
            EscrowError::InvestorContributionOverflow => 105,
            EscrowError::InvestorContributionExceedsCap => 106,
            EscrowError::UniqueInvestorCapReached => 107,
            EscrowError::TieredSecondDeposit => 108,
            EscrowError::InvestorClaimTimeOverflow => 109,
            EscrowError::FundedAmountOverflow => 110,
            EscrowError::CommitmentLockExceedsMaturity => 111,
            EscrowError::LegalHoldBlocksSettlement => 120,
            EscrowError::SettlementNotFunded => 121,
            EscrowError::MaturityNotReached => 122,
            EscrowError::LegalHoldBlocksWithdrawal => 123,
            EscrowError::WithdrawalNotFunded => 124,
            EscrowError::LegalHoldBlocksInvestorClaims => 125,
            EscrowError::NoContributionToClaim => 126,
            EscrowError::InvestorClaimNotSettled => 127,
            EscrowError::InvestorCommitmentLockNotExpired => 128,
            EscrowError::ComputePayoutArithmeticOverflow => 129,
            EscrowError::LegalHoldBlocksCancelFunding => 140,
            EscrowError::CancelFundingNotOpen => 141,
            EscrowError::RefundNotCancelled => 142,
            EscrowError::NoContributionToRefund => 143,
            EscrowError::RefundBatchEmpty => 144,
            EscrowError::RefundBatchTooLarge => 145,
            EscrowError::LegalHoldClearRequestMissing => 150,
            EscrowError::LegalHoldClearNotReady => 151,
            EscrowError::LegalHoldClearDelayOverflow => 152,
            EscrowError::FundingDeadlinePassed => 164,
            EscrowError::LegalHoldBlocksBeneficiaryRotation => 160,
            EscrowError::RotationNotOpen => 161,
            EscrowError::NewSmeSameAsCurrent => 162,
            EscrowError::NoPendingAdmin => 81,
            EscrowError::AdminNonceMismatch => 85,
            EscrowError::InsufficientContractBalance => 165,
            EscrowError::MaturityInPast => 166,
            EscrowError::MaturityExceedsMaxHorizon => 167,
            EscrowError::FundingDeadlineUpdateNotOpen => 169,
            EscrowError::PayoutZero => 170,
            EscrowError::InboundTransferAmountNotPositive => 171,
            EscrowError::InboundInsufficientTokenBalanceBeforeTransfer => 172,
            EscrowError::InboundSenderBalanceUnderflow => 173,
            EscrowError::InboundSenderBalanceDeltaMismatch => 174,
            EscrowError::InboundRecipientBalanceUnderflow => 175,
            EscrowError::InboundRecipientBalanceDeltaMismatch => 176,
            EscrowError::PausedBlocksFunding => 210,
            EscrowError::PausedBlocksSettlement => 211,
            EscrowError::PausedBlocksWithdrawal => 212,
            EscrowError::PausedBlocksInvestorClaims => 213,
            EscrowError::ProtocolFeeBpsOutOfRange => 215,
            EscrowError::WithdrawFeeArithmeticOverflow => 216,
            EscrowError::WithdrawNetArithmeticUnderflow => 217,
            EscrowError::FundingDeadlineAtOrAfterMaturity => 218,
            EscrowError::SettlementBatchEmpty => 223,
            EscrowError::SettlementBatchTooLarge => 224,
            EscrowError::UnfundEscrowNotOpen => 220,
            EscrowError::OverWithdrawal => 221,
            EscrowError::UnfundLegalHoldActive => 222,
            EscrowError::PauseMaxDurationOutOfRange => 223,
            EscrowError::PauseToggleLimitOutOfRange => 224,
            EscrowError::PauseToggleWindowOutOfRange => 225,
            EscrowError::PauseRateLimitInvalidCombination => 226,
            EscrowError::PauseToggleRateLimitExceeded => 227,
            EscrowError::YieldBpsUpdateNotOpen => 228,
            EscrowError::YieldBpsUnchanged => 229,
            EscrowError::StorageLimitNotPositive => 232,
            EscrowError::StorageLimitOutOfRange => 233,
            EscrowError::BumpTtlBatchEmpty => 234,
            EscrowError::BumpTtlBatchTooLarge => 235,
            EscrowError::EscrowAlreadySettled => 236,
            EscrowError::DisputeBlocksWithdrawal => 237,
            EscrowError::DisputeBlocksSettlement => 238,
            EscrowError::DisputeBlocksInvestorClaims => 239,
            EscrowError::DisputeBlocksPartialSettle => 240,
            EscrowError::DisputeBlocksRefund => 241,
            EscrowError::DisputeBlocksUnfund => 242,
            EscrowError::DisputeBlocksSweep => 243,
            EscrowError::DisputeOpenUnauthorized => 244,
            EscrowError::DisputeCloseUnauthorized => 245,
            EscrowError::DisputeAlreadyOpen => 246,
            EscrowError::DisputeNotOpen => 247,
            EscrowError::CallbackWrongOrigin => 240,
            EscrowError::CallbackWrongNonce => 241,
            EscrowError::CallbackWrongPhase => 242,
            EscrowError::CallbackReplayed => 243,
            EscrowError::CallbackAfterCancellation => 244,
            EscrowError::CallbackNotFound => 245,
            EscrowError::RegistryImmutableAfterFunding => 246,
            EscrowError::BeneficiaryImmutableAfterFunding => 247,
            EscrowError::AdminRecoveryNotExpired => 248,
            EscrowError::UniqueInvestorHardCapReached => 249,
            EscrowError::FundingTokenScaleInvalid => 250,
            EscrowError::LegalHoldBlocksPayerRotation => 252,
            EscrowError::PayerRotationNotOpen => 253,
            EscrowError::NewPayerSameAsCurrent => 254,
            EscrowError::CollateralBatchEmpty => 255,
            EscrowError::CollateralBatchTooLarge => 256,
            EscrowError::PauseScopeMismatch => 246,
            EscrowError::LegalHoldBlocksPartialSettle => 257,
            EscrowError::PartialSettleUnauthorizedCaller => 258,
            EscrowError::PartialSettleNotOpen => 259,
            EscrowError::ReleaseAmountNotPositive => 260,
            EscrowError::PausedBlocksRelease => 261,
            EscrowError::LegalHoldBlocksRelease => 262,
            EscrowError::ReleaseNotFunded => 263,
            EscrowError::ReleaseExceedsRemaining => 264,
            EscrowError::FloorLowerNotOpen => 265,
            EscrowError::NewFloorNotPositive => 266,
            EscrowError::NewFloorNotLower => 267,
            EscrowError::MaxPerInvestorCapNotConfigured => 268,
            EscrowError::MaxPerInvestorCapNotRaised => 269,
            EscrowError::FundingDeadlineNotExtended => 270,
            EscrowError::HorizonNotRaised => 271,
        }
    }

    #[verifier::when_used_as_spec(spec_code)]
    pub fn code(&self) -> (c: u32)
        ensures
            c == self.spec_code(),
    {
        match self {
            EscrowError::AmountMustBePositive => 1,
            EscrowError::YieldBpsOutOfRange => 2,
            EscrowError::EscrowAlreadyInitialized => 3,
            EscrowError::AmountExceedsMax => 14,
            EscrowError::InvoiceIdInvalidLength => 4,
            EscrowError::InvoiceIdInvalidCharset => 5,
            EscrowError::MinContributionNotPositive => 6,
            EscrowError::MinContributionExceedsAmount => 7,
            EscrowError::MaxUniqueInvestorsNotPositive => 8,
            EscrowError::MaxPerInvestorNotPositive => 9,
            EscrowError::TierYieldOutOfRange => 10,
            EscrowError::TierYieldBelowBase => 11,
            EscrowError::TierLockNotIncreasing => 12,
            EscrowError::TierYieldNotNonDecreasing => 13,
            EscrowError::EscrowNotInitialized => 20,
            EscrowError::FundingTokenNotSet => 21,
            EscrowError::TreasuryNotSet => 22,
            EscrowError::LegalHoldBlocksTreasuryDustSweep => 30,
            EscrowError::SweepAmountNotPositive => 31,
            EscrowError::SweepAmountExceedsMax => 32,
            EscrowError::DustSweepNotTerminal => 33,
            EscrowError::NoFundingTokenBalanceToSweep => 34,
            EscrowError::EffectiveSweepAmountZero => 35,
            EscrowError::TransferAmountNotPositive => 36,
            EscrowError::InsufficientTokenBalanceBeforeTransfer => 37,
            EscrowError::SenderBalanceUnderflow => 38,
            EscrowError::RecipientBalanceUnderflow => 39,
            EscrowError::SenderBalanceDeltaMismatch => 40,
            EscrowError::RecipientBalanceDeltaMismatch => 41,
            EscrowError::SweepExceedsLiabilityFloor => 42,
            EscrowError::PrimaryAttestationAlreadyBound => 50,
            EscrowError::AttestationAppendLogCapacityReached => 51,
            EscrowError::AttestationIndexOutOfRange => 52,
            EscrowError::AttestationAlreadyRevoked => 53,
            EscrowError::AttestationBatchEmpty => 54,
            EscrowError::AttestationBatchTooLarge => 55,
            EscrowError::AttestationNotRevoked => 56,
            EscrowError::AttestationReadLimitZero => 57,
            EscrowError::AttestationReadLimitTooLarge => 58,
            EscrowError::CollateralAmountNotPositive => 60,
            EscrowError::CollateralAssetEmpty => 61,
            EscrowError::CollateralTimestampBackwards => 62,
            EscrowError::NoCollateralToClear => 63,
            EscrowError::InvestorBatchEmpty => 70,
            EscrowError::InvestorBatchTooLarge => 71,
            EscrowError::FundingBatchEmpty => 82,
            EscrowError::FundingBatchTooLarge => 83,
            EscrowError::FundingBatchDuplicateInvestor => 84,
            EscrowError::ContributionReadBatchTooLarge => 203,
            EscrowError::TargetNotPositive => 72,
            EscrowError::TargetUpdateNotOpen => 73,
            EscrowError::TargetBelowFundedAmount => 74,
            EscrowError::CapLowerNotOpen => 75,
            EscrowError::NoInvestorCapConfigured => 76,
            EscrowError::NewCapNotLower => 77,
            EscrowError::NewCapNotHigher => 176,
            EscrowError::NewCapBelowCurrentFunderCount => 78,
            EscrowError::MaturityUpdateNotOpen => 79,
            EscrowError::NewAdminSameAsCurrent => 80,
            EscrowError::PendingAdminUnchanged => 177,
            EscrowError::MaturityUnchanged => 81,
            EscrowError::AdminProposalExpired => 85,
            EscrowError::MigrationVersionMismatch => 90,
            EscrowError::AlreadyCurrentSchemaVersion => 91,
            EscrowError::NoMigrationPath => 92,
            EscrowError::FundingAmountNotPositive => 100,
            EscrowError::FundingBelowMinContribution => 101,
            EscrowError::LegalHoldBlocksFunding => 102,
            EscrowError::EscrowNotOpenForFunding => 103,
            EscrowError::InvestorNotAllowlisted => 104,
            EscrowError::InvestorContributionOverflow => 105,
            EscrowError::InvestorContributionExceedsCap => 106,
            EscrowError::UniqueInvestorCapReached => 107,
            EscrowError::TieredSecondDeposit => 108,
            EscrowError::InvestorClaimTimeOverflow => 109,
            EscrowError::FundedAmountOverflow => 110,
            EscrowError::CommitmentLockExceedsMaturity => 111,
            EscrowError::LegalHoldBlocksSettlement => 120,
            EscrowError::SettlementNotFunded => 121,
            EscrowError::MaturityNotReached => 122,
            EscrowError::LegalHoldBlocksWithdrawal => 123,
            EscrowError::WithdrawalNotFunded => 124,
            EscrowError::LegalHoldBlocksInvestorClaims => 125,
            EscrowError::NoContributionToClaim => 126,
            EscrowError::InvestorClaimNotSettled => 127,
            EscrowError::InvestorCommitmentLockNotExpired => 128,
            EscrowError::ComputePayoutArithmeticOverflow => 129,
            EscrowError::LegalHoldBlocksCancelFunding => 140,
            EscrowError::CancelFundingNotOpen => 141,
            EscrowError::RefundNotCancelled => 142,
            EscrowError::NoContributionToRefund => 143,
            EscrowError::RefundBatchEmpty => 144,
            EscrowError::RefundBatchTooLarge => 145,
            EscrowError::LegalHoldClearRequestMissing => 150,
            EscrowError::LegalHoldClearNotReady => 151,
            EscrowError::LegalHoldClearDelayOverflow => 152,
            EscrowError::FundingDeadlinePassed => 164,
            EscrowError::LegalHoldBlocksBeneficiaryRotation => 160,
            EscrowError::RotationNotOpen => 161,
            EscrowError::NewSmeSameAsCurrent => 162,
            EscrowError::NoPendingAdmin => 81,
            EscrowError::AdminNonceMismatch => 85,
            EscrowError::InsufficientContractBalance => 165,
            EscrowError::MaturityInPast => 166,
            EscrowError::MaturityExceedsMaxHorizon => 167,
            EscrowError::FundingDeadlineUpdateNotOpen => 169,
            EscrowError::PayoutZero => 170,
            EscrowError::InboundTransferAmountNotPositive => 171,
            EscrowError::InboundInsufficientTokenBalanceBeforeTransfer => 172,
            EscrowError::InboundSenderBalanceUnderflow => 173,
            EscrowError::InboundSenderBalanceDeltaMismatch => 174,
            EscrowError::InboundRecipientBalanceUnderflow => 175,
            EscrowError::InboundRecipientBalanceDeltaMismatch => 176,
            EscrowError::PausedBlocksFunding => 210,
            EscrowError::PausedBlocksSettlement => 211,
            EscrowError::PausedBlocksWithdrawal => 212,
            EscrowError::PausedBlocksInvestorClaims => 213,
            EscrowError::ProtocolFeeBpsOutOfRange => 215,
            EscrowError::WithdrawFeeArithmeticOverflow => 216,
            EscrowError::WithdrawNetArithmeticUnderflow => 217,
            EscrowError::FundingDeadlineAtOrAfterMaturity => 218,
            EscrowError::SettlementBatchEmpty => 223,
            EscrowError::SettlementBatchTooLarge => 224,
            EscrowError::UnfundEscrowNotOpen => 220,
            EscrowError::OverWithdrawal => 221,
            EscrowError::UnfundLegalHoldActive => 222,
            EscrowError::PauseMaxDurationOutOfRange => 223,
            EscrowError::PauseToggleLimitOutOfRange => 224,
            EscrowError::PauseToggleWindowOutOfRange => 225,
            EscrowError::PauseRateLimitInvalidCombination => 226,
            EscrowError::PauseToggleRateLimitExceeded => 227,
            EscrowError::YieldBpsUpdateNotOpen => 228,
            EscrowError::YieldBpsUnchanged => 229,
            EscrowError::StorageLimitNotPositive => 232,
            EscrowError::StorageLimitOutOfRange => 233,
            EscrowError::BumpTtlBatchEmpty => 234,
            EscrowError::BumpTtlBatchTooLarge => 235,
            EscrowError::EscrowAlreadySettled => 236,
            EscrowError::DisputeBlocksWithdrawal => 237,
            EscrowError::DisputeBlocksSettlement => 238,
            EscrowError::DisputeBlocksInvestorClaims => 239,
            EscrowError::DisputeBlocksPartialSettle => 240,
            EscrowError::DisputeBlocksRefund => 241,
            EscrowError::DisputeBlocksUnfund => 242,
            EscrowError::DisputeBlocksSweep => 243,
            EscrowError::DisputeOpenUnauthorized => 244,
            EscrowError::DisputeCloseUnauthorized => 245,
            EscrowError::DisputeAlreadyOpen => 246,
            EscrowError::DisputeNotOpen => 247,
            EscrowError::CallbackWrongOrigin => 240,
            EscrowError::CallbackWrongNonce => 241,
            EscrowError::CallbackWrongPhase => 242,
            EscrowError::CallbackReplayed => 243,
            EscrowError::CallbackAfterCancellation => 244,
            EscrowError::CallbackNotFound => 245,
            EscrowError::RegistryImmutableAfterFunding => 246,
            EscrowError::BeneficiaryImmutableAfterFunding => 247,
            EscrowError::AdminRecoveryNotExpired => 248,
            EscrowError::UniqueInvestorHardCapReached => 249,
            EscrowError::FundingTokenScaleInvalid => 250,
            EscrowError::LegalHoldBlocksPayerRotation => 252,
            EscrowError::PayerRotationNotOpen => 253,
            EscrowError::NewPayerSameAsCurrent => 254,
            EscrowError::CollateralBatchEmpty => 255,
            EscrowError::CollateralBatchTooLarge => 256,
            EscrowError::PauseScopeMismatch => 246,
            EscrowError::LegalHoldBlocksPartialSettle => 257,
            EscrowError::PartialSettleUnauthorizedCaller => 258,
            EscrowError::PartialSettleNotOpen => 259,
            EscrowError::ReleaseAmountNotPositive => 260,
            EscrowError::PausedBlocksRelease => 261,
            EscrowError::LegalHoldBlocksRelease => 262,
            EscrowError::ReleaseNotFunded => 263,
            EscrowError::ReleaseExceedsRemaining => 264,
            EscrowError::FloorLowerNotOpen => 265,
            EscrowError::NewFloorNotPositive => 266,
            EscrowError::NewFloorNotLower => 267,
            EscrowError::MaxPerInvestorCapNotConfigured => 268,
            EscrowError::MaxPerInvestorCapNotRaised => 269,
            EscrowError::FundingDeadlineNotExtended => 270,
            EscrowError::HorizonNotRaised => 271,
        }
    }
}

/// Errors of escrow close finalization.
#[derive(Clone, Copy, Debug, PartialEq, Eq, Structural)]
pub enum CloseError {
    /// The caller is not the configured admin.
    NotAuthorized,
    /// The escrow was not initialized.
    NotInitialized,
    /// The escrow has already been closed.
    AlreadyClosed,
    /// The escrow still holds a token balance.
    ActiveBalance,
    /// The escrow has an active dispute.
    ActiveDispute,
}

impl CloseError {
    /// The stable numeric code of this error.
    pub fn code(&self) -> (c: u32)
        ensures
            c == match self {
                CloseError::NotAuthorized => 0u32,
                CloseError::NotInitialized => 1,
                CloseError::AlreadyClosed => 2,
                CloseError::ActiveBalance => 3,
                CloseError::ActiveDispute => 4,
            },
    {
        match self {
            CloseError::NotAuthorized => 0,
            CloseError::NotInitialized => 1,
            CloseError::AlreadyClosed => 2,
            CloseError::ActiveBalance => 3,
            CloseError::ActiveDispute => 4,
        }
    }
}

/// Errors of the bounded fee-schedule lifecycle.
#[derive(Clone, Copy, Debug, PartialEq, Eq, Structural)]
pub enum FeeScheduleError {
    FeeOutOfBounds,
    InvalidActivationLedger,
    PendingScheduleExists,
    NotInitialized,
}

impl FeeScheduleError {
    /// The stable numeric code of this error.
    pub fn code(&self) -> (c: u32)
        ensures
            c == match self {
                FeeScheduleError::FeeOutOfBounds => 1u32,
                FeeScheduleError::InvalidActivationLedger => 2,
                FeeScheduleError::PendingScheduleExists => 3,
                FeeScheduleError::NotInitialized => 4,
            },
    {
        match self {
            FeeScheduleError::FeeOutOfBounds => 1,
            FeeScheduleError::InvalidActivationLedger => 2,
            FeeScheduleError::PendingScheduleExists => 3,
            FeeScheduleError::NotInitialized => 4,
        }
    }
}

/// Why an entrypoint invocation was rejected. A rejected invocation leaves storage unchanged.
#[derive(Clone, Copy, Debug, PartialEq, Eq, Structural)]
pub enum Failure {
    /// A typed escrow error.
    Escrow(EscrowError),
    /// A typed close-finalization error.
    Close(CloseError),
    /// A typed fee-schedule error.
    FeeSchedule(FeeScheduleError),
    /// The address's authorization was required but did not accompany the invocation.
    AuthMissing(crate::types::Addr),
    /// An untyped abort: the escrow snapshot was read before initialization.
    NotInitialized,
}

} // verus!
