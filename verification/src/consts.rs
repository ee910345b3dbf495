use vstd::prelude::*;

verus! {

/// Upper bound on [`crate::state::StarfundEscrow::set_investors_allowlisted`] batch size per call.
pub const MAX_INVESTOR_ALLOWLIST_BATCH: u32 = 32;
/// Current storage schema version written by `init`.
pub const SCHEMA_VERSION: u32 = 6;
/// Version of the lifecycle event topics.
pub const EVENT_SCHEMA_VERSION: u32 = 1;
/// Upper bound on attestation append-log entries.
pub const MAX_ATTESTATION_APPEND_ENTRIES: u32 = 32;
/// Maximum number of indices revoked in one batch call.
pub const MAX_ATTESTATION_REVOKE_BATCH: u32 = 32;
/// Upper bound on `bump_ttl` entries per call.
pub const MAX_BUMP_TTL_BATCH: u32 = 32;
/// Default maximum maturity horizon in seconds (about five years).
pub const DEFAULT_MATURITY_MAX_HORIZON_SECS: u64 = 157_680_000;
/// Maximum invoice `amount` accepted by `init` (`i128::MAX / 10_000`), which keeps the payout
/// arithmetic overflow-free for every yield in `0..=10_000`.
pub const MAX_INVOICE_AMOUNT: i128 = 17_014_118_346_046_923_173_168_730_371_588_410i128;
/// Upper bound on `fund_batch` entries.
pub const MAX_FUND_BATCH: u32 = 50;
/// Upper bound on `settle_batch` entries.
pub const MAX_SETTLE_BATCH: u32 = 50;
/// Upper bound on `refund_batch` entries.
pub const MAX_REFUND_BATCH: u32 = 50;
/// Upper bound on investor read batches and pages.
pub const MAX_INVESTOR_READ_BATCH: u32 = 50;
/// Hard ceiling on distinct investors, enforced for every new contributor.
pub const MAX_UNIQUE_INVESTORS: u32 = 10_000;
/// Release-path instruction budget ceiling.
pub const WORST_CASE_RELEASE_CPU_INSNS_CEILING: u64 = 20_000_000;
/// Release-path memory budget ceiling.
pub const WORST_CASE_RELEASE_MEM_BYTES_CEILING: u64 = 8_000_000;
/// Upper bound on `batch_record_collateral` entries.
pub const MAX_COLLATERAL_BATCH: u32 = 50;
/// Upper bound on attestation digest read page size.
pub const MAX_ATTESTATION_READ_PAGE: u32 = 20;
/// Upper bound on one terminal dust sweep, in base units of the funding token.
pub const MAX_DUST_SWEEP_AMOUNT: i128 = 100_000_000;
/// Maximum byte length of the invoice identifier at init.
pub const MAX_INVOICE_ID_STRING_LEN: u32 = 32;
/// Default validity window of an admin proposal (seven days).
pub const DEFAULT_ADMIN_PROPOSAL_VALIDITY_SECS: u64 = 604_800;
/// Minimum instance storage TTL extension; default storage limit.
pub const INSTANCE_TTL_MIN_EXTENSION_LEDGERS: u32 = 3600;
/// Minimum persistent storage TTL extension.
pub const PERSISTENT_TTL_MIN_EXTENSION_LEDGERS: u32 = 3600;
/// TTL of an active escrow.
pub const TTL_ACTIVE_ESCROW_LEDGERS: u32 = 7_776_000;
/// TTL of a disputed escrow.
pub const TTL_DISPUTED_ESCROW_LEDGERS: u32 = 15_552_000;
/// TTL of a terminal escrow.
pub const TTL_TERMINAL_ESCROW_LEDGERS: u32 = 2_592_000;
/// Minimum allowed storage limit.
pub const MIN_STORAGE_LIMIT_LEDGERS: u32 = 1;
/// Maximum allowed storage limit (about one year).
pub const MAX_STORAGE_LIMIT_LEDGERS: u32 = 31_536_000;
/// Default pause auto-expiry (`0` = unlimited).
pub const DEFAULT_PAUSE_MAX_DURATION_SECS: u64 = 0;
/// Minimum non-zero pause auto-expiry.
pub const MIN_PAUSE_MAX_DURATION_SECS: u64 = 3_600;
/// Maximum pause auto-expiry.
pub const MAX_PAUSE_MAX_DURATION_SECS: u64 = 7_776_000;
/// Default pause toggle limit (`0` = unlimited).
pub const DEFAULT_PAUSE_TOGGLE_LIMIT: u32 = 0;
/// Minimum non-zero pause toggle limit.
pub const MIN_PAUSE_TOGGLE_LIMIT: u32 = 1;
/// Maximum pause toggle limit.
pub const MAX_PAUSE_TOGGLE_LIMIT: u32 = 1_000;
/// Minimum pause toggle window.
pub const MIN_PAUSE_TOGGLE_WINDOW_SECS: u64 = 60;
/// Maximum pause toggle window.
pub const MAX_PAUSE_TOGGLE_WINDOW_SECS: u64 = 7_776_000;
/// Upper bound on rent-bump plan entries per call.
pub const MAX_RENT_BUMP_PLAN_BATCH: u32 = 50;
/// Rent warning threshold in ledgers.
pub const RENT_WARN_LEDGERS: u32 = 3600;
/// Basis-point denominator.
pub const BPS_DENOMINATOR: i128 = 10_000;

} // verus!
