use vstd::prelude::*;

verus! {

/// An account or contract address. Only its identity matters to the escrow logic.
#[derive(Clone, Copy, Debug, PartialEq, Eq, Structural)]
pub struct Addr {
    pub id: u64,
}

impl Addr {
    pub fn new(id: u64) -> (a: Addr)
        ensures
            a.id == id,
    {
        Addr { id }
    }
}

/// Ledger context and authorization set of one invocation.
///
/// `signers` lists the addresses whose authorization accompanies the invocation; an
/// entrypoint that requires an address's authorization fails when it is absent.
pub struct CallContext {
    pub timestamp: u64,
    pub sequence: u32,
    pub signers: Vec<Addr>,
}

impl CallContext {
    pub open spec fn authorizes(&self, a: Addr) -> bool {
        self.signers@.contains(a)
    }

    /// Whether `a` authorized this invocation.
    pub fn is_authorized(&self, a: Addr) -> (b: bool)
        ensures
            b == self.authorizes(a),
    {
        let n = self.signers.len();
        let mut i: usize = 0;
        while i < n
            invariant
                n == self.signers@.len(),
                0 <= i <= n,
                forall|j: int| 0 <= j < i ==> self.signers@[j] != a,
            decreases n - i,
        {
            if self.signers[i] == a {
                assert(self.signers@[i as int] == a);
                return true;
            }
            i = i + 1;
        }
        false
    }
}

/// A short symbol of at most 32 bytes (an invoice identifier or an asset code): the first
/// `len` bytes of `bytes` are its text, the rest are zero.
#[derive(Clone, Copy, Debug, PartialEq, Eq)]
pub struct Sym {
    pub len: u32,
    pub bytes: [u8; 32],
}

impl Sym {
    /// The text of the symbol.
    pub open spec fn text(&self) -> Seq<u8> {
        self.bytes@.subrange(0, self.len as int)
    }

    /// The empty symbol.
    pub fn empty() -> (s: Sym)
        ensures
            s.len == 0,
            s.text() == Seq::<u8>::empty(),
            s.canonical(),
    {
        Sym { len: 0, bytes: [0u8; 32] }
    }

    /// Whether the bytes past the text are zero, as in every symbol this library builds.
    pub open spec fn canonical(&self) -> bool {
        self.len <= 32 && forall|j: int| self.len <= j < 32 ==> self.bytes@[j] == 0
    }

    /// The symbol holding `text`, which must fit in 32 bytes.
    pub fn from_bytes(text: &[u8]) -> (s: Sym)
        requires
            text@.len() <= 32,
        ensures
            s.len == text@.len(),
            s.text() == text@,
            s.canonical(),
    {
        let mut bytes = [0u8; 32];
        let n = text.len();
        let mut i: usize = 0;
        while i < n
            invariant
                n == text@.len(),
                n <= 32,
                0 <= i <= n,
                bytes@.len() == 32,
                forall|j: int| 0 <= j < i ==> bytes@[j] == text@[j],
                forall|j: int| n <= j < 32 ==> bytes@[j] == 0,
            decreases n - i,
        {
            bytes[i] = text[i];
            i = i + 1;
        }
        let s = Sym { len: n as u32, bytes };
        assert(s.text() =~= text@);
        s
    }
}

/// A 32-byte digest (for example SHA-256 of an off-chain attestation bundle).
pub type Digest = [u8; 32];

/// Full escrow snapshot.
///
/// `status`: 0 = open, 1 = funded, 2 = settled, 3 = withdrawn, 4 = cancelled.
#[derive(Clone, Copy, Debug, PartialEq, Eq)]
pub struct InvoiceEscrow {
    pub invoice_id: Sym,
    pub admin: Addr,
    pub sme_address: Addr,
    /// The address that must authorize funding; distinct from the beneficiary.
    pub payer: Addr,
    pub amount: i128,
    pub funding_target: i128,
    pub funded_amount: i128,
    pub yield_bps: i64,
    pub maturity: u64,
    pub status: u32,
    pub dispute_active: bool,
}

/// Metadata captured when an escrow is finalized.
#[derive(Clone, Copy, Debug, PartialEq, Eq)]
pub struct CloseMetadata {
    pub admin: Addr,
    pub timestamp: u64,
    pub sequence: u32,
}

/// A fee schedule with named bounds and a future ledger at which it becomes active.
#[derive(Clone, Copy, Debug, PartialEq, Eq, Structural)]
pub struct FeeSchedule {
    pub fee_bps: u32,
    pub min_fee_bps: u32,
    pub max_fee_bps: u32,
    pub activation_ledger: u32,
}

/// The three fee-schedule slots.
#[derive(Clone, Copy, Debug, PartialEq, Eq, Structural)]
pub enum FeeScheduleStorageKey {
    Active,
    Pending,
    Previous,
}

/// The class of flows a scoped operational pause can block.
#[derive(Clone, Copy, Debug, PartialEq, Eq, Structural)]
pub enum PauseScope {
    Funding,
    Settlement,
    Withdrawal,
    Claims,
    All,
}

/// The family of pause-gated operations an entrypoint belongs to.
#[derive(Clone, Copy, Debug, PartialEq, Eq, Structural)]
pub enum PauseEntry {
    Funding,
    Settlement,
    Withdrawal,
    Claims,
}

impl PauseScope {
    pub open spec fn spec_blocks(self, entry: PauseEntry) -> bool {
        match self {
            PauseScope::All => true,
            PauseScope::Funding => entry == PauseEntry::Funding,
            PauseScope::Settlement => entry == PauseEntry::Settlement,
            PauseScope::Withdrawal => entry == PauseEntry::Withdrawal,
            PauseScope::Claims => entry == PauseEntry::Claims,
        }
    }

    /// Whether an active pause with this scope blocks an operation from `entry`:
    /// [`PauseScope::All`] blocks every entry, any other scope only its own family.
    pub fn blocks(self, entry: PauseEntry) -> (b: bool)
        ensures
            b == self.spec_blocks(entry),
            b <==> (self == PauseScope::All
                || (self == PauseScope::Funding && entry == PauseEntry::Funding)
                || (self == PauseScope::Settlement && entry == PauseEntry::Settlement)
                || (self == PauseScope::Withdrawal && entry == PauseEntry::Withdrawal)
                || (self == PauseScope::Claims && entry == PauseEntry::Claims)),
    {
        match self {
            PauseScope::All => true,
            PauseScope::Funding => entry == PauseEntry::Funding,
            PauseScope::Settlement => entry == PauseEntry::Settlement,
            PauseScope::Withdrawal => entry == PauseEntry::Withdrawal,
            PauseScope::Claims => entry == PauseEntry::Claims,
        }
    }
}

/// The typed reason an operational pause was applied.
#[derive(Clone, Copy, Debug, PartialEq, Eq, Structural)]
pub enum PauseReason {
    Maintenance,
    Incident,
    Security,
    TokenIntegration,
}

/// The persisted pause state: which flow is blocked, why, and since when.
#[derive(Clone, Copy, Debug, PartialEq, Eq, Structural)]
pub struct PauseState {
    pub scope: PauseScope,
    pub reason: PauseReason,
    pub activated_at: u64,
}

/// SME-reported collateral metadata (record only; it moves no tokens).
#[derive(Clone, Copy, Debug, PartialEq, Eq)]
pub struct SmeCollateralCommitment {
    pub asset: Sym,
    pub amount: i128,
    pub recorded_at: u64,
}

/// One step of the optional tier ladder.
#[derive(Clone, Copy, Debug, PartialEq, Eq, Structural)]
pub struct YieldTier {
    pub min_lock_secs: u64,
    pub yield_bps: i64,
}

/// Result of yield-tier resolution for a commitment.
#[derive(Clone, Copy, Debug, PartialEq, Eq, Structural)]
pub struct YieldResolution {
    pub effective_yield_bps: i64,
    pub matched_lock_secs: u64,
}

/// Captured exactly once when the escrow first becomes funded.
#[derive(Clone, Copy, Debug, PartialEq, Eq, Structural)]
pub struct FundingCloseSnapshot {
    pub total_principal: i128,
    pub funding_target: i128,
    pub closed_at_ledger_timestamp: u64,
    pub closed_at_ledger_sequence: u32,
}

/// Funding parameters that may be updated together (each `None` leaves a value unchanged).
#[derive(Clone, Copy, Debug, PartialEq, Eq, Structural)]
pub struct FundingParameters {
    pub min_contribution_floor: Option<i128>,
    pub max_unique_investors_cap: Option<u32>,
    pub max_per_investor_cap: Option<i128>,
    pub funding_deadline: Option<u64>,
}

/// Option-like view of the funding close snapshot.
#[derive(Clone, Copy, Debug, PartialEq, Eq, Structural)]
pub enum EscrowCloseSnapshot {
    Absent,
    Present(FundingCloseSnapshot),
}

/// Option-like view of the SME collateral commitment.
#[derive(Clone, Copy, Debug, PartialEq, Eq)]
pub enum CollateralCommitmentSnapshot {
    Absent,
    Present(SmeCollateralCommitment),
}

/// Lifecycle state of a recorded dispute.
#[derive(Clone, Copy, Debug, PartialEq, Eq, Structural)]
pub enum DisputeState {
    Open,
    Resolved,
}

/// Audit record of a dispute, kept after resolution.
#[derive(Clone, Copy, Debug, PartialEq, Eq, Structural)]
pub struct DisputeRecord {
    pub opened_at: u64,
    pub opened_by: Addr,
    pub state: DisputeState,
    pub resolved_at: Option<u64>,
    pub resolved_by: Option<Addr>,
}

/// Summary of the escrow state in one read.
#[derive(Clone, Copy, Debug, PartialEq, Eq)]
pub struct EscrowSummary {
    pub escrow: InvoiceEscrow,
    pub has_maturity_lock: bool,
    pub legal_hold: bool,
    pub funding_close_snapshot: EscrowCloseSnapshot,
    pub unique_funder_count: u32,
    pub is_allowlist_active: bool,
    pub schema_version: u32,
    pub sme_collateral_commitment: CollateralCommitmentSnapshot,
    pub has_primary_attestation: bool,
    pub attestation_log_length: u32,
    pub paused: bool,
    pub protocol_fee_bps: i64,
}

/// Whether `settle` would succeed now, with the gates that decide it.
#[derive(Clone, Copy, Debug, PartialEq, Eq, Structural)]
pub struct SettlementReadiness {
    pub is_settleable: bool,
    pub legal_hold_active: bool,
    pub maturity_reached: bool,
    pub ready_now: bool,
}

/// Health classification of one persistent entry.
#[derive(Clone, Copy, Debug, PartialEq, Eq, Structural)]
pub enum RentStatus {
    Current,
    Warning,
    Expired,
}

/// One row of the rent-bump plan.
#[derive(Clone, Copy, Debug, PartialEq, Eq, Structural)]
pub struct RentBumpEntry {
    pub investor: Addr,
    pub contribution_status: RentStatus,
    pub effective_yield_status: RentStatus,
    pub claimed_status: RentStatus,
    pub contribution_ttl: u32,
}

/// Result of `settle`.
#[derive(Clone, Copy, Debug, PartialEq, Eq)]
pub struct SettlementResult {
    pub escrow: InvoiceEscrow,
    pub coupon: i128,
    pub settle_pool: i128,
    pub settled_at: u64,
}

/// Settlement-relevant configuration in one read.
#[derive(Clone, Debug, PartialEq, Eq)]
pub struct SettlementConfig {
    pub yield_bps: i64,
    pub maturity: u64,
    pub protocol_fee_bps: i64,
    pub yield_tiers: Vec<YieldTier>,
    pub maturity_max_horizon: u64,
    pub funding_deadline: Option<u64>,
    pub min_contribution_floor: i128,
    pub max_unique_investors_cap: Option<u32>,
    pub max_per_investor_cap: Option<i128>,
}

/// A registered cross-contract callback binding origin, nonce and phase.
#[derive(Clone, Copy, Debug, PartialEq, Eq, Structural)]
pub struct CallbackContext {
    pub origin: Addr,
    pub nonce: u64,
    pub phase: u32,
    pub created_at: u64,
    pub consumed: bool,
}

/// A digest of the attestation log with its revocation flag.
#[derive(Clone, Copy, Debug, PartialEq, Eq)]
pub struct AttestationDigestInfo {
    pub digest: Digest,
    pub revoked: bool,
}

/// Reconciliation of the token balance against outstanding liabilities.
#[derive(Clone, Copy, Debug, PartialEq, Eq, Structural)]
pub struct ReconciliationView {
    pub token_balance: i128,
    pub outstanding_liability: i128,
    pub surplus: i128,
}

/// A token movement the caller must carry out for an entrypoint that succeeded.
#[derive(Clone, Copy, Debug, PartialEq, Eq, Structural)]
pub struct Transfer {
    pub from: Addr,
    pub to: Addr,
    pub amount: i128,
}

} // verus!
