//! The storage model of one escrow instance and the guards shared by its entrypoints.
use vstd::prelude::*;
use crate::book::{InvestorBook, InvestorRecord};
use crate::callbacks::CallbackBook;
use crate::errors::{EscrowError, Failure};
use crate::types::{
    Addr, CallContext, CallbackContext, CloseMetadata, Digest, DisputeRecord, FeeSchedule,
    FundingCloseSnapshot, InvoiceEscrow, PauseEntry, PauseState, SmeCollateralCommitment,
    YieldTier,
};

verus! {

/// The contract instance: its instance storage, and the per-investor persistent entries that
/// the current invocation reads or writes (in [`StarfundEscrow::investors`]).
///
/// A field holding `Option` stands for a storage key that may be absent; the other fields are
/// keys that read with a default when absent.
pub struct StarfundEscrow {
    /// The escrow snapshot (absent before `init`).
    pub escrow: Option<InvoiceEscrow>,
    /// Stored schema version.
    pub version: Option<u32>,
    /// Compliance hold flag.
    pub legal_hold: bool,
    /// Earliest timestamp at which a requested hold clear may apply.
    pub legal_hold_clearable_at: Option<u64>,
    /// Delay between a hold-clear request and the clear.
    pub legal_hold_clear_delay: u64,
    /// Active dispute freeze on value release.
    pub dispute_active: bool,
    /// Dispute record, kept after resolution.
    pub dispute_record: Option<DisputeRecord>,
    /// SME collateral metadata.
    pub sme_collateral: Option<SmeCollateralCommitment>,
    /// Funding token bound at init.
    pub funding_token: Option<Addr>,
    /// Treasury bound at init.
    pub treasury: Option<Addr>,
    /// Registry hint.
    pub registry_ref: Option<Addr>,
    /// Immutable tier table (empty when tiering is off).
    pub yield_tiers: Vec<YieldTier>,
    /// Pro-rata snapshot written once when the escrow first becomes funded.
    pub funding_close_snapshot: Option<FundingCloseSnapshot>,
    /// Minimum amount per funding call (0 = no floor).
    pub min_contribution_floor: i128,
    /// Cap on distinct investors.
    pub max_unique_investors_cap: Option<u32>,
    /// Cap on principal per investor.
    pub max_per_investor_cap: Option<i128>,
    /// Proposed successor admin.
    pub pending_admin: Option<Addr>,
    /// Expiry of the admin proposal.
    pub pending_admin_expiry: Option<u64>,
    /// Expected admin nonce for replay protection.
    pub admin_nonce: u32,
    /// Distinct funders counted so far.
    pub unique_funder_count: u32,
    /// Single-set primary attestation digest.
    pub primary_attestation_hash: Option<Digest>,
    /// Append-only attestation log.
    pub attestation_log: Vec<Digest>,
    /// Indices of revoked attestation log entries (their set is what counts).
    pub attestation_revoked: Vec<u32>,
    /// Investor allowlist gate.
    pub allowlist_active: bool,
    /// Allowlisted addresses, for enumeration.
    pub allowlist_index: Vec<Addr>,
    /// Principal already paid out of the contract (refunds and releases).
    pub distributed_principal: i128,
    /// Principal released to the SME by `release`.
    pub released_amount: i128,
    /// Maximum maturity horizon.
    pub maturity_max_horizon: Option<u64>,
    /// Funding deadline.
    pub funding_deadline: Option<u64>,
    /// Token decimal scale for funding amounts.
    pub token_decimals: Option<u32>,
    /// Investors in order of their first deposit.
    pub investor_index: Vec<Addr>,
    /// Settlement timestamp.
    pub settled_at: Option<u64>,
    /// Operational pause flag.
    pub paused: bool,
    /// Typed pause state.
    pub pause_state: Option<PauseState>,
    /// Timestamp of the latest pause activation.
    pub paused_at: Option<u64>,
    /// Protocol fee applied at withdrawal.
    pub protocol_fee_bps: i64,
    /// Pause auto-expiry (0 = unlimited).
    pub pause_max_duration_secs: u64,
    /// Pause toggle limit per window (0 = unlimited).
    pub pause_toggle_limit: u32,
    /// Pause toggle window length.
    pub pause_toggle_window_secs: u64,
    /// Start of the current toggle window.
    pub pause_toggle_window_start: Option<u64>,
    /// Toggles recorded in the current window.
    pub pause_toggle_count: u32,
    /// Configured storage TTL extension.
    pub storage_limit: Option<u32>,
    /// Callback nonce counter.
    pub callback_nonce: u64,
    /// Registered callback contexts, keyed by invocation nonce.
    pub callbacks: CallbackBook,
    /// One-shot closed flag.
    pub closed: bool,
    /// Close metadata.
    pub close_metadata: Option<CloseMetadata>,
    /// Active fee schedule.
    pub fee_active: Option<FeeSchedule>,
    /// Pending fee schedule.
    pub fee_pending: Option<FeeSchedule>,
    /// Previously active fee schedule.
    pub fee_previous: Option<FeeSchedule>,
    /// Per-investor persistent entries held for this invocation.
    pub investors: InvestorBook,
}

/// The contents of the storage of one instance, as mathematical values.
#[verifier::ext_equal]
pub struct Store {
    pub escrow: Option<InvoiceEscrow>,
    pub version: Option<u32>,
    pub legal_hold: bool,
    pub legal_hold_clearable_at: Option<u64>,
    pub legal_hold_clear_delay: u64,
    pub dispute_active: bool,
    pub dispute_record: Option<DisputeRecord>,
    pub sme_collateral: Option<SmeCollateralCommitment>,
    pub funding_token: Option<Addr>,
    pub treasury: Option<Addr>,
    pub registry_ref: Option<Addr>,
    pub yield_tiers: Seq<YieldTier>,
    pub funding_close_snapshot: Option<FundingCloseSnapshot>,
    pub min_contribution_floor: i128,
    pub max_unique_investors_cap: Option<u32>,
    pub max_per_investor_cap: Option<i128>,
    pub pending_admin: Option<Addr>,
    pub pending_admin_expiry: Option<u64>,
    pub admin_nonce: u32,
    pub unique_funder_count: u32,
    pub primary_attestation_hash: Option<Digest>,
    pub attestation_log: Seq<Digest>,
    pub attestation_revoked: Set<u32>,
    pub allowlist_active: bool,
    pub allowlist_index: Seq<Addr>,
    pub distributed_principal: i128,
    pub released_amount: i128,
    pub maturity_max_horizon: Option<u64>,
    pub funding_deadline: Option<u64>,
    pub token_decimals: Option<u32>,
    pub investor_index: Seq<Addr>,
    pub settled_at: Option<u64>,
    pub paused: bool,
    pub pause_state: Option<PauseState>,
    pub paused_at: Option<u64>,
    pub protocol_fee_bps: i64,
    pub pause_max_duration_secs: u64,
    pub pause_toggle_limit: u32,
    pub pause_toggle_window_secs: u64,
    pub pause_toggle_window_start: Option<u64>,
    pub pause_toggle_count: u32,
    pub storage_limit: Option<u32>,
    pub callback_nonce: u64,
    pub callbacks: spec_fn(u64) -> Option<CallbackContext>,
    pub closed: bool,
    pub close_metadata: Option<CloseMetadata>,
    pub fee_active: Option<FeeSchedule>,
    pub fee_pending: Option<FeeSchedule>,
    pub fee_previous: Option<FeeSchedule>,
    pub investors: spec_fn(Addr) -> InvestorRecord,
}

impl View for StarfundEscrow {
    type V = Store;

    open spec fn view(&self) -> Store {
        Store {
            escrow: self.escrow,
            version: self.version,
            legal_hold: self.legal_hold,
            legal_hold_clearable_at: self.legal_hold_clearable_at,
            legal_hold_clear_delay: self.legal_hold_clear_delay,
            dispute_active: self.dispute_active,
            dispute_record: self.dispute_record,
            sme_collateral: self.sme_collateral,
            funding_token: self.funding_token,
            treasury: self.treasury,
            registry_ref: self.registry_ref,
            yield_tiers: self.yield_tiers@,
            funding_close_snapshot: self.funding_close_snapshot,
            min_contribution_floor: self.min_contribution_floor,
            max_unique_investors_cap: self.max_unique_investors_cap,
            max_per_investor_cap: self.max_per_investor_cap,
            pending_admin: self.pending_admin,
            pending_admin_expiry: self.pending_admin_expiry,
            admin_nonce: self.admin_nonce,
            unique_funder_count: self.unique_funder_count,
            primary_attestation_hash: self.primary_attestation_hash,
            attestation_log: self.attestation_log@,
            attestation_revoked: self.attestation_revoked@.to_set(),
            allowlist_active: self.allowlist_active,
            allowlist_index: self.allowlist_index@,
            distributed_principal: self.distributed_principal,
            released_amount: self.released_amount,
            maturity_max_horizon: self.maturity_max_horizon,
            funding_deadline: self.funding_deadline,
            token_decimals: self.token_decimals,
            investor_index: self.investor_index@,
            settled_at: self.settled_at,
            paused: self.paused,
            pause_state: self.pause_state,
            paused_at: self.paused_at,
            protocol_fee_bps: self.protocol_fee_bps,
            pause_max_duration_secs: self.pause_max_duration_secs,
            pause_toggle_limit: self.pause_toggle_limit,
            pause_toggle_window_secs: self.pause_toggle_window_secs,
            pause_toggle_window_start: self.pause_toggle_window_start,
            pause_toggle_count: self.pause_toggle_count,
            storage_limit: self.storage_limit,
            callback_nonce: self.callback_nonce,
            callbacks: |k: u64| self.callbacks.ctx(k),
            closed: self.closed,
            close_metadata: self.close_metadata,
            fee_active: self.fee_active,
            fee_pending: self.fee_pending,
            fee_previous: self.fee_previous,
            investors: |a: Addr| self.investors.rec(a),
        }
    }
}

impl Store {
    /// The storage of a freshly deployed instance: every key absent.
    pub open spec fn blank() -> Store {
        Store {
            escrow: None,
            version: None,
            legal_hold: false,
            legal_hold_clearable_at: None,
            legal_hold_clear_delay: 0,
            dispute_active: false,
            dispute_record: None,
            sme_collateral: None,
            funding_token: None,
            treasury: None,
            registry_ref: None,
            yield_tiers: Seq::empty(),
            funding_close_snapshot: None,
            min_contribution_floor: 0,
            max_unique_investors_cap: None,
            max_per_investor_cap: None,
            pending_admin: None,
            pending_admin_expiry: None,
            admin_nonce: 0,
            unique_funder_count: 0,
            primary_attestation_hash: None,
            attestation_log: Seq::empty(),
            attestation_revoked: Set::empty(),
            allowlist_active: false,
            allowlist_index: Seq::empty(),
            distributed_principal: 0,
            released_amount: 0,
            maturity_max_horizon: None,
            funding_deadline: None,
            token_decimals: None,
            investor_index: Seq::empty(),
            settled_at: None,
            paused: false,
            pause_state: None,
            paused_at: None,
            protocol_fee_bps: 0,
            pause_max_duration_secs: 0,
            pause_toggle_limit: 0,
            pause_toggle_window_secs: 0,
            pause_toggle_window_start: None,
            pause_toggle_count: 0,
            storage_limit: None,
            callback_nonce: 0,
            callbacks: |k: u64| None,
            closed: false,
            close_metadata: None,
            fee_active: None,
            fee_pending: None,
            fee_previous: None,
            investors: |a: Addr| InvestorRecord::spec_empty(),
        }
    }
}

impl StarfundEscrow {
    /// The storage of a freshly deployed instance: every key absent.
    pub fn new() -> (s: StarfundEscrow)
        ensures
            s@ == Store::blank(),
    {
        let s = StarfundEscrow {
            escrow: None,
            version: None,
            legal_hold: false,
            legal_hold_clearable_at: None,
            legal_hold_clear_delay: 0,
            dispute_active: false,
            dispute_record: None,
            sme_collateral: None,
            funding_token: None,
            treasury: None,
            registry_ref: None,
            yield_tiers: Vec::new(),
            funding_close_snapshot: None,
            min_contribution_floor: 0,
            max_unique_investors_cap: None,
            max_per_investor_cap: None,
            pending_admin: None,
            pending_admin_expiry: None,
            admin_nonce: 0,
            unique_funder_count: 0,
            primary_attestation_hash: None,
            attestation_log: Vec::new(),
            attestation_revoked: Vec::new(),
            allowlist_active: false,
            allowlist_index: Vec::new(),
            distributed_principal: 0,
            released_amount: 0,
            maturity_max_horizon: None,
            funding_deadline: None,
            token_decimals: None,
            investor_index: Vec::new(),
            settled_at: None,
            paused: false,
            pause_state: None,
            paused_at: None,
            protocol_fee_bps: 0,
            pause_max_duration_secs: 0,
            pause_toggle_limit: 0,
            pause_toggle_window_secs: 0,
            pause_toggle_window_start: None,
            pause_toggle_count: 0,
            storage_limit: None,
            callback_nonce: 0,
            callbacks: CallbackBook::new(),
            closed: false,
            close_metadata: None,
            fee_active: None,
            fee_pending: None,
            fee_previous: None,
            investors: InvestorBook::new(),
        };
        assert(s.attestation_revoked@.to_set() =~= Set::<u32>::empty());
        assert(s@.callbacks =~= Store::blank().callbacks);
        assert(s@ =~= Store::blank());
        s
    }

    /// A copy of the storage, used to apply a batch atomically.
    pub fn copy_state(&self) -> (c: StarfundEscrow)
        ensures
            c@ == self@,
    {
        let c = StarfundEscrow {
            escrow: self.escrow,
            version: self.version,
            legal_hold: self.legal_hold,
            legal_hold_clearable_at: self.legal_hold_clearable_at,
            legal_hold_clear_delay: self.legal_hold_clear_delay,
            dispute_active: self.dispute_active,
            dispute_record: self.dispute_record,
            sme_collateral: self.sme_collateral,
            funding_token: self.funding_token,
            treasury: self.treasury,
            registry_ref: self.registry_ref,
            yield_tiers: copy_vec(&self.yield_tiers),
            funding_close_snapshot: self.funding_close_snapshot,
            min_contribution_floor: self.min_contribution_floor,
            max_unique_investors_cap: self.max_unique_investors_cap,
            max_per_investor_cap: self.max_per_investor_cap,
            pending_admin: self.pending_admin,
            pending_admin_expiry: self.pending_admin_expiry,
            admin_nonce: self.admin_nonce,
            unique_funder_count: self.unique_funder_count,
            primary_attestation_hash: self.primary_attestation_hash,
            attestation_log: copy_vec(&self.attestation_log),
            attestation_revoked: copy_vec(&self.attestation_revoked),
            allowlist_active: self.allowlist_active,
            allowlist_index: copy_vec(&self.allowlist_index),
            distributed_principal: self.distributed_principal,
            released_amount: self.released_amount,
            maturity_max_horizon: self.maturity_max_horizon,
            funding_deadline: self.funding_deadline,
            token_decimals: self.token_decimals,
            investor_index: copy_vec(&self.investor_index),
            settled_at: self.settled_at,
            paused: self.paused,
            pause_state: self.pause_state,
            paused_at: self.paused_at,
            protocol_fee_bps: self.protocol_fee_bps,
            pause_max_duration_secs: self.pause_max_duration_secs,
            pause_toggle_limit: self.pause_toggle_limit,
            pause_toggle_window_secs: self.pause_toggle_window_secs,
            pause_toggle_window_start: self.pause_toggle_window_start,
            pause_toggle_count: self.pause_toggle_count,
            storage_limit: self.storage_limit,
            callback_nonce: self.callback_nonce,
            callbacks: CallbackBook { entries: copy_vec(&self.callbacks.entries) },
            closed: self.closed,
            close_metadata: self.close_metadata,
            fee_active: self.fee_active,
            fee_pending: self.fee_pending,
            fee_previous: self.fee_previous,
            investors: InvestorBook { entries: copy_vec(&self.investors.entries) },
        };
        assert(c@.callbacks =~= self@.callbacks);
        assert(c@ =~= self@);
        c
    }

    pub fn paused_active(&self, now: u64) -> (b: bool)
        ensures
            b == self@.paused_active_at(now),
    {
        if !self.paused {
            return false;
        }
        let max_duration = self.pause_max_duration_secs;
        if max_duration == 0 {
            return true;
        }
        let at = match self.paused_at {
            Some(t) => t,
            None => 0,
        };
        match at.checked_add(max_duration) {
            Some(expires_at) => now < expires_at,
            None => true,
        }
    }

    pub fn paused_blocks(&self, now: u64, entry: PauseEntry) -> (b: bool)
        ensures
            b == self@.paused_blocks_at(now, entry),
    {
        if !self.paused_active(now) {
            return false;
        }
        match self.pause_state {
            None => true,
            Some(s) => s.scope.blocks(entry),
        }
    }

    /// The escrow snapshot; an untyped abort before initialization.
    pub fn get_escrow(&self) -> (r: Result<InvoiceEscrow, Failure>)
        ensures
            match self.escrow {
                Some(e) => r == Ok::<InvoiceEscrow, Failure>(e),
                None => r == Err::<InvoiceEscrow, Failure>(Failure::NotInitialized),
            },
    {
        match self.escrow {
            Some(e) => Ok(e),
            None => Err(Failure::NotInitialized),
        }
    }

    /// Loads the escrow and requires the admin's authorization.
    pub fn load_escrow_require_admin(&self, call: &CallContext) -> (r: Result<InvoiceEscrow, Failure>)
        ensures
            match self@.admin_gate(*call) {
                Some(f) => r == Err::<InvoiceEscrow, Failure>(f),
                None => r == Ok::<InvoiceEscrow, Failure>(self.escrow.unwrap()),
            },
    {
        match self.escrow {
            None => Err(Failure::Escrow(EscrowError::EscrowNotInitialized)),
            Some(e) => {
                if call.is_authorized(e.admin) {
                    Ok(e)
                } else {
                    Err(Failure::AuthMissing(e.admin))
                }
            },
        }
    }

    /// Loads the escrow and requires the SME's authorization.
    pub fn load_escrow_require_sme(&self, call: &CallContext) -> (r: Result<InvoiceEscrow, Failure>)
        ensures
            match self@.sme_gate(*call) {
                Some(f) => r == Err::<InvoiceEscrow, Failure>(f),
                None => r == Ok::<InvoiceEscrow, Failure>(self.escrow.unwrap()),
            },
    {
        match self.escrow {
            None => Err(Failure::Escrow(EscrowError::EscrowNotInitialized)),
            Some(e) => {
                if call.is_authorized(e.sme_address) {
                    Ok(e)
                } else {
                    Err(Failure::AuthMissing(e.sme_address))
                }
            },
        }
    }

    /// Loads the escrow and requires the payer's authorization.
    pub fn load_escrow_require_payer(&self, call: &CallContext) -> (r: Result<InvoiceEscrow, Failure>)
        ensures
            match self@.role_gate(*call, |e: InvoiceEscrow| e.payer) {
                Some(f) => r == Err::<InvoiceEscrow, Failure>(f),
                None => r == Ok::<InvoiceEscrow, Failure>(self.escrow.unwrap()),
            },
    {
        match self.escrow {
            None => Err(Failure::Escrow(EscrowError::EscrowNotInitialized)),
            Some(e) => {
                if call.is_authorized(e.payer) {
                    Ok(e)
                } else {
                    Err(Failure::AuthMissing(e.payer))
                }
            },
        }
    }

    pub fn require_auth(call: &CallContext, a: Addr) -> (r: Result<(), Failure>)
        ensures
            match auth_gate(*call, a) {
                Some(f) => r == Err::<(), Failure>(f),
                None => r is Ok,
            },
    {
        if call.is_authorized(a) {
            Ok(())
        } else {
            Err(Failure::AuthMissing(a))
        }
    }

    /// Checks the admin nonce and returns its successor, to be stored by the caller.
    pub fn check_admin_nonce(&self, expected: u32) -> (r: Result<u32, Failure>)
        ensures
            match self@.nonce_gate(expected) {
                Some(f) => r == Err::<u32, Failure>(f),
                None => r == Ok::<u32, Failure>((self.admin_nonce + 1) as u32),
            },
    {
        if self.admin_nonce != expected {
            return Err(Failure::Escrow(EscrowError::AdminNonceMismatch));
        }
        match self.admin_nonce.checked_add(1) {
            Some(n) => Ok(n),
            None => Err(Failure::Escrow(EscrowError::AdminNonceMismatch)),
        }
    }
}

/// Failure of requiring `a`'s authorization.
pub open spec fn auth_gate(call: CallContext, a: Addr) -> Option<Failure> {
    if call.authorizes(a) { None } else { Some(Failure::AuthMissing(a)) }
}

impl Store {
    /// Whether the operational pause is in force at `now`: the flag is set and, when an
    /// auto-expiry is configured, `now` is before `paused_at + max_duration` (an overflowing
    /// expiry never elapses).
    pub open spec fn paused_active_at(self, now: u64) -> bool {
        if !self.paused {
            false
        } else if self.pause_max_duration_secs == 0 {
            true
        } else {
            let at: u64 = match self.paused_at { Some(t) => t, None => 0 };
            if at as int + self.pause_max_duration_secs as int > u64::MAX {
                true
            } else {
                (now as int) < at as int + self.pause_max_duration_secs as int
            }
        }
    }

    /// Whether the pause in force at `now` blocks `entry`; a pause without typed state blocks
    /// every entry.
    pub open spec fn paused_blocks_at(self, now: u64, entry: PauseEntry) -> bool {
        self.paused_active_at(now) && match self.pause_state {
            None => true,
            Some(s) => s.scope.spec_blocks(entry),
        }
    }

    /// The escrow snapshot (meaningful once initialized).
    pub open spec fn esc(self) -> InvoiceEscrow {
        self.escrow.unwrap()
    }

    /// Failure of loading the escrow and requiring `role`'s authorization.
    pub open spec fn role_gate(self, call: CallContext, role: spec_fn(InvoiceEscrow) -> Addr) -> Option<Failure> {
        match self.escrow {
            None => Some(Failure::Escrow(EscrowError::EscrowNotInitialized)),
            Some(e) => auth_gate(call, role(e)),
        }
    }

    pub open spec fn admin_gate(self, call: CallContext) -> Option<Failure> {
        self.role_gate(call, |e: InvoiceEscrow| e.admin)
    }

    pub open spec fn sme_gate(self, call: CallContext) -> Option<Failure> {
        self.role_gate(call, |e: InvoiceEscrow| e.sme_address)
    }

    /// Failure of an untyped escrow read before initialization.
    pub open spec fn init_gate(self) -> Option<Failure> {
        if self.escrow is None { Some(Failure::NotInitialized) } else { None }
    }

    /// Failure of consuming the admin nonce `expected`: it must equal the stored nonce, which
    /// must have a successor.
    pub open spec fn nonce_gate(self, expected: u32) -> Option<Failure> {
        if self.admin_nonce != expected || self.admin_nonce == u32::MAX {
            Some(Failure::Escrow(EscrowError::AdminNonceMismatch))
        } else {
            None
        }
    }

    /// The store after consuming the admin nonce.
    pub open spec fn bump_nonce(self) -> Store {
        Store { admin_nonce: (self.admin_nonce + 1) as u32, ..self }
    }

    /// The investor's contribution (0 when absent).
    pub open spec fn contribution_of(self, a: Addr) -> i128 {
        (self.investors)(a).contribution_or_zero()
    }

    /// The store with `escrow` replaced.
    pub open spec fn with_escrow(self, e: InvoiceEscrow) -> Store {
        Store { escrow: Some(e), ..self }
    }

    /// The store with the record of `a` replaced.
    pub open spec fn with_record(self, a: Addr, r: InvestorRecord) -> Store {
        Store { investors: |b: Addr| if b == a { r } else { (self.investors)(b) }, ..self }
    }
}

/// An element-wise copy of a vector of copyable values.
pub fn copy_vec<T: Copy>(v: &Vec<T>) -> (r: Vec<T>)
    ensures
        r@ == v@,
{
    let mut r: Vec<T> = Vec::new();
    let n = v.len();
    let mut i: usize = 0;
    while i < n
        invariant
            n == v@.len(),
            0 <= i <= n,
            r@ == v@.subrange(0, i as int),
        decreases n - i,
    {
        r.push(v[i]);
        i = i + 1;
        assert(r@ =~= v@.subrange(0, i as int));
    }
    assert(r@ =~= v@);
    r
}

/// The first failure among gates checked in order.
pub open spec fn first(a: Option<Failure>, b: Option<Failure>) -> Option<Failure> {
    match a {
        Some(f) => Some(f),
        None => b,
    }
}

/// A typed escrow failure when `bad` holds.
pub open spec fn fail_if(bad: bool, e: EscrowError) -> Option<Failure> {
    if bad { Some(Failure::Escrow(e)) } else { None }
}

} // verus!
