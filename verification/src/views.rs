//! Read-only views: summaries, settlement readiness, per-investor reads, pages over the
//! investor index and the tier table, and the rent-bump plan.
use vstd::prelude::*;
use crate::book::InvestorRecord;
use crate::consts::{DEFAULT_MATURITY_MAX_HORIZON_SECS, MAX_INVESTOR_READ_BATCH, MAX_RENT_BUMP_PLAN_BATCH};
use crate::errors::{EscrowError, Failure};
use crate::rules::{effective_yield_for_commitment, paginate_window, settle_pool, spec_paginate_window, spec_resolution, spec_settle_pool};
use crate::state::{copy_vec, StarfundEscrow, Store};
use crate::types::{
    Addr, CallContext, CollateralCommitmentSnapshot, EscrowCloseSnapshot, EscrowSummary,
    FundingCloseSnapshot, PauseEntry, RentBumpEntry, RentStatus, SettlementConfig, SettlementReadiness,
    YieldResolution, YieldTier,
};

verus! {

/// The health of one persistent entry for the rent-bump plan: absent entries are expired;
/// present ones are flagged when a warning horizon is given.
pub open spec fn rent_status(present: bool, warn: u32) -> RentStatus {
    if !present {
        RentStatus::Expired
    } else if warn > 0 {
        RentStatus::Warning
    } else {
        RentStatus::Current
    }
}

/// The rent-bump row of an investor.
pub open spec fn rent_entry(investor: Addr, rec: InvestorRecord, warn: u32) -> RentBumpEntry {
    RentBumpEntry {
        investor,
        contribution_status: rent_status(rec.contribution is Some, warn),
        effective_yield_status: rent_status(rec.effective_yield is Some, warn),
        claimed_status: rent_status(rec.claimed is Some, warn),
        contribution_ttl: if rec.contribution is Some { 1 } else { 0 },
    }
}

fn classify(present: bool, warn: u32) -> (s: RentStatus)
    ensures
        s == rent_status(present, warn),
{
    if !present {
        RentStatus::Expired
    } else if warn > 0 {
        RentStatus::Warning
    } else {
        RentStatus::Current
    }
}

impl Store {
    /// Whether `settle` by the SME succeeds at `now`: no legal hold, an escrow, no pause
    /// covering settlement, no open dispute, funded, maturity reached, and a settlement pool
    /// that fits in `i128`.
    pub open spec fn settleable_at(self, now: u64) -> bool {
        !self.legal_hold && self.escrow is Some
            && !self.paused_blocks_at(now, PauseEntry::Settlement)
            && !self.dispute_active
            && self.esc().status == 1
            && (self.esc().maturity == 0 || now >= self.esc().maturity)
            && spec_settle_pool(self.esc().funded_amount, self.esc().yield_bps) is Some
    }
}

impl StarfundEscrow {
    /// Whether `settle` by the SME would succeed now (a legal hold answers `false` before the
    /// escrow is read).
    pub fn is_settleable(&self, call: &CallContext) -> (r: Result<bool, Failure>)
        ensures
            r == if self.legal_hold {
                Ok::<bool, Failure>(false)
            } else if self.escrow is None {
                Err::<bool, Failure>(Failure::NotInitialized)
            } else {
                Ok::<bool, Failure>(self@.settleable_at(call.timestamp))
            },
    {
        if self.legal_hold {
            return Ok(false);
        }
        let escrow = self.get_escrow()?;
        if self.paused_blocks(call.timestamp, PauseEntry::Settlement) || self.dispute_active {
            return Ok(false);
        }
        if escrow.status != 1 {
            return Ok(false);
        }
        if escrow.maturity > 0 && call.timestamp < escrow.maturity {
            return Ok(false);
        }
        Ok(settle_pool(escrow.funded_amount, escrow.yield_bps).is_some())
    }

    /// The settlement readiness gates in one read; `ready_now` and `is_settleable` come from
    /// the same gate.
    pub fn get_settlement_readiness(&self, call: &CallContext) -> (r: Result<SettlementReadiness, Failure>)
        ensures
            r == match self.escrow {
                None => Err::<SettlementReadiness, Failure>(Failure::NotInitialized),
                Some(e) => Ok::<SettlementReadiness, Failure>(SettlementReadiness {
                    is_settleable: self@.settleable_at(call.timestamp),
                    legal_hold_active: self.legal_hold,
                    maturity_reached: e.maturity == 0 || call.timestamp >= e.maturity,
                    ready_now: self@.settleable_at(call.timestamp),
                }),
            },
    {
        let legal_hold_active = self.legal_hold;
        let escrow = self.get_escrow()?;
        let maturity_reached = escrow.maturity == 0 || call.timestamp >= escrow.maturity;
        let is_settleable = match self.is_settleable(call) {
            Ok(b) => b,
            Err(f) => {
                return Err(f);
            },
        };
        Ok(SettlementReadiness { is_settleable, legal_hold_active, maturity_reached, ready_now: is_settleable })
    }

    /// The escrow state in one read.
    pub fn get_escrow_summary(&self, call: &CallContext) -> (r: Result<EscrowSummary, Failure>)
        requires
            self.attestation_log@.len() <= u32::MAX,
        ensures
            r == match self.escrow {
                None => Err::<EscrowSummary, Failure>(Failure::NotInitialized),
                Some(e) => Ok::<EscrowSummary, Failure>(EscrowSummary {
                    escrow: e,
                    has_maturity_lock: e.maturity > 0,
                    legal_hold: self.legal_hold,
                    funding_close_snapshot: match self.funding_close_snapshot {
                        Some(s) => EscrowCloseSnapshot::Present(s),
                        None => EscrowCloseSnapshot::Absent,
                    },
                    unique_funder_count: self.unique_funder_count,
                    is_allowlist_active: self.allowlist_active,
                    schema_version: match self.version { Some(v) => v, None => 0 },
                    sme_collateral_commitment: match self.sme_collateral {
                        Some(c) => CollateralCommitmentSnapshot::Present(c),
                        None => CollateralCommitmentSnapshot::Absent,
                    },
                    has_primary_attestation: self.primary_attestation_hash is Some,
                    attestation_log_length: self.attestation_log@.len() as u32,
                    paused: self@.paused_active_at(call.timestamp),
                    protocol_fee_bps: self.protocol_fee_bps,
                }),
            },
    {
        let escrow = self.get_escrow()?;
        let funding_close_snapshot = match self.funding_close_snapshot {
            Some(s) => EscrowCloseSnapshot::Present(s),
            None => EscrowCloseSnapshot::Absent,
        };
        let sme_collateral_commitment = match self.sme_collateral {
            Some(c) => CollateralCommitmentSnapshot::Present(c),
            None => CollateralCommitmentSnapshot::Absent,
        };
        let schema_version: u32 = match self.version {
            Some(v) => v,
            None => 0,
        };
        Ok(EscrowSummary {
            escrow,
            has_maturity_lock: escrow.maturity > 0,
            legal_hold: self.legal_hold,
            funding_close_snapshot,
            unique_funder_count: self.unique_funder_count,
            is_allowlist_active: self.allowlist_active,
            schema_version,
            sme_collateral_commitment,
            has_primary_attestation: self.primary_attestation_hash.is_some(),
            attestation_log_length: self.attestation_log.len() as u32,
            paused: self.paused_active(call.timestamp),
            protocol_fee_bps: self.protocol_fee_bps,
        })
    }

    /// The settlement-relevant configuration, with the defaults the contract applies when a
    /// key is absent (base yield and maturity 0 before initialization).
    pub fn get_settlement_config(&self) -> (c: SettlementConfig)
        ensures
            c.yield_bps == match self.escrow { Some(e) => e.yield_bps, None => 0 },
            c.maturity == match self.escrow { Some(e) => e.maturity, None => 0 },
            c.protocol_fee_bps == self.protocol_fee_bps,
            c.yield_tiers@ == self.yield_tiers@,
            c.maturity_max_horizon == match self.maturity_max_horizon { Some(h) => h, None => DEFAULT_MATURITY_MAX_HORIZON_SECS },
            c.funding_deadline == self.funding_deadline,
            c.min_contribution_floor == self.min_contribution_floor,
            c.max_unique_investors_cap == self.max_unique_investors_cap,
            c.max_per_investor_cap == self.max_per_investor_cap,
    {
        let (yield_bps, maturity): (i64, u64) = match self.escrow {
            Some(e) => (e.yield_bps, e.maturity),
            None => (0, 0),
        };
        let maturity_max_horizon: u64 = match self.maturity_max_horizon {
            Some(h) => h,
            None => DEFAULT_MATURITY_MAX_HORIZON_SECS,
        };
        SettlementConfig {
            yield_bps,
            maturity,
            protocol_fee_bps: self.protocol_fee_bps,
            yield_tiers: copy_vec(&self.yield_tiers),
            maturity_max_horizon,
            funding_deadline: self.funding_deadline,
            min_contribution_floor: self.min_contribution_floor,
            max_unique_investors_cap: self.max_unique_investors_cap,
            max_per_investor_cap: self.max_per_investor_cap,
        }
    }

    /// The principal recorded for `investor` (0 when none).
    pub fn get_contribution(&self, investor: Addr) -> (c: i128)
        ensures
            c == self@.contribution_of(investor),
    {
        match self.investors.get(investor).contribution {
            Some(c) => c,
            None => 0,
        }
    }

    /// The contributions of `investors`, in order; at most `MAX_INVESTOR_READ_BATCH` per call.
    pub fn get_contributions(&self, investors: &Vec<Addr>) -> (r: Result<Vec<i128>, Failure>)
        ensures
            if investors@.len() > MAX_INVESTOR_READ_BATCH {
                r == Err::<Vec<i128>, Failure>(Failure::Escrow(EscrowError::ContributionReadBatchTooLarge))
            } else {
                r matches Ok(v) && v@ == investors@.map_values(|a: Addr| self@.contribution_of(a))
            },
    {
        let n = investors.len();
        if n > MAX_INVESTOR_READ_BATCH as usize {
            return Err(Failure::Escrow(EscrowError::ContributionReadBatchTooLarge));
        }
        let mut result: Vec<i128> = Vec::new();
        let mut i: usize = 0;
        while i < n
            invariant
                n == investors@.len(),
                0 <= i <= n,
                result@ == investors@.subrange(0, i as int).map_values(|a: Addr| self@.contribution_of(a)),
            decreases n - i,
        {
            let c = self.get_contribution(investors[i]);
            result.push(c);
            i = i + 1;
            assert(result@ =~= investors@.subrange(0, i as int).map_values(|a: Addr| self@.contribution_of(a)));
        }
        assert(investors@.subrange(0, n as int) =~= investors@);
        Ok(result)
    }

    /// The page `start..start + min(limit, MAX_INVESTOR_READ_BATCH)` of the investor index.
    pub fn get_investors(&self, start: u32, limit: u32) -> (r: Vec<Addr>)
        requires
            self.investor_index@.len() <= u32::MAX,
        ensures
            r@ == match spec_paginate_window(start, limit, MAX_INVESTOR_READ_BATCH, self@.investor_index.len() as u32) {
                None => Seq::<Addr>::empty(),
                Some((lo, hi)) => self@.investor_index.subrange(lo as int, hi as int),
            },
    {
        let len = self.investor_index.len() as u32;
        let mut result: Vec<Addr> = Vec::new();
        let (lo, hi) = match paginate_window(start, limit, MAX_INVESTOR_READ_BATCH, len) {
            Some(w) => w,
            None => {
                return result;
            },
        };
        let mut i: u32 = lo;
        while i < hi
            invariant
                lo <= i <= hi,
                hi <= len,
                len == self@.investor_index.len(),
                result@ == self@.investor_index.subrange(lo as int, i as int),
            decreases hi - i,
        {
            result.push(self.investor_index[i as usize]);
            i = i + 1;
            assert(result@ =~= self@.investor_index.subrange(lo as int, i as int));
        }
        result
    }

    /// The page of the investor index with each investor's contribution.
    pub fn get_funding_records(&self, start: u32, limit: u32) -> (r: Vec<(Addr, i128)>)
        requires
            self.investor_index@.len() <= u32::MAX,
        ensures
            r@ == match spec_paginate_window(start, limit, MAX_INVESTOR_READ_BATCH, self@.investor_index.len() as u32) {
                None => Seq::<(Addr, i128)>::empty(),
                Some((lo, hi)) => self@.investor_index.subrange(lo as int, hi as int)
                    .map_values(|a: Addr| (a, self@.contribution_of(a))),
            },
    {
        let len = self.investor_index.len() as u32;
        let mut result: Vec<(Addr, i128)> = Vec::new();
        let (lo, hi) = match paginate_window(start, limit, MAX_INVESTOR_READ_BATCH, len) {
            Some(w) => w,
            None => {
                return result;
            },
        };
        let mut i: u32 = lo;
        while i < hi
            invariant
                lo <= i <= hi,
                hi <= len,
                len == self@.investor_index.len(),
                result@ == self@.investor_index.subrange(lo as int, i as int).map_values(|a: Addr| (a, self@.contribution_of(a))),
            decreases hi - i,
        {
            let a = self.investor_index[i as usize];
            let c = self.get_contribution(a);
            result.push((a, c));
            i = i + 1;
            assert(result@ =~= self@.investor_index.subrange(lo as int, i as int).map_values(|a: Addr| (a, self@.contribution_of(a))));
        }
        result
    }

    /// The rent-bump rows for the page `start..start + min(limit, MAX_RENT_BUMP_PLAN_BATCH)`
    /// of the investor index.
    pub fn get_rent_bump_plan(&self, start: u32, limit: u32, warn_threshold_ledgers: u32) -> (r: Vec<RentBumpEntry>)
        requires
            self.investor_index@.len() <= u32::MAX,
        ensures
            r@ == match spec_paginate_window(start, limit, MAX_RENT_BUMP_PLAN_BATCH, self@.investor_index.len() as u32) {
                None => Seq::<RentBumpEntry>::empty(),
                Some((lo, hi)) => self@.investor_index.subrange(lo as int, hi as int)
                    .map_values(|a: Addr| rent_entry(a, (self@.investors)(a), warn_threshold_ledgers)),
            },
    {
        let len = self.investor_index.len() as u32;
        let mut result: Vec<RentBumpEntry> = Vec::new();
        let (lo, hi) = match paginate_window(start, limit, MAX_RENT_BUMP_PLAN_BATCH, len) {
            Some(w) => w,
            None => {
                return result;
            },
        };
        let mut i: u32 = lo;
        while i < hi
            invariant
                lo <= i <= hi,
                hi <= len,
                len == self@.investor_index.len(),
                result@ == self@.investor_index.subrange(lo as int, i as int)
                    .map_values(|a: Addr| rent_entry(a, (self@.investors)(a), warn_threshold_ledgers)),
            decreases hi - i,
        {
            let a = self.investor_index[i as usize];
            let rec = self.investors.get(a);
            let present = rec.contribution.is_some();
            result.push(RentBumpEntry {
                investor: a,
                contribution_status: classify(present, warn_threshold_ledgers),
                effective_yield_status: classify(rec.effective_yield.is_some(), warn_threshold_ledgers),
                claimed_status: classify(rec.claimed.is_some(), warn_threshold_ledgers),
                contribution_ttl: if present { 1 } else { 0 },
            });
            i = i + 1;
            assert(result@ =~= self@.investor_index.subrange(lo as int, i as int)
                .map_values(|a: Addr| rent_entry(a, (self@.investors)(a), warn_threshold_ledgers)));
        }
        result
    }

    /// The close snapshot, once funding closed.
    pub fn get_funding_close_snapshot(&self) -> (r: Option<FundingCloseSnapshot>)
        ensures
            r == self.funding_close_snapshot,
    {
        self.funding_close_snapshot
    }

    /// The settlement time, once settled.
    pub fn get_settled_at(&self) -> (r: Option<u64>)
        ensures
            r == self.settled_at,
    {
        self.settled_at
    }

    /// The investor's fixed yield, or the base yield when none was fixed.
    pub fn get_investor_yield_bps(&self, investor: Addr) -> (r: Result<i64, Failure>)
        ensures
            r == match self.escrow {
                None => Err::<i64, Failure>(Failure::NotInitialized),
                Some(e) => Ok::<i64, Failure>(match (self@.investors)(investor).effective_yield { Some(y) => y, None => e.yield_bps }),
            },
    {
        let escrow = self.get_escrow()?;
        match self.investors.get(investor).effective_yield {
            Some(y) => Ok(y),
            None => Ok(escrow.yield_bps),
        }
    }

    /// The earliest claim time of `investor` (0 when not gated).
    pub fn get_investor_claim_not_before(&self, investor: Addr) -> (t: u64)
        ensures
            t == (self@.investors)(investor).claim_not_before_or_zero(),
    {
        match self.investors.get(investor).claim_not_before {
            Some(t) => t,
            None => 0,
        }
    }

    /// Whether `investor` has claimed.
    pub fn is_investor_claimed(&self, investor: Addr) -> (b: bool)
        ensures
            b == (self@.investors)(investor).is_claimed(),
    {
        self.investors.get(investor).claimed == Some(true)
    }

    /// Whether `investor` was refunded.
    pub fn is_investor_refunded(&self, investor: Addr) -> (b: bool)
        ensures
            b == (self@.investors)(investor).refunded,
    {
        self.investors.get(investor).refunded
    }

    /// Principal already paid out of the contract.
    pub fn get_distributed_principal(&self) -> (d: i128)
        ensures
            d == self.distributed_principal,
    {
        self.distributed_principal
    }

    /// The tier table (empty when tiering is off).
    pub fn get_yield_tiers(&self) -> (r: Vec<YieldTier>)
        ensures
            r@ == self@.yield_tiers,
    {
        copy_vec(&self.yield_tiers)
    }

    /// The page `start..start + min(limit, MAX_INVESTOR_READ_BATCH)` of the tier table.
    pub fn get_yield_tiers_page(&self, start: u32, limit: u32) -> (r: Vec<YieldTier>)
        requires
            self.yield_tiers@.len() <= u32::MAX,
        ensures
            r@ == match spec_paginate_window(start, limit, MAX_INVESTOR_READ_BATCH, self@.yield_tiers.len() as u32) {
                None => Seq::<YieldTier>::empty(),
                Some((lo, hi)) => self@.yield_tiers.subrange(lo as int, hi as int),
            },
    {
        let len = self.yield_tiers.len() as u32;
        let mut result: Vec<YieldTier> = Vec::new();
        let (lo, hi) = match paginate_window(start, limit, MAX_INVESTOR_READ_BATCH, len) {
            Some(w) => w,
            None => {
                return result;
            },
        };
        let mut i: u32 = lo;
        while i < hi
            invariant
                lo <= i <= hi,
                hi <= len,
                len == self@.yield_tiers.len(),
                result@ == self@.yield_tiers.subrange(lo as int, i as int),
            decreases hi - i,
        {
            result.push(self.yield_tiers[i as usize]);
            i = i + 1;
            assert(result@ =~= self@.yield_tiers.subrange(lo as int, i as int));
        }
        result
    }

    /// The tier a first committed deposit with `lock` seconds would receive (`amount` does
    /// not influence it).
    pub fn preview_yield_tier(&self, amount: i128, lock: u64) -> (r: Result<YieldResolution, Failure>)
        ensures
            r == match self.escrow {
                None => Err::<YieldResolution, Failure>(Failure::NotInitialized),
                Some(e) => Ok::<YieldResolution, Failure>(spec_resolution(self@.yield_tiers, e.yield_bps, lock)),
            },
    {
        let escrow = self.get_escrow()?;
        Ok(effective_yield_for_commitment(&self.yield_tiers, escrow.yield_bps, lock))
    }
}

} // verus!
