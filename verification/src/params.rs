//! Admin changes to the funding parameters, maturity and yield while the escrow is open,
//! storage maintenance, and the version-management entrypoints.
use vstd::prelude::*;
use crate::consts::{
    INSTANCE_TTL_MIN_EXTENSION_LEDGERS, MAX_BUMP_TTL_BATCH, MAX_STORAGE_LIMIT_LEDGERS,
    MIN_STORAGE_LIMIT_LEDGERS, SCHEMA_VERSION, DEFAULT_MATURITY_MAX_HORIZON_SECS,
};
use crate::errors::{EscrowError, Failure};
use crate::rules::{
    get_lifecycle_ttl, maturity_bounds_error, sat_sub, spec_lifecycle_ttl, spec_sat_sub,
    validate_maturity_bounds,
};
use crate::state::{fail_if, first, StarfundEscrow, Store};
use crate::types::{Addr, CallContext, FundingCloseSnapshot, InvoiceEscrow};

verus! {

impl Store {
    /// The maturity horizon in force (the default when none is stored).
    pub open spec fn horizon_or_default(self) -> u64 {
        match self.maturity_max_horizon { Some(h) => h, None => DEFAULT_MATURITY_MAX_HORIZON_SECS }
    }

    pub open spec fn update_target_gate(self, call: CallContext, new_target: i128, expected_nonce: u32) -> Option<Failure> {
        let e = self.esc();
        first(self.admin_gate(call),
        first(self.nonce_gate(expected_nonce),
        first(fail_if(new_target <= 0, EscrowError::TargetNotPositive),
        first(fail_if(e.status != 0, EscrowError::TargetUpdateNotOpen),
              fail_if(new_target < e.funded_amount, EscrowError::TargetBelowFundedAmount)))))
    }

    /// The store after a target change: lowering the target to at most the (positive) funded
    /// amount closes funding and writes the close snapshot, unless one already exists.
    pub open spec fn update_target_post(self, call: CallContext, new_target: i128) -> Store {
        let e = self.esc();
        let promote = e.funded_amount > 0 && e.funded_amount >= new_target && self.funding_close_snapshot is None;
        let s1 = self.bump_nonce();
        if promote {
            Store {
                escrow: Some(InvoiceEscrow { funding_target: new_target, status: 1, ..e }),
                funding_close_snapshot: Some(FundingCloseSnapshot {
                    total_principal: e.funded_amount,
                    funding_target: new_target,
                    closed_at_ledger_timestamp: call.timestamp,
                    closed_at_ledger_sequence: call.sequence,
                }),
                ..s1
            }
        } else {
            s1.with_escrow(InvoiceEscrow { funding_target: new_target, ..e })
        }
    }

    pub open spec fn extend_deadline_gate(self, call: CallContext, new_deadline: u64) -> Option<Failure> {
        let e = self.esc();
        first(self.admin_gate(call),
        first(fail_if(e.status != 0, EscrowError::FundingDeadlineUpdateNotOpen),
        first(fail_if(self.funding_deadline is None, EscrowError::FundingDeadlineNotExtended),
        first(fail_if(call.timestamp > self.funding_deadline.unwrap(), EscrowError::FundingDeadlinePassed),
        first(fail_if(new_deadline <= self.funding_deadline.unwrap(), EscrowError::FundingDeadlineNotExtended),
              fail_if(e.maturity > 0 && new_deadline >= e.maturity, EscrowError::FundingDeadlineAtOrAfterMaturity))))))
    }
}

impl StarfundEscrow {
    /// Changes the funding target while open (admin, with the admin nonce). The target must
    /// be positive and at least the funded amount; reaching it closes funding.
    pub fn update_funding_target(&mut self, call: &CallContext, new_target: i128, expected_nonce: u32) -> (r: Result<InvoiceEscrow, Failure>)
        ensures
            match old(self)@.update_target_gate(*call, new_target, expected_nonce) {
                Some(f) => r == Err::<InvoiceEscrow, Failure>(f) && final(self)@ == old(self)@,
                None => final(self)@ == old(self)@.update_target_post(*call, new_target)
                    && r == Ok::<InvoiceEscrow, Failure>(final(self)@.esc()),
            },
    {
        let mut escrow = self.load_escrow_require_admin(call)?;
        let next = self.check_admin_nonce(expected_nonce)?;
        if new_target <= 0 {
            return Err(Failure::Escrow(EscrowError::TargetNotPositive));
        }
        if escrow.status != 0 {
            return Err(Failure::Escrow(EscrowError::TargetUpdateNotOpen));
        }
        if new_target < escrow.funded_amount {
            return Err(Failure::Escrow(EscrowError::TargetBelowFundedAmount));
        }
        self.admin_nonce = next;
        escrow.funding_target = new_target;
        if escrow.funded_amount > 0 && escrow.funded_amount >= new_target && self.funding_close_snapshot.is_none() {
            escrow.status = 1;
            self.funding_close_snapshot = Some(FundingCloseSnapshot {
                total_principal: escrow.funded_amount,
                funding_target: new_target,
                closed_at_ledger_timestamp: call.timestamp,
                closed_at_ledger_sequence: call.sequence,
            });
        }
        self.escrow = Some(escrow);
        Ok(escrow)
    }

    /// Sets (`Some`, strictly in the future) or removes (`None`) the funding deadline while
    /// open (admin, with the admin nonce).
    pub fn update_funding_deadline(&mut self, call: &CallContext, new_deadline: Option<u64>, expected_nonce: u32) -> (r: Result<(), Failure>)
        ensures
            match first(old(self)@.admin_gate(*call),
                  first(old(self)@.nonce_gate(expected_nonce),
                  first(fail_if(old(self)@.esc().status != 0, EscrowError::FundingDeadlineUpdateNotOpen),
                        fail_if(new_deadline matches Some(d) && d <= call.timestamp, EscrowError::FundingDeadlinePassed)))) {
                Some(f) => r == Err::<(), Failure>(f) && final(self)@ == old(self)@,
                None => r is Ok && final(self)@ == (Store { funding_deadline: new_deadline, ..old(self)@.bump_nonce() }),
            },
    {
        let escrow = self.load_escrow_require_admin(call)?;
        let next = self.check_admin_nonce(expected_nonce)?;
        if escrow.status != 0 {
            return Err(Failure::Escrow(EscrowError::FundingDeadlineUpdateNotOpen));
        }
        if let Some(d) = new_deadline {
            if d <= call.timestamp {
                return Err(Failure::Escrow(EscrowError::FundingDeadlinePassed));
            }
        }
        self.admin_nonce = next;
        self.funding_deadline = new_deadline;
        Ok(())
    }

    /// Moves an existing, not yet passed funding deadline strictly later, and before a
    /// non-zero maturity (admin only). Returns the new deadline.
    pub fn extend_funding_deadline(&mut self, call: &CallContext, new_deadline: u64) -> (r: Result<u64, Failure>)
        ensures
            match old(self)@.extend_deadline_gate(*call, new_deadline) {
                Some(f) => r == Err::<u64, Failure>(f) && final(self)@ == old(self)@,
                None => r == Ok::<u64, Failure>(new_deadline) && final(self)@ == (Store { funding_deadline: Some(new_deadline), ..old(self)@ }),
            },
    {
        let escrow = self.load_escrow_require_admin(call)?;
        if escrow.status != 0 {
            return Err(Failure::Escrow(EscrowError::FundingDeadlineUpdateNotOpen));
        }
        let old_deadline = match self.funding_deadline {
            Some(d) => d,
            None => {
                return Err(Failure::Escrow(EscrowError::FundingDeadlineNotExtended));
            },
        };
        if call.timestamp > old_deadline {
            return Err(Failure::Escrow(EscrowError::FundingDeadlinePassed));
        }
        if new_deadline <= old_deadline {
            return Err(Failure::Escrow(EscrowError::FundingDeadlineNotExtended));
        }
        if escrow.maturity > 0 && new_deadline >= escrow.maturity {
            return Err(Failure::Escrow(EscrowError::FundingDeadlineAtOrAfterMaturity));
        }
        self.funding_deadline = Some(new_deadline);
        Ok(new_deadline)
    }

    /// Lowers the distinct-investor cap while open (admin, with the admin nonce): strictly
    /// lower, and not below the funders already counted.
    pub fn lower_max_unique_investors(&mut self, call: &CallContext, new_cap: u32, expected_nonce: u32) -> (r: Result<u32, Failure>)
        ensures
            match first(old(self)@.admin_gate(*call),
                  first(old(self)@.nonce_gate(expected_nonce),
                  first(fail_if(old(self)@.esc().status != 0, EscrowError::CapLowerNotOpen),
                  first(fail_if(old(self)@.max_unique_investors_cap is None, EscrowError::NoInvestorCapConfigured),
                  first(fail_if(new_cap >= old(self)@.max_unique_investors_cap.unwrap(), EscrowError::NewCapNotLower),
                        fail_if(new_cap < old(self)@.unique_funder_count, EscrowError::NewCapBelowCurrentFunderCount)))))) {
                Some(f) => r == Err::<u32, Failure>(f) && final(self)@ == old(self)@,
                None => r == Ok::<u32, Failure>(new_cap)
                    && final(self)@ == (Store { max_unique_investors_cap: Some(new_cap), ..old(self)@.bump_nonce() }),
            },
    {
        let escrow = self.load_escrow_require_admin(call)?;
        let next = self.check_admin_nonce(expected_nonce)?;
        if escrow.status != 0 {
            return Err(Failure::Escrow(EscrowError::CapLowerNotOpen));
        }
        let old_cap = match self.max_unique_investors_cap {
            Some(c) => c,
            None => {
                return Err(Failure::Escrow(EscrowError::NoInvestorCapConfigured));
            },
        };
        if new_cap >= old_cap {
            return Err(Failure::Escrow(EscrowError::NewCapNotLower));
        }
        if new_cap < self.unique_funder_count {
            return Err(Failure::Escrow(EscrowError::NewCapBelowCurrentFunderCount));
        }
        self.admin_nonce = next;
        self.max_unique_investors_cap = Some(new_cap);
        Ok(new_cap)
    }

    /// Raises the distinct-investor cap while open (admin only): strictly higher.
    pub fn raise_max_unique_investors(&mut self, call: &CallContext, new_cap: u32) -> (r: Result<u32, Failure>)
        ensures
            match first(old(self)@.admin_gate(*call),
                  first(fail_if(old(self)@.esc().status != 0, EscrowError::EscrowNotOpenForFunding),
                  first(fail_if(old(self)@.max_unique_investors_cap is None, EscrowError::NoInvestorCapConfigured),
                        fail_if(new_cap <= old(self)@.max_unique_investors_cap.unwrap(), EscrowError::NewCapNotHigher)))) {
                Some(f) => r == Err::<u32, Failure>(f) && final(self)@ == old(self)@,
                None => r == Ok::<u32, Failure>(new_cap)
                    && final(self)@ == (Store { max_unique_investors_cap: Some(new_cap), ..old(self)@ }),
            },
    {
        let escrow = self.load_escrow_require_admin(call)?;
        if escrow.status != 0 {
            return Err(Failure::Escrow(EscrowError::EscrowNotOpenForFunding));
        }
        let old_cap = match self.max_unique_investors_cap {
            Some(c) => c,
            None => {
                return Err(Failure::Escrow(EscrowError::NoInvestorCapConfigured));
            },
        };
        if new_cap <= old_cap {
            return Err(Failure::Escrow(EscrowError::NewCapNotHigher));
        }
        self.max_unique_investors_cap = Some(new_cap);
        Ok(new_cap)
    }

    /// Lowers the minimum contribution floor while open (admin only): positive and strictly
    /// lower.
    pub fn lower_min_contribution_floor(&mut self, call: &CallContext, new_floor: i128) -> (r: Result<i128, Failure>)
        ensures
            match first(old(self)@.admin_gate(*call),
                  first(fail_if(old(self)@.esc().status != 0, EscrowError::FloorLowerNotOpen),
                  first(fail_if(new_floor <= 0, EscrowError::NewFloorNotPositive),
                        fail_if(new_floor >= old(self)@.min_contribution_floor, EscrowError::NewFloorNotLower)))) {
                Some(f) => r == Err::<i128, Failure>(f) && final(self)@ == old(self)@,
                None => r == Ok::<i128, Failure>(new_floor)
                    && final(self)@ == (Store { min_contribution_floor: new_floor, ..old(self)@ }),
            },
    {
        let escrow = self.load_escrow_require_admin(call)?;
        if escrow.status != 0 {
            return Err(Failure::Escrow(EscrowError::FloorLowerNotOpen));
        }
        if new_floor <= 0 {
            return Err(Failure::Escrow(EscrowError::NewFloorNotPositive));
        }
        if new_floor >= self.min_contribution_floor {
            return Err(Failure::Escrow(EscrowError::NewFloorNotLower));
        }
        self.min_contribution_floor = new_floor;
        Ok(new_floor)
    }

    /// Raises the per-investor cap while open (admin only): one must be configured, and the
    /// new one strictly higher.
    pub fn raise_max_per_investor(&mut self, call: &CallContext, new_cap: i128) -> (r: Result<i128, Failure>)
        ensures
            match first(old(self)@.admin_gate(*call),
                  first(fail_if(old(self)@.esc().status != 0, EscrowError::CapLowerNotOpen),
                  first(fail_if(old(self)@.max_per_investor_cap is None, EscrowError::MaxPerInvestorCapNotConfigured),
                        fail_if(new_cap <= old(self)@.max_per_investor_cap.unwrap(), EscrowError::MaxPerInvestorCapNotRaised)))) {
                Some(f) => r == Err::<i128, Failure>(f) && final(self)@ == old(self)@,
                None => r == Ok::<i128, Failure>(new_cap)
                    && final(self)@ == (Store { max_per_investor_cap: Some(new_cap), ..old(self)@ }),
            },
    {
        let escrow = self.load_escrow_require_admin(call)?;
        if escrow.status != 0 {
            return Err(Failure::Escrow(EscrowError::CapLowerNotOpen));
        }
        let old_cap = match self.max_per_investor_cap {
            Some(c) => c,
            None => {
                return Err(Failure::Escrow(EscrowError::MaxPerInvestorCapNotConfigured));
            },
        };
        if new_cap <= old_cap {
            return Err(Failure::Escrow(EscrowError::MaxPerInvestorCapNotRaised));
        }
        self.max_per_investor_cap = Some(new_cap);
        Ok(new_cap)
    }

    /// Changes the maturity while open (admin only): it must differ and satisfy the horizon
    /// bounds.
    pub fn update_maturity(&mut self, call: &CallContext, new_maturity: u64) -> (r: Result<InvoiceEscrow, Failure>)
        ensures
            match first(old(self)@.admin_gate(*call),
                  first(fail_if(old(self)@.esc().status != 0, EscrowError::MaturityUpdateNotOpen),
                  first(fail_if(new_maturity == old(self)@.esc().maturity, EscrowError::MaturityUnchanged),
                        match maturity_bounds_error(call.timestamp, new_maturity, old(self)@.horizon_or_default()) {
                            Some(e) => Some(Failure::Escrow(e)),
                            None => None,
                        }))) {
                Some(f) => r == Err::<InvoiceEscrow, Failure>(f) && final(self)@ == old(self)@,
                None => final(self)@ == old(self)@.with_escrow(InvoiceEscrow { maturity: new_maturity, ..old(self)@.esc() })
                    && r == Ok::<InvoiceEscrow, Failure>(final(self)@.esc()),
            },
    {
        let mut escrow = self.load_escrow_require_admin(call)?;
        if escrow.status != 0 {
            return Err(Failure::Escrow(EscrowError::MaturityUpdateNotOpen));
        }
        if new_maturity == escrow.maturity {
            return Err(Failure::Escrow(EscrowError::MaturityUnchanged));
        }
        let horizon = self.get_maturity_max_horizon();
        if let Err(e) = validate_maturity_bounds(call.timestamp, new_maturity, horizon) {
            return Err(Failure::Escrow(e));
        }
        escrow.maturity = new_maturity;
        self.escrow = Some(escrow);
        Ok(escrow)
    }

    /// Changes the base yield while open (admin only): within `0..=10_000` and different.
    pub fn update_yield_bps(&mut self, call: &CallContext, new_yield_bps: i64) -> (r: Result<InvoiceEscrow, Failure>)
        ensures
            match first(old(self)@.admin_gate(*call),
                  first(fail_if(old(self)@.esc().status != 0, EscrowError::YieldBpsUpdateNotOpen),
                  first(fail_if(!(0 <= new_yield_bps <= 10_000), EscrowError::YieldBpsOutOfRange),
                        fail_if(new_yield_bps == old(self)@.esc().yield_bps, EscrowError::YieldBpsUnchanged)))) {
                Some(f) => r == Err::<InvoiceEscrow, Failure>(f) && final(self)@ == old(self)@,
                None => final(self)@ == old(self)@.with_escrow(InvoiceEscrow { yield_bps: new_yield_bps, ..old(self)@.esc() })
                    && r == Ok::<InvoiceEscrow, Failure>(final(self)@.esc()),
            },
    {
        let mut escrow = self.load_escrow_require_admin(call)?;
        if escrow.status != 0 {
            return Err(Failure::Escrow(EscrowError::YieldBpsUpdateNotOpen));
        }
        if !(new_yield_bps >= 0 && new_yield_bps <= 10_000) {
            return Err(Failure::Escrow(EscrowError::YieldBpsOutOfRange));
        }
        if new_yield_bps == escrow.yield_bps {
            return Err(Failure::Escrow(EscrowError::YieldBpsUnchanged));
        }
        escrow.yield_bps = new_yield_bps;
        self.escrow = Some(escrow);
        Ok(escrow)
    }

    /// The maturity horizon in force.
    pub fn get_maturity_max_horizon(&self) -> (h: u64)
        ensures
            h == self@.horizon_or_default(),
    {
        match self.maturity_max_horizon {
            Some(h) => h,
            None => DEFAULT_MATURITY_MAX_HORIZON_SECS,
        }
    }

    /// Sets the maturity horizon to any value (admin only).
    pub fn update_maturity_max_horizon(&mut self, call: &CallContext, new_horizon: u64) -> (r: Result<u64, Failure>)
        ensures
            match old(self)@.admin_gate(*call) {
                Some(f) => r == Err::<u64, Failure>(f) && final(self)@ == old(self)@,
                None => r == Ok::<u64, Failure>(new_horizon)
                    && final(self)@ == (Store { maturity_max_horizon: Some(new_horizon), ..old(self)@ }),
            },
    {
        let _ = self.load_escrow_require_admin(call)?;
        self.maturity_max_horizon = Some(new_horizon);
        Ok(new_horizon)
    }

    /// Raises the maturity horizon strictly (admin only).
    pub fn raise_maturity_max_horizon(&mut self, call: &CallContext, new_horizon: u64) -> (r: Result<u64, Failure>)
        ensures
            match first(old(self)@.admin_gate(*call), fail_if(new_horizon <= old(self)@.horizon_or_default(), EscrowError::HorizonNotRaised)) {
                Some(f) => r == Err::<u64, Failure>(f) && final(self)@ == old(self)@,
                None => r == Ok::<u64, Failure>(new_horizon)
                    && final(self)@ == (Store { maturity_max_horizon: Some(new_horizon), ..old(self)@ }),
            },
    {
        let _ = self.load_escrow_require_admin(call)?;
        let old_horizon = self.get_maturity_max_horizon();
        if new_horizon <= old_horizon {
            return Err(Failure::Escrow(EscrowError::HorizonNotRaised));
        }
        self.maturity_max_horizon = Some(new_horizon);
        Ok(new_horizon)
    }

    /// The storage TTL extension in force (the minimum extension when unset).
    pub fn get_storage_limit(&self) -> (l: u32)
        ensures
            l == match self.storage_limit { Some(l) => l, None => INSTANCE_TTL_MIN_EXTENSION_LEDGERS },
    {
        match self.storage_limit {
            Some(l) => l,
            None => INSTANCE_TTL_MIN_EXTENSION_LEDGERS,
        }
    }

    /// Sets the storage TTL extension (admin only) within its bounds.
    pub fn set_storage_limit(&mut self, call: &CallContext, limit: u32) -> (r: Result<u32, Failure>)
        ensures
            match first(old(self)@.admin_gate(*call),
                        fail_if(!(MIN_STORAGE_LIMIT_LEDGERS <= limit <= MAX_STORAGE_LIMIT_LEDGERS), EscrowError::StorageLimitOutOfRange)) {
                Some(f) => r == Err::<u32, Failure>(f) && final(self)@ == old(self)@,
                None => r == Ok::<u32, Failure>(limit) && final(self)@ == (Store { storage_limit: Some(limit), ..old(self)@ }),
            },
    {
        let _ = self.load_escrow_require_admin(call)?;
        if !(limit >= MIN_STORAGE_LIMIT_LEDGERS && limit <= MAX_STORAGE_LIMIT_LEDGERS) {
            return Err(Failure::Escrow(EscrowError::StorageLimitOutOfRange));
        }
        self.storage_limit = Some(limit);
        Ok(limit)
    }

    /// Checks a permissionless TTL bump for `allowlisted` entries and returns the lifecycle
    /// horizon to extend them by. Storage is not changed.
    pub fn bump_ttl(&self, allowlisted: &Vec<Addr>) -> (r: Result<u32, Failure>)
        ensures
            r == if allowlisted@.len() == 0 {
                Err::<u32, Failure>(Failure::Escrow(EscrowError::BumpTtlBatchEmpty))
            } else if allowlisted@.len() > MAX_BUMP_TTL_BATCH {
                Err::<u32, Failure>(Failure::Escrow(EscrowError::BumpTtlBatchTooLarge))
            } else if self.escrow is None {
                Err::<u32, Failure>(Failure::NotInitialized)
            } else {
                Ok::<u32, Failure>(spec_lifecycle_ttl(&self.escrow.unwrap()))
            },
    {
        let n = allowlisted.len();
        if n == 0 {
            return Err(Failure::Escrow(EscrowError::BumpTtlBatchEmpty));
        }
        if n > MAX_BUMP_TTL_BATCH as usize {
            return Err(Failure::Escrow(EscrowError::BumpTtlBatchTooLarge));
        }
        let escrow = self.get_escrow()?;
        Ok(get_lifecycle_ttl(&escrow))
    }

    /// Checks a schema migration. No migration path exists, so every call fails: a version
    /// mismatch, a request from the current version, or no path from an older one.
    pub fn migrate(&mut self, call: &CallContext, from_version: u32, expected_nonce: u32) -> (r: Result<u32, Failure>)
        ensures
            final(self)@ == old(self)@,
            r == Err::<u32, Failure>(
                match first(old(self)@.admin_gate(*call),
                      first(old(self)@.nonce_gate(expected_nonce),
                            fail_if(match old(self)@.version { Some(v) => v, None => 0 } != from_version,
                                    EscrowError::MigrationVersionMismatch))) {
                    Some(f) => f,
                    None => if from_version >= SCHEMA_VERSION {
                        Failure::Escrow(EscrowError::AlreadyCurrentSchemaVersion)
                    } else {
                        Failure::Escrow(EscrowError::NoMigrationPath)
                    },
                }),
    {
        let _ = self.load_escrow_require_admin(call)?;
        let _ = self.check_admin_nonce(expected_nonce)?;
        let stored: u32 = match self.version {
            Some(v) => v,
            None => 0,
        };
        if stored != from_version {
            return Err(Failure::Escrow(EscrowError::MigrationVersionMismatch));
        }
        if from_version >= SCHEMA_VERSION {
            Err(Failure::Escrow(EscrowError::AlreadyCurrentSchemaVersion))
        } else {
            Err(Failure::Escrow(EscrowError::NoMigrationPath))
        }
    }

    /// Authorizes a code upgrade (admin, with the admin nonce); the caller then swaps the
    /// code. Only the nonce changes.
    pub fn upgrade(&mut self, call: &CallContext, expected_nonce: u32) -> (r: Result<(), Failure>)
        ensures
            match first(old(self)@.admin_gate(*call), old(self)@.nonce_gate(expected_nonce)) {
                Some(f) => r == Err::<(), Failure>(f) && final(self)@ == old(self)@,
                None => r is Ok && final(self)@ == old(self)@.bump_nonce(),
            },
    {
        let _ = self.load_escrow_require_admin(call)?;
        let next = self.check_admin_nonce(expected_nonce)?;
        self.admin_nonce = next;
        Ok(())
    }

    /// The target still unfunded, never negative.
    pub fn get_remaining_funding_capacity(&self) -> (r: Result<i128, Failure>)
        ensures
            r == match self.escrow {
                None => Err::<i128, Failure>(Failure::NotInitialized),
                Some(e) => {
                    let d = spec_sat_sub(e.funding_target, e.funded_amount);
                    Ok::<i128, Failure>(if d >= 0 { d } else { 0 })
                },
            },
    {
        let escrow = self.get_escrow()?;
        let d = sat_sub(escrow.funding_target, escrow.funded_amount);
        Ok(if d >= 0 { d } else { 0 })
    }

    /// Distinct-investor slots left under the cap; `None` without a cap.
    pub fn get_remaining_investor_slots(&self) -> (r: Option<u32>)
        ensures
            r == match self.max_unique_investors_cap {
                None => None::<u32>,
                Some(c) => Some(c.saturating_sub(self.unique_funder_count)),
            },
    {
        match self.max_unique_investors_cap {
            None => None,
            Some(c) => Some(c.saturating_sub(self.unique_funder_count)),
        }
    }

    /// The stored schema version (0 when absent).
    pub fn get_version(&self) -> (v: u32)
        ensures
            v == match self.version { Some(v) => v, None => 0 },
    {
        match self.version {
            Some(v) => v,
            None => 0,
        }
    }

    /// The funding deadline, if any.
    pub fn get_funding_deadline(&self) -> (r: Option<u64>)
        ensures
            r == self.funding_deadline,
    {
        self.funding_deadline
    }

    /// Whether a funding deadline is set and has passed.
    pub fn is_funding_expired(&self, call: &CallContext) -> (b: bool)
        ensures
            b == (self.funding_deadline matches Some(d) && call.timestamp > d),
    {
        match self.funding_deadline {
            Some(d) => call.timestamp > d,
            None => false,
        }
    }

    /// Whether the escrow has a maturity lock.
    pub fn has_maturity_lock(&self) -> (r: Result<bool, Failure>)
        ensures
            r == match self.escrow {
                None => Err::<bool, Failure>(Failure::NotInitialized),
                Some(e) => Ok::<bool, Failure>(e.maturity > 0),
            },
    {
        let escrow = self.get_escrow()?;
        Ok(escrow.maturity > 0)
    }

    /// The minimum contribution floor (0 = none).
    pub fn get_min_contribution_floor(&self) -> (f: i128)
        ensures
            f == self.min_contribution_floor,
    {
        self.min_contribution_floor
    }

    /// The distinct-investor cap, if any.
    pub fn get_max_unique_investors_cap(&self) -> (r: Option<u32>)
        ensures
            r == self.max_unique_investors_cap,
    {
        self.max_unique_investors_cap
    }

    /// The per-investor cap, if any.
    pub fn get_max_per_investor_cap(&self) -> (r: Option<i128>)
        ensures
            r == self.max_per_investor_cap,
    {
        self.max_per_investor_cap
    }

    /// Distinct funders counted so far.
    pub fn get_unique_funder_count(&self) -> (n: u32)
        ensures
            n == self.unique_funder_count,
    {
        self.unique_funder_count
    }
}

} // verus!
