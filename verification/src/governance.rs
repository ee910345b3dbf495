//! Roles and configuration held by the admin: the two-step admin handover, beneficiary and
//! payer rotation, the registry hint, the protocol fee and the bounded fee schedule.
use vstd::prelude::*;
use crate::consts::DEFAULT_ADMIN_PROPOSAL_VALIDITY_SECS;
use crate::errors::{EscrowError, FeeScheduleError, Failure};
use crate::state::{auth_gate, fail_if, first, StarfundEscrow, Store};
use crate::types::{Addr, CallContext, FeeSchedule, InvoiceEscrow};

verus! {

impl Store {
    // --------------------------------------------------------------
    // admin handover

    pub open spec fn propose_admin_gate(self, call: CallContext, new_admin: Addr, expected_nonce: u32) -> Option<Failure> {
        first(self.admin_gate(call),
        first(self.nonce_gate(expected_nonce),
        first(fail_if(self.esc().admin == new_admin, EscrowError::NewAdminSameAsCurrent),
              fail_if(self.pending_admin == Some(new_admin), EscrowError::PendingAdminUnchanged))))
    }

    /// The store after a proposal: the successor is pending until `now + 7 days` (saturating).
    pub open spec fn propose_admin_post(self, call: CallContext, new_admin: Addr) -> Store {
        Store {
            pending_admin: Some(new_admin),
            pending_admin_expiry: Some(call.timestamp.saturating_add(DEFAULT_ADMIN_PROPOSAL_VALIDITY_SECS)),
            ..self.bump_nonce()
        }
    }

    pub open spec fn accept_admin_gate(self, call: CallContext) -> Option<Failure> {
        first(fail_if(self.pending_admin is None, EscrowError::NoPendingAdmin),
        first(fail_if(self.pending_admin_expiry matches Some(x) && call.timestamp > x, EscrowError::AdminProposalExpired),
        first(auth_gate(call, self.pending_admin.unwrap()),
              self.init_gate())))
    }

    /// The store after acceptance: the pending successor becomes the admin and the proposal
    /// is removed.
    pub open spec fn accept_admin_post(self) -> Store {
        Store {
            escrow: Some(InvoiceEscrow { admin: self.pending_admin.unwrap(), ..self.esc() }),
            pending_admin: None,
            pending_admin_expiry: None,
            ..self
        }
    }

    /// The store with no admin proposal.
    pub open spec fn without_proposal(self) -> Store {
        Store { pending_admin: None, pending_admin_expiry: None, ..self }
    }

    pub open spec fn cancel_pending_gate(self, call: CallContext, expected_nonce: u32) -> Option<Failure> {
        first(self.admin_gate(call),
        first(self.nonce_gate(expected_nonce),
              fail_if(self.pending_admin is None, EscrowError::NoPendingAdmin)))
    }

    pub open spec fn recover_admin_gate(self, call: CallContext) -> Option<Failure> {
        first(self.admin_gate(call),
        first(fail_if(self.pending_admin is None, EscrowError::NoPendingAdmin),
              fail_if(match self.pending_admin_expiry { None => true, Some(x) => call.timestamp <= x },
                      EscrowError::AdminRecoveryNotExpired)))
    }

    // --------------------------------------------------------------
    // rotations

    pub open spec fn rotate_beneficiary_gate(self, call: CallContext, new_sme: Addr, expected_nonce: u32) -> Option<Failure> {
        let e = self.esc();
        first(fail_if(self.legal_hold, EscrowError::LegalHoldBlocksBeneficiaryRotation),
        first(self.init_gate(),
        first(fail_if(!(e.status == 0 || e.status == 1), EscrowError::RotationNotOpen),
        first(fail_if(e.funded_amount != 0, EscrowError::BeneficiaryImmutableAfterFunding),
        first(fail_if(new_sme == e.sme_address, EscrowError::NewSmeSameAsCurrent),
        first(auth_gate(call, e.sme_address),
        first(auth_gate(call, e.admin),
              self.nonce_gate(expected_nonce))))))))
    }

    pub open spec fn rotate_payer_gate(self, call: CallContext, new_payer: Addr) -> Option<Failure> {
        let e = self.esc();
        first(fail_if(self.legal_hold, EscrowError::LegalHoldBlocksPayerRotation),
        first(self.init_gate(),
        first(fail_if(!(e.status == 0 || e.status == 1), EscrowError::PayerRotationNotOpen),
        first(fail_if(new_payer == e.payer, EscrowError::NewPayerSameAsCurrent),
        first(auth_gate(call, e.payer),
              auth_gate(call, e.admin))))))
    }

    // --------------------------------------------------------------
    // fee schedule

    /// The store after promoting a pending schedule whose activation ledger is reached at
    /// ledger `seq`: it becomes active and the prior active one is kept as previous.
    pub open spec fn activate_post(self, seq: u32) -> Store {
        match self.fee_pending {
            Some(p) => if p.activation_ledger <= seq {
                Store { fee_active: Some(p), fee_previous: self.fee_active, fee_pending: None, ..self }
            } else {
                self
            },
            None => self,
        }
    }

    /// Whether a pending schedule is due at ledger `seq`.
    pub open spec fn schedule_due(self, seq: u32) -> bool {
        self.fee_pending matches Some(p) && p.activation_ledger <= seq
    }

    pub open spec fn submit_schedule_gate(self, call: CallContext, schedule: FeeSchedule) -> Option<Failure> {
        match self.escrow {
            None => Some(Failure::FeeSchedule(FeeScheduleError::NotInitialized)),
            Some(e) => first(auth_gate(call, e.admin),
                       first(if schedule.min_fee_bps > schedule.fee_bps || schedule.fee_bps > schedule.max_fee_bps
                                || schedule.max_fee_bps > 10_000 {
                                 Some(Failure::FeeSchedule(FeeScheduleError::FeeOutOfBounds))
                             } else { None },
                       first(if schedule.activation_ledger <= call.sequence {
                                 Some(Failure::FeeSchedule(FeeScheduleError::InvalidActivationLedger))
                             } else { None },
                             {
                                 let s2 = self.activate_post(call.sequence);
                                 if s2.fee_pending is Some && s2.fee_pending != Some(schedule) {
                                     Some(Failure::FeeSchedule(FeeScheduleError::PendingScheduleExists))
                                 } else { None }
                             }))),
        }
    }

    /// The store after a submission: any due schedule is promoted first, then `schedule`
    /// becomes the pending one (re-submitting the pending schedule changes nothing more).
    pub open spec fn submit_schedule_post(self, call: CallContext, schedule: FeeSchedule) -> Store {
        Store { fee_pending: Some(schedule), ..self.activate_post(call.sequence) }
    }
}

impl StarfundEscrow {
    /// Proposes a successor admin (admin, with the admin nonce), valid for seven days.
    /// Returns the proposed address.
    pub fn propose_admin(&mut self, call: &CallContext, new_admin: Addr, expected_nonce: u32) -> (r: Result<Addr, Failure>)
        ensures
            match old(self)@.propose_admin_gate(*call, new_admin, expected_nonce) {
                Some(f) => r == Err::<Addr, Failure>(f) && final(self)@ == old(self)@,
                None => r == Ok::<Addr, Failure>(new_admin) && final(self)@ == old(self)@.propose_admin_post(*call, new_admin),
            },
    {
        let escrow = self.load_escrow_require_admin(call)?;
        let next = self.check_admin_nonce(expected_nonce)?;
        if escrow.admin == new_admin {
            return Err(Failure::Escrow(EscrowError::NewAdminSameAsCurrent));
        }
        if let Some(pending) = self.pending_admin {
            if pending == new_admin {
                return Err(Failure::Escrow(EscrowError::PendingAdminUnchanged));
            }
        }
        self.admin_nonce = next;
        self.pending_admin = Some(new_admin);
        self.pending_admin_expiry = Some(call.timestamp.saturating_add(DEFAULT_ADMIN_PROPOSAL_VALIDITY_SECS));
        Ok(new_admin)
    }

    /// The pending successor accepts the handover before the proposal expires and becomes the
    /// admin.
    pub fn accept_admin(&mut self, call: &CallContext) -> (r: Result<InvoiceEscrow, Failure>)
        ensures
            match old(self)@.accept_admin_gate(*call) {
                Some(f) => r == Err::<InvoiceEscrow, Failure>(f) && final(self)@ == old(self)@,
                None => final(self)@ == old(self)@.accept_admin_post() && r == Ok::<InvoiceEscrow, Failure>(final(self)@.esc()),
            },
    {
        let pending = match self.pending_admin {
            Some(p) => p,
            None => {
                return Err(Failure::Escrow(EscrowError::NoPendingAdmin));
            },
        };
        if let Some(expiry) = self.pending_admin_expiry {
            if call.timestamp > expiry {
                return Err(Failure::Escrow(EscrowError::AdminProposalExpired));
            }
        }
        StarfundEscrow::require_auth(call, pending)?;
        let mut escrow = self.get_escrow()?;
        escrow.admin = pending;
        self.escrow = Some(escrow);
        self.pending_admin = None;
        self.pending_admin_expiry = None;
        Ok(escrow)
    }

    /// The former one-step transfer: only proposes `new_admin`, exactly as `propose_admin`,
    /// and returns the (unchanged) escrow.
    pub fn transfer_admin(&mut self, call: &CallContext, new_admin: Addr, expected_nonce: u32) -> (r: Result<InvoiceEscrow, Failure>)
        ensures
            match old(self)@.propose_admin_gate(*call, new_admin, expected_nonce) {
                Some(f) => r == Err::<InvoiceEscrow, Failure>(f) && final(self)@ == old(self)@,
                None => r == Ok::<InvoiceEscrow, Failure>(old(self)@.esc())
                    && final(self)@ == old(self)@.propose_admin_post(*call, new_admin),
            },
    {
        self.propose_admin(call, new_admin, expected_nonce)?;
        self.get_escrow()
    }

    /// Cancels the pending proposal (admin, with the admin nonce); returns the revoked address.
    pub fn cancel_pending_admin(&mut self, call: &CallContext, expected_nonce: u32) -> (r: Result<Addr, Failure>)
        ensures
            match old(self)@.cancel_pending_gate(*call, expected_nonce) {
                Some(f) => r == Err::<Addr, Failure>(f) && final(self)@ == old(self)@,
                None => r == Ok::<Addr, Failure>(old(self)@.pending_admin.unwrap())
                    && final(self)@ == old(self)@.bump_nonce().without_proposal(),
            },
    {
        let _ = self.load_escrow_require_admin(call)?;
        let next = self.check_admin_nonce(expected_nonce)?;
        let cancelled = match self.pending_admin {
            Some(p) => p,
            None => {
                return Err(Failure::Escrow(EscrowError::NoPendingAdmin));
            },
        };
        self.admin_nonce = next;
        self.pending_admin = None;
        self.pending_admin_expiry = None;
        Ok(cancelled)
    }

    /// Clears a proposal whose validity window has passed (admin only); returns the abandoned
    /// address.
    pub fn recover_admin(&mut self, call: &CallContext) -> (r: Result<Addr, Failure>)
        ensures
            match old(self)@.recover_admin_gate(*call) {
                Some(f) => r == Err::<Addr, Failure>(f) && final(self)@ == old(self)@,
                None => r == Ok::<Addr, Failure>(old(self)@.pending_admin.unwrap())
                    && final(self)@ == old(self)@.without_proposal(),
            },
    {
        let _ = self.load_escrow_require_admin(call)?;
        let pending = match self.pending_admin {
            Some(p) => p,
            None => {
                return Err(Failure::Escrow(EscrowError::NoPendingAdmin));
            },
        };
        let expiry = match self.pending_admin_expiry {
            Some(x) => x,
            None => {
                return Err(Failure::Escrow(EscrowError::AdminRecoveryNotExpired));
            },
        };
        if call.timestamp <= expiry {
            return Err(Failure::Escrow(EscrowError::AdminRecoveryNotExpired));
        }
        self.pending_admin = None;
        self.pending_admin_expiry = None;
        Ok(pending)
    }

    /// The pending successor, if a handover is in progress.
    pub fn get_pending_admin(&self) -> (r: Option<Addr>)
        ensures
            r == self.pending_admin,
    {
        self.pending_admin
    }

    /// The expiry of the pending proposal, if any.
    pub fn get_pending_admin_expiry(&self) -> (r: Option<u64>)
        ensures
            r == self.pending_admin_expiry,
    {
        self.pending_admin_expiry
    }

    /// Seconds left before the pending proposal expires (0 once expired); `None` without a
    /// proposal.
    pub fn get_pending_admin_remaining_secs(&self, call: &CallContext) -> (r: Option<u64>)
        ensures
            r == if self.pending_admin is None {
                None::<u64>
            } else {
                let x: u64 = match self.pending_admin_expiry { Some(x) => x, None => 0 };
                if call.timestamp >= x { Some(0u64) } else { Some((x - call.timestamp) as u64) }
            },
    {
        if self.pending_admin.is_none() {
            return None;
        }
        let expiry: u64 = match self.pending_admin_expiry {
            Some(x) => x,
            None => 0,
        };
        if call.timestamp >= expiry {
            Some(0)
        } else {
            Some(expiry - call.timestamp)
        }
    }

    /// The admin nonce the next nonce-protected call must present.
    pub fn get_admin_nonce(&self) -> (n: u32)
        ensures
            n == self.admin_nonce,
    {
        self.admin_nonce
    }

    /// Rotates the beneficiary before any funding (SME and admin both authorize, with the
    /// admin nonce).
    pub fn rotate_beneficiary(&mut self, call: &CallContext, new_sme_address: Addr, expected_nonce: u32) -> (r: Result<InvoiceEscrow, Failure>)
        ensures
            match old(self)@.rotate_beneficiary_gate(*call, new_sme_address, expected_nonce) {
                Some(f) => r == Err::<InvoiceEscrow, Failure>(f) && final(self)@ == old(self)@,
                None => final(self)@ == old(self)@.bump_nonce().with_escrow(InvoiceEscrow { sme_address: new_sme_address, ..old(self)@.esc() })
                    && r == Ok::<InvoiceEscrow, Failure>(final(self)@.esc()),
            },
    {
        if self.legal_hold {
            return Err(Failure::Escrow(EscrowError::LegalHoldBlocksBeneficiaryRotation));
        }
        let mut escrow = self.get_escrow()?;
        if !(escrow.status == 0 || escrow.status == 1) {
            return Err(Failure::Escrow(EscrowError::RotationNotOpen));
        }
        if escrow.funded_amount != 0 {
            return Err(Failure::Escrow(EscrowError::BeneficiaryImmutableAfterFunding));
        }
        if new_sme_address == escrow.sme_address {
            return Err(Failure::Escrow(EscrowError::NewSmeSameAsCurrent));
        }
        StarfundEscrow::require_auth(call, escrow.sme_address)?;
        StarfundEscrow::require_auth(call, escrow.admin)?;
        let next = self.check_admin_nonce(expected_nonce)?;
        self.admin_nonce = next;
        escrow.sme_address = new_sme_address;
        self.escrow = Some(escrow);
        Ok(escrow)
    }

    /// Rotates the payer before settlement (payer and admin both authorize).
    pub fn rotate_payer(&mut self, call: &CallContext, new_payer: Addr) -> (r: Result<InvoiceEscrow, Failure>)
        ensures
            match old(self)@.rotate_payer_gate(*call, new_payer) {
                Some(f) => r == Err::<InvoiceEscrow, Failure>(f) && final(self)@ == old(self)@,
                None => final(self)@ == old(self)@.with_escrow(InvoiceEscrow { payer: new_payer, ..old(self)@.esc() })
                    && r == Ok::<InvoiceEscrow, Failure>(final(self)@.esc()),
            },
    {
        if self.legal_hold {
            return Err(Failure::Escrow(EscrowError::LegalHoldBlocksPayerRotation));
        }
        let mut escrow = self.get_escrow()?;
        if !(escrow.status == 0 || escrow.status == 1) {
            return Err(Failure::Escrow(EscrowError::PayerRotationNotOpen));
        }
        if new_payer == escrow.payer {
            return Err(Failure::Escrow(EscrowError::NewPayerSameAsCurrent));
        }
        StarfundEscrow::require_auth(call, escrow.payer)?;
        StarfundEscrow::require_auth(call, escrow.admin)?;
        escrow.payer = new_payer;
        self.escrow = Some(escrow);
        Ok(escrow)
    }

    /// The funding token bound at init.
    pub fn get_funding_token(&self) -> (r: Result<Addr, Failure>)
        ensures
            r == match self.funding_token {
                Some(t) => Ok::<Addr, Failure>(t),
                None => Err::<Addr, Failure>(Failure::Escrow(EscrowError::FundingTokenNotSet)),
            },
    {
        match self.funding_token {
            Some(t) => Ok(t),
            None => Err(Failure::Escrow(EscrowError::FundingTokenNotSet)),
        }
    }

    /// The treasury bound at init.
    pub fn get_treasury(&self) -> (r: Result<Addr, Failure>)
        ensures
            r == match self.treasury {
                Some(t) => Ok::<Addr, Failure>(t),
                None => Err::<Addr, Failure>(Failure::Escrow(EscrowError::TreasuryNotSet)),
            },
    {
        match self.treasury {
            Some(t) => Ok(t),
            None => Err(Failure::Escrow(EscrowError::TreasuryNotSet)),
        }
    }

    /// The off-chain registry hint, if any.
    pub fn get_registry_ref(&self) -> (r: Option<Addr>)
        ensures
            r == self.registry_ref,
    {
        self.registry_ref
    }

    /// Rebinds (or, with `None`, clears) the registry hint; the admin may do so at any time.
    pub fn rebind_registry_ref(&mut self, call: &CallContext, registry: Option<Addr>) -> (r: Result<(), Failure>)
        ensures
            match old(self)@.admin_gate(*call) {
                Some(f) => r == Err::<(), Failure>(f) && final(self)@ == old(self)@,
                None => r is Ok && final(self)@ == (Store { registry_ref: registry, ..old(self)@ }),
            },
    {
        self.load_escrow_require_admin(call)?;
        self.registry_ref = registry;
        Ok(())
    }

    /// Clears the registry hint; the same as `rebind_registry_ref` with `None`.
    pub fn clear_registry_ref(&mut self, call: &CallContext) -> (r: Result<(), Failure>)
        ensures
            match old(self)@.admin_gate(*call) {
                Some(f) => r == Err::<(), Failure>(f) && final(self)@ == old(self)@,
                None => r is Ok && final(self)@ == (Store { registry_ref: None, ..old(self)@ }),
            },
    {
        self.rebind_registry_ref(call, None)
    }

    /// The protocol fee applied at withdrawal.
    pub fn get_protocol_fee_bps(&self) -> (f: i64)
        ensures
            f == self.protocol_fee_bps,
    {
        self.protocol_fee_bps
    }

    /// Sets the protocol fee (admin only) within `0..=10_000`; returns the fee in force.
    pub fn set_protocol_fee_bps(&mut self, call: &CallContext, new_fee_bps: i64) -> (r: Result<i64, Failure>)
        ensures
            match first(old(self)@.admin_gate(*call), fail_if(!(0 <= new_fee_bps <= 10_000), EscrowError::ProtocolFeeBpsOutOfRange)) {
                Some(f) => r == Err::<i64, Failure>(f) && final(self)@ == old(self)@,
                None => r == Ok::<i64, Failure>(new_fee_bps) && final(self)@ == (Store { protocol_fee_bps: new_fee_bps, ..old(self)@ }),
            },
    {
        let _ = self.load_escrow_require_admin(call)?;
        if !(new_fee_bps >= 0 && new_fee_bps <= 10_000) {
            return Err(Failure::Escrow(EscrowError::ProtocolFeeBpsOutOfRange));
        }
        if new_fee_bps == self.protocol_fee_bps {
            return Ok(new_fee_bps);
        }
        self.protocol_fee_bps = new_fee_bps;
        Ok(new_fee_bps)
    }

    /// Promotes the pending schedule once its activation ledger is reached (anyone may call);
    /// returns whether one was promoted.
    pub fn activate_fee_schedule(&mut self, call: &CallContext) -> (b: bool)
        ensures
            b == old(self)@.schedule_due(call.sequence),
            final(self)@ == old(self)@.activate_post(call.sequence),
    {
        if let Some(p) = self.fee_pending {
            if p.activation_ledger <= call.sequence {
                self.fee_previous = self.fee_active;
                self.fee_active = Some(p);
                self.fee_pending = None;
                return true;
            }
        }
        false
    }

    /// Submits a pending fee schedule (admin only): bounds `min <= fee <= max <= 10_000`, an
    /// activation ledger after the current one, and no other pending schedule (re-submitting
    /// the same one is accepted). A due schedule is promoted first.
    pub fn submit_fee_schedule(&mut self, call: &CallContext, schedule: FeeSchedule) -> (r: Result<(), Failure>)
        ensures
            match old(self)@.submit_schedule_gate(*call, schedule) {
                Some(f) => r == Err::<(), Failure>(f) && final(self)@ == old(self)@,
                None => r is Ok && final(self)@ == old(self)@.submit_schedule_post(*call, schedule),
            },
    {
        let escrow = match self.escrow {
            Some(e) => e,
            None => {
                return Err(Failure::FeeSchedule(FeeScheduleError::NotInitialized));
            },
        };
        StarfundEscrow::require_auth(call, escrow.admin)?;
        if schedule.min_fee_bps > schedule.fee_bps || schedule.fee_bps > schedule.max_fee_bps || schedule.max_fee_bps > 10_000 {
            return Err(Failure::FeeSchedule(FeeScheduleError::FeeOutOfBounds));
        }
        if schedule.activation_ledger <= call.sequence {
            return Err(Failure::FeeSchedule(FeeScheduleError::InvalidActivationLedger));
        }
        let due = match self.fee_pending {
            Some(p) => p.activation_ledger <= call.sequence,
            None => false,
        };
        let pending_after = if due { None } else { self.fee_pending };
        if let Some(p) = pending_after {
            if p != schedule {
                return Err(Failure::FeeSchedule(FeeScheduleError::PendingScheduleExists));
            }
        }
        self.activate_fee_schedule(call);
        self.fee_pending = Some(schedule);
        Ok(())
    }

    /// The schedule in force at the current ledger, counting a due pending schedule.
    pub fn get_active_fee_schedule(&self, call: &CallContext) -> (r: Option<FeeSchedule>)
        ensures
            r == if self@.schedule_due(call.sequence) { self.fee_pending } else { self.fee_active },
    {
        match self.fee_pending {
            Some(p) => if p.activation_ledger <= call.sequence { Some(p) } else { self.fee_active },
            None => self.fee_active,
        }
    }

    /// The schedule waiting for a future ledger, if any.
    pub fn get_pending_fee_schedule(&self, call: &CallContext) -> (r: Option<FeeSchedule>)
        ensures
            r == if self.fee_pending matches Some(p) && p.activation_ledger > call.sequence { self.fee_pending } else { None },
    {
        match self.fee_pending {
            Some(p) => if p.activation_ledger > call.sequence { Some(p) } else { None },
            None => None,
        }
    }

    /// The schedule that was in force before the latest activation, counting a due pending
    /// schedule.
    pub fn get_previous_fee_schedule(&self, call: &CallContext) -> (r: Option<FeeSchedule>)
        ensures
            r == if self@.schedule_due(call.sequence) { self.fee_active } else { self.fee_previous },
    {
        match self.fee_pending {
            Some(p) => if p.activation_ledger <= call.sequence { self.fee_active } else { self.fee_previous },
            None => self.fee_previous,
        }
    }
}

} // verus!
