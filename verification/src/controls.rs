//! Operational controls: the scoped pause with its auto-expiry and toggle rate limit, the
//! compliance hold with its two-phase clear, disputes, and close finalization.
use vstd::prelude::*;
use crate::consts::{
    MAX_PAUSE_MAX_DURATION_SECS, MAX_PAUSE_TOGGLE_LIMIT, MAX_PAUSE_TOGGLE_WINDOW_SECS,
    MIN_PAUSE_MAX_DURATION_SECS, MIN_PAUSE_TOGGLE_LIMIT, MIN_PAUSE_TOGGLE_WINDOW_SECS,
};
use crate::errors::{CloseError, EscrowError, Failure};
use crate::state::{auth_gate, fail_if, first, StarfundEscrow, Store};
use crate::types::{
    Addr, CallContext, CloseMetadata, DisputeRecord, DisputeState, PauseReason, PauseScope,
    PauseState,
};

verus! {

impl Store {
    // --------------------------------------------------------------
    // pause

    /// The toggle window a `set_paused` call at `now` counts in, as `(start, toggles so far)`:
    /// a fresh window at `now` when rate limiting is off, no window was opened, or the current
    /// one has elapsed.
    pub open spec fn toggle_window(self, now: u64) -> (u64, u32) {
        if self.pause_toggle_limit == 0 {
            (now, 0)
        } else {
            match self.pause_toggle_window_start {
                None => (now, 0),
                Some(start) => if now >= start.saturating_add(self.pause_toggle_window_secs) {
                    (now, 0)
                } else {
                    (start, self.pause_toggle_count)
                },
            }
        }
    }

    /// The scope of the pause a clear request applies to: the stored scope, or [`PauseScope::All`]
    /// for a pause in force without typed state; `None` when there is nothing to clear.
    pub open spec fn effective_pause_scope(self, now: u64) -> Option<PauseScope> {
        match self.pause_state {
            Some(s) => Some(s.scope),
            None => if self.paused_active_at(now) { Some(PauseScope::All) } else { None },
        }
    }

    pub open spec fn set_paused_gate(self, call: CallContext, active: bool, scope: PauseScope) -> Option<Failure> {
        let now = call.timestamp;
        first(self.admin_gate(call),
        first(fail_if(self.pause_toggle_limit > 0 && self.toggle_window(now).1 >= self.pause_toggle_limit,
                      EscrowError::PauseToggleRateLimitExceeded),
              fail_if(!active && (self.effective_pause_scope(now) matches Some(es) && scope != PauseScope::All && scope != es),
                      EscrowError::PauseScopeMismatch)))
    }

    /// The store with one toggle counted in the current window (when rate limiting is on).
    pub open spec fn count_toggle(self, now: u64) -> Store {
        if self.pause_toggle_limit > 0 {
            let (start, count) = self.toggle_window(now);
            Store { pause_toggle_window_start: Some(start), pause_toggle_count: count.saturating_add(1), ..self }
        } else {
            self
        }
    }

    /// The store after a successful `set_paused`: activation records the typed state and the
    /// activation time; a clear removes both flag and state; clearing when nothing is paused
    /// changes nothing (and counts no toggle).
    pub open spec fn set_paused_post(self, call: CallContext, active: bool, scope: PauseScope, reason: PauseReason) -> Store {
        let now = call.timestamp;
        if active {
            Store {
                pause_state: Some(PauseState { scope, reason, activated_at: now }),
                paused: true,
                paused_at: Some(now),
                ..self.count_toggle(now)
            }
        } else if self.effective_pause_scope(now) is None {
            self
        } else {
            Store { pause_state: None, paused: false, ..self.count_toggle(now) }
        }
    }

    /// The typed pause state in force at `now`; a pause without stored state reads as
    /// `All`/`Incident` since its activation.
    pub open spec fn pause_state_at(self, now: u64) -> Option<PauseState> {
        if !self.paused_active_at(now) {
            None
        } else {
            match self.pause_state {
                Some(s) => Some(s),
                None => Some(PauseState {
                    scope: PauseScope::All,
                    reason: PauseReason::Incident,
                    activated_at: match self.paused_at { Some(t) => t, None => 0 },
                }),
            }
        }
    }

    // --------------------------------------------------------------
    // legal hold

    pub open spec fn set_legal_hold_gate(self, call: CallContext, active: bool, expected_nonce: u32) -> Option<Failure> {
        let releasing = !active && self.legal_hold && self.legal_hold_clear_delay > 0;
        first(self.admin_gate(call),
        first(self.nonce_gate(expected_nonce),
        first(fail_if(releasing && self.legal_hold_clearable_at is None, EscrowError::LegalHoldClearRequestMissing),
              fail_if(releasing && (self.legal_hold_clearable_at matches Some(c) && call.timestamp < c),
                      EscrowError::LegalHoldClearNotReady))))
    }

    /// The store after `set_legal_hold`: the hold set to `active` and any clear request dropped.
    pub open spec fn set_legal_hold_post(self, active: bool) -> Store {
        Store { legal_hold: active, legal_hold_clearable_at: None, ..self.bump_nonce() }
    }

    /// The earliest time a hold clear requested at `now` may apply, if it is representable.
    pub open spec fn clearable_at_from(self, now: u64) -> Option<u64> {
        let d = self.legal_hold_clear_delay;
        if d == 0 {
            Some(now)
        } else if now + d > u64::MAX {
            None
        } else {
            Some((now + d) as u64)
        }
    }

    pub open spec fn request_clear_gate(self, call: CallContext, expected_nonce: u32) -> Option<Failure> {
        first(self.admin_gate(call),
        first(self.nonce_gate(expected_nonce),
              fail_if(self.clearable_at_from(call.timestamp) is None, EscrowError::LegalHoldClearDelayOverflow)))
    }

    // --------------------------------------------------------------
    // disputes

    pub open spec fn open_dispute_gate(self, call: CallContext, caller: Addr) -> Option<Failure> {
        first(self.admin_gate(call),
        first(auth_gate(call, caller),
        first(fail_if(caller != self.esc().admin, EscrowError::DisputeOpenUnauthorized),
              fail_if(self.dispute_active, EscrowError::DisputeAlreadyOpen))))
    }

    pub open spec fn open_dispute_post(self, call: CallContext, caller: Addr) -> Store {
        Store {
            dispute_active: true,
            dispute_record: Some(DisputeRecord {
                opened_at: call.timestamp,
                opened_by: caller,
                state: DisputeState::Open,
                resolved_at: None,
                resolved_by: None,
            }),
            ..self
        }
    }

    pub open spec fn close_dispute_gate(self, call: CallContext, caller: Addr) -> Option<Failure> {
        first(self.admin_gate(call),
        first(auth_gate(call, caller),
        first(fail_if(caller != self.esc().admin, EscrowError::DisputeCloseUnauthorized),
              fail_if(!self.dispute_active || self.dispute_record is None, EscrowError::DisputeNotOpen))))
    }

    /// The store after `close_dispute`: a resolution marks the kept record resolved and lifts
    /// the freeze; otherwise the dispute stays open.
    pub open spec fn close_dispute_post(self, call: CallContext, caller: Addr, resolved: bool) -> Store {
        if resolved {
            let rec = self.dispute_record.unwrap();
            Store {
                dispute_active: false,
                dispute_record: Some(DisputeRecord {
                    state: DisputeState::Resolved,
                    resolved_at: Some(call.timestamp),
                    resolved_by: Some(caller),
                    ..rec
                }),
                ..self
            }
        } else {
            self
        }
    }

    // --------------------------------------------------------------
    // close finalization

    pub open spec fn close_gate(self, call: CallContext, balance: i128) -> Option<Failure> {
        match self.escrow {
            None => Some(Failure::Close(CloseError::NotInitialized)),
            Some(e) => first(auth_gate(call, e.admin),
                       first(if self.closed { Some(Failure::Close(CloseError::AlreadyClosed)) } else { None },
                       first(if self.funding_token is None { Some(Failure::Close(CloseError::NotInitialized)) } else { None },
                       first(if balance > 0 { Some(Failure::Close(CloseError::ActiveBalance)) } else { None },
                             if self.dispute_active { Some(Failure::Close(CloseError::ActiveDispute)) } else { None })))),
        }
    }

    pub open spec fn close_post(self, call: CallContext) -> Store {
        Store {
            closed: true,
            close_metadata: Some(CloseMetadata { admin: self.esc().admin, timestamp: call.timestamp, sequence: call.sequence }),
            ..self
        }
    }
}

impl StarfundEscrow {
    /// Sets or clears the scoped operational pause (admin only).
    ///
    /// Activation stores the scope, reason and activation time. A clear lifts the pause when
    /// `scope` is `All` or the active pause's scope and fails with `PauseScopeMismatch`
    /// otherwise; clearing when nothing is paused changes nothing. With a toggle limit
    /// configured, every call that changes the pause counts against the limit of its window.
    pub fn set_paused(&mut self, call: &CallContext, active: bool, scope: PauseScope, reason: PauseReason) -> (r: Result<(), Failure>)
        ensures
            match old(self)@.set_paused_gate(*call, active, scope) {
                Some(f) => r == Err::<(), Failure>(f) && final(self)@ == old(self)@,
                None => r is Ok && final(self)@ == old(self)@.set_paused_post(*call, active, scope, reason),
            },
    {
        let ghost st = self@;
        let _ = self.load_escrow_require_admin(call)?;
        let now = call.timestamp;
        let limit = self.pause_toggle_limit;
        let (window_start, window_count): (u64, u32) = if limit > 0 {
            match self.pause_toggle_window_start {
                None => (now, 0),
                Some(start) => {
                    if now >= start.saturating_add(self.pause_toggle_window_secs) {
                        (now, 0)
                    } else {
                        (start, self.pause_toggle_count)
                    }
                },
            }
        } else {
            (now, 0)
        };
        if limit > 0 && window_count >= limit {
            return Err(Failure::Escrow(EscrowError::PauseToggleRateLimitExceeded));
        }
        if active {
            self.pause_state = Some(PauseState { scope, reason, activated_at: now });
            self.paused = true;
            self.paused_at = Some(now);
        } else {
            let now_active = self.paused_active(now);
            let effective_scope = match self.pause_state {
                Some(s) => s.scope,
                None => {
                    if now_active {
                        PauseScope::All
                    } else {
                        return Ok(());
                    }
                },
            };
            if scope != PauseScope::All && scope != effective_scope {
                return Err(Failure::Escrow(EscrowError::PauseScopeMismatch));
            }
            self.pause_state = None;
            self.paused = false;
        }
        if limit > 0 {
            self.pause_toggle_window_start = Some(window_start);
            self.pause_toggle_count = window_count.saturating_add(1);
        }
        proof {
            assert(self@ =~= st.set_paused_post(*call, active, scope, reason));
        }
        Ok(())
    }

    /// Sets the pause auto-expiry (admin only): `0` disables it, any other value must lie in
    /// `MIN_PAUSE_MAX_DURATION_SECS..=MAX_PAUSE_MAX_DURATION_SECS`. Returns the new value.
    pub fn set_pause_max_duration(&mut self, call: &CallContext, new_duration_secs: u64) -> (r: Result<u64, Failure>)
        ensures
            match first(old(self)@.admin_gate(*call),
                        fail_if(new_duration_secs != 0 && !(MIN_PAUSE_MAX_DURATION_SECS <= new_duration_secs <= MAX_PAUSE_MAX_DURATION_SECS),
                                EscrowError::PauseMaxDurationOutOfRange)) {
                Some(f) => r == Err::<u64, Failure>(f) && final(self)@ == old(self)@,
                None => r == Ok::<u64, Failure>(new_duration_secs)
                    && final(self)@ == (Store { pause_max_duration_secs: new_duration_secs, ..old(self)@ }),
            },
    {
        let _ = self.load_escrow_require_admin(call)?;
        if new_duration_secs != 0 && !(new_duration_secs >= MIN_PAUSE_MAX_DURATION_SECS && new_duration_secs <= MAX_PAUSE_MAX_DURATION_SECS) {
            return Err(Failure::Escrow(EscrowError::PauseMaxDurationOutOfRange));
        }
        self.pause_max_duration_secs = new_duration_secs;
        Ok(new_duration_secs)
    }

    /// The configured pause auto-expiry (`0` = unlimited).
    pub fn get_pause_max_duration(&self) -> (r: u64)
        ensures
            r == self.pause_max_duration_secs,
    {
        self.pause_max_duration_secs
    }

    /// Configures the toggle rate limit (admin only): `(0, 0)` disables it; otherwise both
    /// values must be non-zero and within their bounds. The current window is reset.
    pub fn set_pause_rate_limit(&mut self, call: &CallContext, max_toggles: u32, window_secs: u64) -> (r: Result<(u32, u64), Failure>)
        ensures
            match first(old(self)@.admin_gate(*call),
                  first(fail_if((max_toggles == 0 || window_secs == 0) && !(max_toggles == 0 && window_secs == 0),
                                EscrowError::PauseRateLimitInvalidCombination),
                  first(fail_if(max_toggles != 0 && window_secs != 0 && !(MIN_PAUSE_TOGGLE_LIMIT <= max_toggles <= MAX_PAUSE_TOGGLE_LIMIT),
                                EscrowError::PauseToggleLimitOutOfRange),
                        fail_if(max_toggles != 0 && window_secs != 0 && !(MIN_PAUSE_TOGGLE_WINDOW_SECS <= window_secs <= MAX_PAUSE_TOGGLE_WINDOW_SECS),
                                EscrowError::PauseToggleWindowOutOfRange)))) {
                Some(f) => r == Err::<(u32, u64), Failure>(f) && final(self)@ == old(self)@,
                None => r == Ok::<(u32, u64), Failure>((max_toggles, window_secs))
                    && final(self)@ == (Store {
                        pause_toggle_limit: max_toggles,
                        pause_toggle_window_secs: window_secs,
                        pause_toggle_window_start: None,
                        pause_toggle_count: 0,
                        ..old(self)@
                    }),
            },
    {
        let _ = self.load_escrow_require_admin(call)?;
        if max_toggles == 0 || window_secs == 0 {
            if !(max_toggles == 0 && window_secs == 0) {
                return Err(Failure::Escrow(EscrowError::PauseRateLimitInvalidCombination));
            }
        } else {
            if !(max_toggles >= MIN_PAUSE_TOGGLE_LIMIT && max_toggles <= MAX_PAUSE_TOGGLE_LIMIT) {
                return Err(Failure::Escrow(EscrowError::PauseToggleLimitOutOfRange));
            }
            if !(window_secs >= MIN_PAUSE_TOGGLE_WINDOW_SECS && window_secs <= MAX_PAUSE_TOGGLE_WINDOW_SECS) {
                return Err(Failure::Escrow(EscrowError::PauseToggleWindowOutOfRange));
            }
        }
        self.pause_toggle_limit = max_toggles;
        self.pause_toggle_window_secs = window_secs;
        self.pause_toggle_window_start = None;
        self.pause_toggle_count = 0;
        Ok((max_toggles, window_secs))
    }

    /// The toggle rate limit as `(max_toggles, window_secs)`; `(0, 0)` means unlimited.
    pub fn get_pause_rate_limit(&self) -> (r: (u32, u64))
        ensures
            r == (self.pause_toggle_limit, self.pause_toggle_window_secs),
    {
        (self.pause_toggle_limit, self.pause_toggle_window_secs)
    }

    /// The time of the latest activation, if any.
    pub fn get_paused_at(&self) -> (r: Option<u64>)
        ensures
            r == self.paused_at,
    {
        self.paused_at
    }

    /// Whether the operational pause is in force at the invocation's time.
    pub fn is_paused(&self, call: &CallContext) -> (b: bool)
        ensures
            b == self@.paused_active_at(call.timestamp),
    {
        self.paused_active(call.timestamp)
    }

    /// The typed pause in force, if any.
    pub fn get_pause_state(&self, call: &CallContext) -> (r: Option<PauseState>)
        ensures
            r == self@.pause_state_at(call.timestamp),
    {
        if !self.paused_active(call.timestamp) {
            return None;
        }
        match self.pause_state {
            Some(s) => Some(s),
            None => {
                let activated_at: u64 = match self.paused_at {
                    Some(t) => t,
                    None => 0,
                };
                Some(PauseState { scope: PauseScope::All, reason: PauseReason::Incident, activated_at })
            },
        }
    }

    /// Sets or lifts the compliance hold (admin, with the admin nonce). With a clear delay
    /// configured, lifting an active hold needs a clear request whose time has come. Any
    /// pending request is dropped.
    pub fn set_legal_hold(&mut self, call: &CallContext, active: bool, expected_nonce: u32) -> (r: Result<(), Failure>)
        ensures
            match old(self)@.set_legal_hold_gate(*call, active, expected_nonce) {
                Some(f) => r == Err::<(), Failure>(f) && final(self)@ == old(self)@,
                None => r is Ok && final(self)@ == old(self)@.set_legal_hold_post(active),
            },
    {
        let _ = self.load_escrow_require_admin(call)?;
        let next = self.check_admin_nonce(expected_nonce)?;
        if !active && self.legal_hold {
            let delay = self.legal_hold_clear_delay;
            if delay > 0 {
                match self.legal_hold_clearable_at {
                    None => {
                        return Err(Failure::Escrow(EscrowError::LegalHoldClearRequestMissing));
                    },
                    Some(c) => {
                        if call.timestamp < c {
                            return Err(Failure::Escrow(EscrowError::LegalHoldClearNotReady));
                        }
                    },
                }
            }
        }
        self.admin_nonce = next;
        self.legal_hold_clearable_at = None;
        self.legal_hold = active;
        Ok(())
    }

    /// Lifts the compliance hold; the same as `set_legal_hold` with `active = false`.
    pub fn clear_legal_hold(&mut self, call: &CallContext, expected_nonce: u32) -> (r: Result<(), Failure>)
        ensures
            match old(self)@.set_legal_hold_gate(*call, false, expected_nonce) {
                Some(f) => r == Err::<(), Failure>(f) && final(self)@ == old(self)@,
                None => r is Ok && final(self)@ == old(self)@.set_legal_hold_post(false),
            },
    {
        self.set_legal_hold(call, false, expected_nonce)
    }

    /// Schedules a hold clear (admin, with the admin nonce): it may apply from `now + delay`,
    /// which is returned.
    pub fn request_clear_legal_hold(&mut self, call: &CallContext, expected_nonce: u32) -> (r: Result<u64, Failure>)
        ensures
            match old(self)@.request_clear_gate(*call, expected_nonce) {
                Some(f) => r == Err::<u64, Failure>(f) && final(self)@ == old(self)@,
                None => {
                    let c = old(self)@.clearable_at_from(call.timestamp).unwrap();
                    &&& r == Ok::<u64, Failure>(c)
                    &&& final(self)@ == (Store { legal_hold_clearable_at: Some(c), ..old(self)@.bump_nonce() })
                },
            },
    {
        let _ = self.load_escrow_require_admin(call)?;
        let next = self.check_admin_nonce(expected_nonce)?;
        let now = call.timestamp;
        let delay = self.legal_hold_clear_delay;
        let clearable_at = if delay == 0 {
            now
        } else {
            match now.checked_add(delay) {
                Some(t) => t,
                None => {
                    return Err(Failure::Escrow(EscrowError::LegalHoldClearDelayOverflow));
                },
            }
        };
        self.admin_nonce = next;
        self.legal_hold_clearable_at = Some(clearable_at);
        Ok(clearable_at)
    }

    /// Whether the compliance hold is set.
    pub fn get_legal_hold(&self) -> (b: bool)
        ensures
            b == self.legal_hold,
    {
        self.legal_hold
    }

    /// The configured delay between a clear request and the clear.
    pub fn get_legal_hold_clear_delay(&self) -> (d: u64)
        ensures
            d == self.legal_hold_clear_delay,
    {
        self.legal_hold_clear_delay
    }

    /// The earliest time a requested clear may apply, if a request is pending.
    pub fn get_legal_hold_clearable_at(&self) -> (r: Option<u64>)
        ensures
            r == self.legal_hold_clearable_at,
    {
        self.legal_hold_clearable_at
    }

    /// Opens a dispute (admin only), freezing value-moving flows; the record is kept.
    pub fn open_dispute(&mut self, call: &CallContext, caller: Addr) -> (r: Result<(), Failure>)
        ensures
            match old(self)@.open_dispute_gate(*call, caller) {
                Some(f) => r == Err::<(), Failure>(f) && final(self)@ == old(self)@,
                None => r is Ok && final(self)@ == old(self)@.open_dispute_post(*call, caller),
            },
    {
        let escrow = self.load_escrow_require_admin(call)?;
        StarfundEscrow::require_auth(call, caller)?;
        if caller != escrow.admin {
            return Err(Failure::Escrow(EscrowError::DisputeOpenUnauthorized));
        }
        if self.dispute_active {
            return Err(Failure::Escrow(EscrowError::DisputeAlreadyOpen));
        }
        self.dispute_active = true;
        self.dispute_record = Some(DisputeRecord {
            opened_at: call.timestamp,
            opened_by: caller,
            state: DisputeState::Open,
            resolved_at: None,
            resolved_by: None,
        });
        Ok(())
    }

    /// Closes an open dispute (admin only). With `resolved` the record is marked resolved and
    /// the freeze lifted; otherwise the dispute stays open.
    pub fn close_dispute(&mut self, call: &CallContext, caller: Addr, resolved: bool) -> (r: Result<(), Failure>)
        ensures
            match old(self)@.close_dispute_gate(*call, caller) {
                Some(f) => r == Err::<(), Failure>(f) && final(self)@ == old(self)@,
                None => r is Ok && final(self)@ == old(self)@.close_dispute_post(*call, caller, resolved),
            },
    {
        let escrow = self.load_escrow_require_admin(call)?;
        StarfundEscrow::require_auth(call, caller)?;
        if caller != escrow.admin {
            return Err(Failure::Escrow(EscrowError::DisputeCloseUnauthorized));
        }
        if !self.dispute_active {
            return Err(Failure::Escrow(EscrowError::DisputeNotOpen));
        }
        let record = match self.dispute_record {
            Some(rec) => rec,
            None => {
                return Err(Failure::Escrow(EscrowError::DisputeNotOpen));
            },
        };
        if resolved {
            self.dispute_record = Some(DisputeRecord {
                state: DisputeState::Resolved,
                resolved_at: Some(call.timestamp),
                resolved_by: Some(caller),
                ..record
            });
            self.dispute_active = false;
        }
        Ok(())
    }

    /// Whether a dispute freeze is in force.
    pub fn is_dispute_active(&self) -> (b: bool)
        ensures
            b == self.dispute_active,
    {
        self.dispute_active
    }

    /// The dispute record, once a dispute was opened.
    pub fn get_dispute_record(&self) -> (r: Option<DisputeRecord>)
        ensures
            r == self.dispute_record,
    {
        self.dispute_record
    }

    /// Sets the dispute flag carried in the escrow snapshot (admin only).
    pub fn set_dispute_active(&mut self, call: &CallContext, active: bool) -> (r: Result<(), Failure>)
        ensures
            match old(self)@.escrow {
                None => r == Err::<(), Failure>(Failure::Close(CloseError::NotInitialized)) && final(self)@ == old(self)@,
                Some(e) => match auth_gate(*call, e.admin) {
                    Some(f) => r == Err::<(), Failure>(f) && final(self)@ == old(self)@,
                    None => r is Ok && final(self)@ == old(self)@.with_escrow(
                        crate::types::InvoiceEscrow { dispute_active: active, ..e }),
                },
            },
    {
        let mut escrow = match self.escrow {
            Some(e) => e,
            None => {
                return Err(Failure::Close(CloseError::NotInitialized));
            },
        };
        StarfundEscrow::require_auth(call, escrow.admin)?;
        escrow.dispute_active = active;
        self.escrow = Some(escrow);
        Ok(())
    }

    /// Finalizes the escrow once (admin only): the contract must hold no funding-token
    /// `balance` and no dispute may be flagged. Records who closed it and when.
    pub fn close_escrow(&mut self, call: &CallContext, balance: i128) -> (r: Result<CloseMetadata, Failure>)
        ensures
            match old(self)@.close_gate(*call, balance) {
                Some(f) => r == Err::<CloseMetadata, Failure>(f) && final(self)@ == old(self)@,
                None => final(self)@ == old(self)@.close_post(*call) && r == Ok::<CloseMetadata, Failure>(final(self)@.close_metadata.unwrap()),
            },
    {
        let escrow = match self.escrow {
            Some(e) => e,
            None => {
                return Err(Failure::Close(CloseError::NotInitialized));
            },
        };
        StarfundEscrow::require_auth(call, escrow.admin)?;
        if self.closed {
            return Err(Failure::Close(CloseError::AlreadyClosed));
        }
        if self.funding_token.is_none() {
            return Err(Failure::Close(CloseError::NotInitialized));
        }
        if balance > 0 {
            return Err(Failure::Close(CloseError::ActiveBalance));
        }
        if self.dispute_active {
            return Err(Failure::Close(CloseError::ActiveDispute));
        }
        let metadata = CloseMetadata { admin: escrow.admin, timestamp: call.timestamp, sequence: call.sequence };
        self.closed = true;
        self.close_metadata = Some(metadata);
        Ok(metadata)
    }

    /// The close metadata, once closed.
    pub fn get_closure_metadata(&self) -> (r: Option<CloseMetadata>)
        ensures
            r == self.close_metadata,
    {
        self.close_metadata
    }
}

} // verus!
