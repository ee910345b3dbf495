//! Principal intake: funding, batch funding and pre-close withdrawal of principal.
use vstd::prelude::*;
use crate::book::InvestorRecord;
use crate::consts::{MAX_FUND_BATCH, MAX_UNIQUE_INVESTORS};
use crate::errors::{EscrowError, Failure};
use crate::rules::{
    decimal_scale_ok, effective_yield_for_commitment, fits_i128, spec_resolution,
    validate_decimal_scale,
};
use crate::state::{auth_gate, fail_if, first, StarfundEscrow, Store};
use crate::types::{Addr, CallContext, FundingCloseSnapshot, InvoiceEscrow, PauseEntry};

verus! {

impl Store {
    /// The guards of a funding call, in the order they are checked.
    pub open spec fn fund_gate(self, call: CallContext, investor: Addr, amount: i128, simple: bool, lock: u64) -> Option<Failure> {
        let now = call.timestamp;
        let e = self.esc();
        let prev = self.contribution_of(investor);
        let newc = prev + amount;
        let count = self.unique_funder_count;
        let claim_nb: int = if lock == 0 { 0 } else { now + lock };
        first(fail_if(self.paused_blocks_at(now, PauseEntry::Funding), EscrowError::PausedBlocksFunding),
        first(auth_gate(call, investor),
        first(fail_if(amount <= 0, EscrowError::FundingAmountNotPositive),
        first(fail_if(self.token_decimals matches Some(d) && !decimal_scale_ok(amount, d), EscrowError::FundingTokenScaleInvalid),
        first(fail_if(self.min_contribution_floor > 0 && amount < self.min_contribution_floor, EscrowError::FundingBelowMinContribution),
        first(self.init_gate(),
        first(fail_if(self.legal_hold, EscrowError::LegalHoldBlocksFunding),
        first(fail_if(e.status != 0, EscrowError::EscrowNotOpenForFunding),
        first(fail_if(self.funding_deadline matches Some(d) && now > d, EscrowError::FundingDeadlinePassed),
        first(fail_if(self.allowlist_active && !(self.investors)(investor).is_allowlisted(), EscrowError::InvestorNotAllowlisted),
        first(fail_if(!fits_i128(newc), EscrowError::InvestorContributionOverflow),
        first(fail_if(self.max_per_investor_cap matches Some(c) && newc > c, EscrowError::InvestorContributionExceedsCap),
        first(fail_if(prev == 0 && count >= MAX_UNIQUE_INVESTORS, EscrowError::UniqueInvestorHardCapReached),
        first(fail_if(prev == 0 && (self.max_unique_investors_cap matches Some(c) && count >= c), EscrowError::UniqueInvestorCapReached),
        first(fail_if(!simple && prev != 0, EscrowError::TieredSecondDeposit),
        first(fail_if(!simple && claim_nb > u64::MAX, EscrowError::InvestorClaimTimeOverflow),
        first(fail_if(!simple && claim_nb > 0 && e.maturity > 0 && claim_nb > e.maturity, EscrowError::CommitmentLockExceedsMaturity),
        first(fail_if(!fits_i128(e.funded_amount + amount), EscrowError::FundedAmountOverflow),
              auth_gate(call, e.payer)))))))))))))))))))
    }

    /// The escrow after a successful funding call: principal added, and the status becomes
    /// funded once the target is reached.
    pub open spec fn funded_escrow(self, amount: i128) -> InvoiceEscrow {
        let e = self.esc();
        let funded = e.funded_amount + amount;
        InvoiceEscrow { funded_amount: funded as i128, status: if funded >= e.funding_target { 1 } else { 0 }, ..e }
    }

    /// The store after a successful funding call.
    ///
    /// The investor's contribution grows by `amount`. A first deposit counts a new funder,
    /// appends the investor to the index and fixes the investor's yield and claim lock: the
    /// base yield and no lock for a simple deposit, the resolved tier and `now + lock` for a
    /// committed one. When the status becomes funded, the close snapshot is written unless
    /// one exists.
    pub open spec fn fund_post(self, call: CallContext, investor: Addr, amount: i128, simple: bool, lock: u64) -> Store {
        let now = call.timestamp;
        let e = self.esc();
        let prev = self.contribution_of(investor);
        let newc = (prev + amount) as i128;
        let e2 = self.funded_escrow(amount);
        let snap = if e2.status == 1 && self.funding_close_snapshot is None {
            Some(FundingCloseSnapshot {
                total_principal: e2.funded_amount,
                funding_target: e.funding_target,
                closed_at_ledger_timestamp: now,
                closed_at_ledger_sequence: call.sequence,
            })
        } else {
            self.funding_close_snapshot
        };
        let old_rec = (self.investors)(investor);
        let res = spec_resolution(self.yield_tiers, e.yield_bps, lock);
        let claim_nb: u64 = if lock == 0 { 0 } else { (now + lock) as u64 };
        let rec2 = if simple {
            if prev == 0 {
                InvestorRecord { contribution: Some(newc), effective_yield: Some(e.yield_bps), claim_not_before: Some(0), ..old_rec }
            } else {
                InvestorRecord { contribution: Some(newc), ..old_rec }
            }
        } else {
            InvestorRecord { contribution: Some(newc), effective_yield: Some(res.effective_yield_bps), claim_not_before: Some(claim_nb), ..old_rec }
        };
        let s1 = Store {
            escrow: Some(e2),
            funding_close_snapshot: snap,
            unique_funder_count: if prev == 0 { (self.unique_funder_count + 1) as u32 } else { self.unique_funder_count },
            investor_index: if prev == 0 { self.investor_index.push(investor) } else { self.investor_index },
            ..self
        };
        s1.with_record(investor, rec2)
    }

    /// The outcome of one funding call on this store.
    pub open spec fn fund_outcome(self, call: CallContext, investor: Addr, amount: i128, simple: bool, lock: u64) -> Result<Store, Failure> {
        match self.fund_gate(call, investor, amount, simple, lock) {
            Some(f) => Err(f),
            None => Ok(self.fund_post(call, investor, amount, simple, lock)),
        }
    }

    /// The first amount in `entries[i..]` that is not positive or is below the floor.
    pub open spec fn batch_amount_error(self, entries: Seq<(Addr, i128)>, i: int) -> Option<Failure>
        decreases entries.len() - i,
    {
        if i < 0 || i >= entries.len() {
            None
        } else if entries[i].1 <= 0 {
            Some(Failure::Escrow(EscrowError::FundingAmountNotPositive))
        } else if self.min_contribution_floor > 0 && entries[i].1 < self.min_contribution_floor {
            Some(Failure::Escrow(EscrowError::FundingBelowMinContribution))
        } else {
            self.batch_amount_error(entries, i + 1)
        }
    }

    /// The guards a batch checks before funding any entry.
    pub open spec fn fund_batch_gate(self, entries: Seq<(Addr, i128)>) -> Option<Failure> {
        first(fail_if(entries.len() == 0, EscrowError::FundingBatchEmpty),
        first(fail_if(entries.len() > MAX_FUND_BATCH, EscrowError::FundingBatchTooLarge),
        first(self.batch_amount_error(entries, 0),
        first(fail_if(exists|i: int, j: int| 0 <= i < j < entries.len() && #[trigger] entries[i].0 == #[trigger] entries[j].0,
                      EscrowError::FundingBatchDuplicateInvestor),
              self.init_gate()))))
    }
}

/// Funds `entries[i..]` one after the other as simple deposits; the first failing entry
/// fails the whole fold.
pub open spec fn fund_fold(st: Store, call: CallContext, entries: Seq<(Addr, i128)>, i: int) -> Result<Store, Failure>
    decreases entries.len() - i,
{
    if i < 0 || i >= entries.len() {
        Ok(st)
    } else {
        match st.fund_outcome(call, entries[i].0, entries[i].1, true, 0) {
            Err(f) => Err(f),
            Ok(s2) => fund_fold(s2, call, entries, i + 1),
        }
    }
}

impl StarfundEscrow {
    fn fund_impl(&mut self, call: &CallContext, investor: Addr, amount: i128, simple: bool, lock: u64) -> (r: Result<InvoiceEscrow, Failure>)
        ensures
            match old(self)@.fund_outcome(*call, investor, amount, simple, lock) {
                Err(f) => r == Err::<InvoiceEscrow, Failure>(f) && final(self)@ == old(self)@,
                Ok(s) => final(self)@ == s && r == Ok::<InvoiceEscrow, Failure>(s.esc()),
            },
    {
        let ghost st = self@;
        let now = call.timestamp;
        if self.paused_blocks(now, PauseEntry::Funding) {
            return Err(Failure::Escrow(EscrowError::PausedBlocksFunding));
        }
        StarfundEscrow::require_auth(call, investor)?;
        if amount <= 0 {
            return Err(Failure::Escrow(EscrowError::FundingAmountNotPositive));
        }
        if let Some(d) = self.token_decimals {
            if validate_decimal_scale(amount, d).is_err() {
                return Err(Failure::Escrow(EscrowError::FundingTokenScaleInvalid));
            }
        }
        let floor = self.min_contribution_floor;
        if floor > 0 && amount < floor {
            return Err(Failure::Escrow(EscrowError::FundingBelowMinContribution));
        }
        let mut escrow = self.get_escrow()?;
        if self.legal_hold {
            return Err(Failure::Escrow(EscrowError::LegalHoldBlocksFunding));
        }
        if escrow.status != 0 {
            return Err(Failure::Escrow(EscrowError::EscrowNotOpenForFunding));
        }
        if let Some(deadline) = self.funding_deadline {
            if now > deadline {
                return Err(Failure::Escrow(EscrowError::FundingDeadlinePassed));
            }
        }
        let rec = self.investors.get(investor);
        if self.allowlist_active && rec.allowlisted != Some(true) {
            return Err(Failure::Escrow(EscrowError::InvestorNotAllowlisted));
        }
        let prev: i128 = match rec.contribution {
            Some(c) => c,
            None => 0,
        };
        let new_contribution = match prev.checked_add(amount) {
            Some(c) => c,
            None => {
                return Err(Failure::Escrow(EscrowError::InvestorContributionOverflow));
            },
        };
        if let Some(cap) = self.max_per_investor_cap {
            if new_contribution > cap {
                return Err(Failure::Escrow(EscrowError::InvestorContributionExceedsCap));
            }
        }
        let count = self.unique_funder_count;
        if prev == 0 {
            if count >= MAX_UNIQUE_INVESTORS {
                return Err(Failure::Escrow(EscrowError::UniqueInvestorHardCapReached));
            }
            if let Some(cap) = self.max_unique_investors_cap {
                if count >= cap {
                    return Err(Failure::Escrow(EscrowError::UniqueInvestorCapReached));
                }
            }
        }
        let mut claim_nb: u64 = 0;
        let mut eff_yield: i64 = escrow.yield_bps;
        if !simple {
            if prev != 0 {
                return Err(Failure::Escrow(EscrowError::TieredSecondDeposit));
            }
            let res = effective_yield_for_commitment(&self.yield_tiers, escrow.yield_bps, lock);
            eff_yield = res.effective_yield_bps;
            if lock != 0 {
                claim_nb = match now.checked_add(lock) {
                    Some(t) => t,
                    None => {
                        return Err(Failure::Escrow(EscrowError::InvestorClaimTimeOverflow));
                    },
                };
            }
            if claim_nb > 0 && escrow.maturity > 0 && claim_nb > escrow.maturity {
                return Err(Failure::Escrow(EscrowError::CommitmentLockExceedsMaturity));
            }
        }
        let funded = match escrow.funded_amount.checked_add(amount) {
            Some(f) => f,
            None => {
                return Err(Failure::Escrow(EscrowError::FundedAmountOverflow));
            },
        };
        StarfundEscrow::require_auth(call, escrow.payer)?;

        // Effects.
        escrow.funded_amount = funded;
        if funded >= escrow.funding_target {
            escrow.status = 1;
            if self.funding_close_snapshot.is_none() {
                self.funding_close_snapshot = Some(FundingCloseSnapshot {
                    total_principal: funded,
                    funding_target: escrow.funding_target,
                    closed_at_ledger_timestamp: now,
                    closed_at_ledger_sequence: call.sequence,
                });
            }
        }
        let new_rec = if simple {
            if prev == 0 {
                InvestorRecord { contribution: Some(new_contribution), effective_yield: Some(escrow.yield_bps), claim_not_before: Some(0), ..rec }
            } else {
                InvestorRecord { contribution: Some(new_contribution), ..rec }
            }
        } else {
            InvestorRecord { contribution: Some(new_contribution), effective_yield: Some(eff_yield), claim_not_before: Some(claim_nb), ..rec }
        };
        if prev == 0 {
            self.unique_funder_count = count + 1;
            self.investor_index.push(investor);
        }
        self.escrow = Some(escrow);
        self.investors.put(investor, new_rec);
        proof {
            let post = st.fund_post(*call, investor, amount, simple, lock);
            assert(self@.investors =~= post.investors);
            assert(self@ =~= post);
        }
        Ok(escrow)
    }

    /// Records an investor deposit at the investor's fixed yield (the base yield on a first
    /// deposit). The caller transfers `amount` of the funding token from the investor to the
    /// contract once this returns.
    pub fn fund(&mut self, call: &CallContext, investor: Addr, amount: i128) -> (r: Result<InvoiceEscrow, Failure>)
        ensures
            match old(self)@.fund_outcome(*call, investor, amount, true, 0) {
                Err(f) => r == Err::<InvoiceEscrow, Failure>(f) && final(self)@ == old(self)@,
                Ok(s) => final(self)@ == s && r == Ok::<InvoiceEscrow, Failure>(s.esc()),
            },
    {
        self.fund_impl(call, investor, amount, true, 0)
    }

    /// First deposit with a lock commitment: selects the investor's tier and claim lock.
    pub fn fund_with_commitment(&mut self, call: &CallContext, investor: Addr, amount: i128, committed_lock_secs: u64) -> (r: Result<InvoiceEscrow, Failure>)
        ensures
            match old(self)@.fund_outcome(*call, investor, amount, false, committed_lock_secs) {
                Err(f) => r == Err::<InvoiceEscrow, Failure>(f) && final(self)@ == old(self)@,
                Ok(s) => final(self)@ == s && r == Ok::<InvoiceEscrow, Failure>(s.esc()),
            },
    {
        self.fund_impl(call, investor, amount, false, committed_lock_secs)
    }

    /// Funds several investors in one call, atomically: either every entry is funded as by
    /// [`StarfundEscrow::fund`], in order, or the call fails and storage is unchanged.
    /// Amounts, the floor and duplicate investors are checked for the whole batch first.
    pub fn fund_batch(&mut self, call: &CallContext, entries: &Vec<(Addr, i128)>) -> (r: Result<InvoiceEscrow, Failure>)
        ensures
            match old(self)@.fund_batch_gate(entries@) {
                Some(f) => r == Err::<InvoiceEscrow, Failure>(f) && final(self)@ == old(self)@,
                None => match fund_fold(old(self)@, *call, entries@, 0) {
                    Ok(s) => final(self)@ == s && r == Ok::<InvoiceEscrow, Failure>(s.esc()),
                    Err(f) => r == Err::<InvoiceEscrow, Failure>(f) && final(self)@ == old(self)@,
                },
            },
    {
        let ghost st = self@;
        let n = entries.len();
        if n == 0 {
            return Err(Failure::Escrow(EscrowError::FundingBatchEmpty));
        }
        if n > MAX_FUND_BATCH as usize {
            return Err(Failure::Escrow(EscrowError::FundingBatchTooLarge));
        }
        let floor = self.min_contribution_floor;
        let mut i: usize = 0;
        while i < n
            invariant
                n == entries@.len(),
                1 <= n <= MAX_FUND_BATCH,
                self@ == st,
                0 <= i <= n,
                floor == st.min_contribution_floor,
                st.batch_amount_error(entries@, 0) == st.batch_amount_error(entries@, i as int),
            decreases n - i,
        {
            let amount = entries[i].1;
            assert(st.batch_amount_error(entries@, i as int) == if entries@[i as int].1 <= 0 {
                Some(Failure::Escrow(EscrowError::FundingAmountNotPositive))
            } else if st.min_contribution_floor > 0 && entries@[i as int].1 < st.min_contribution_floor {
                Some(Failure::Escrow(EscrowError::FundingBelowMinContribution))
            } else {
                st.batch_amount_error(entries@, i as int + 1)
            });
            if amount <= 0 {
                return Err(Failure::Escrow(EscrowError::FundingAmountNotPositive));
            }
            if floor > 0 && amount < floor {
                return Err(Failure::Escrow(EscrowError::FundingBelowMinContribution));
            }
            i = i + 1;
        }
        assert(st.batch_amount_error(entries@, n as int) is None);
        let mut i: usize = 0;
        while i < n
            invariant
                n == entries@.len(),
                1 <= n <= MAX_FUND_BATCH,
                self@ == st,
                st.batch_amount_error(entries@, 0) is None,
                0 <= i <= n,
                forall|a: int, b: int| 0 <= a < i && a < b < n ==> entries@[a].0 != entries@[b].0,
            decreases n - i,
        {
            let addr_i = entries[i].0;
            let mut j: usize = i + 1;
            while j < n
                invariant
                    n == entries@.len(),
                    1 <= n <= MAX_FUND_BATCH,
                    self@ == st,
                    st.batch_amount_error(entries@, 0) is None,
                    0 <= i < n,
                    i + 1 <= j <= n,
                    addr_i == entries@[i as int].0,
                    forall|b: int| i < b < j ==> entries@[i as int].0 != entries@[b].0,
                decreases n - j,
            {
                if addr_i == entries[j].0 {
                    assert(entries@[i as int].0 == entries@[j as int].0);
                    assert(exists|a: int, b: int| 0 <= a < b < entries@.len() && #[trigger] entries@[a].0 == #[trigger] entries@[b].0);
                    return Err(Failure::Escrow(EscrowError::FundingBatchDuplicateInvestor));
                }
                j = j + 1;
            }
            i = i + 1;
        }
        assert(!exists|a: int, b: int| 0 <= a < b < entries@.len() && #[trigger] entries@[a].0 == #[trigger] entries@[b].0);
        let _ = self.get_escrow()?;
        assert(st.fund_batch_gate(entries@) is None);
        let mut work = self.copy_state();
        let mut last = match work.escrow {
            Some(e) => e,
            None => {
                return Err(Failure::NotInitialized);
            },
        };
        let mut i: usize = 0;
        while i < n
            invariant
                n == entries@.len(),
                self@ == st,
                st.fund_batch_gate(entries@) is None,
                0 <= i <= n,
                fund_fold(st, *call, entries@, 0) == fund_fold(work@, *call, entries@, i as int),
                i > 0 ==> last == work@.esc(),
            decreases n - i,
        {
            let (inv, amount) = entries[i];
            let ghost w = work@;
            assert(fund_fold(w, *call, entries@, i as int) == match w.fund_outcome(*call, inv, amount, true, 0) {
                Err(f) => Err(f),
                Ok(s2) => fund_fold(s2, *call, entries@, i as int + 1),
            });
            match work.fund_impl(call, inv, amount, true, 0) {
                Ok(e) => {
                    last = e;
                },
                Err(f) => {
                    return Err(f);
                },
            }
            i = i + 1;
        }
        assert(fund_fold(work@, *call, entries@, n as int) == Ok::<Store, Failure>(work@));
        *self = work;
        Ok(last)
    }

    /// Withdraws part or all of an investor's principal while the escrow is open. When the
    /// contribution reaches zero the investor no longer counts as a funder. The caller
    /// transfers `amount` back to the investor once this returns.
    pub fn unfund(&mut self, call: &CallContext, investor: Addr, amount: i128) -> (r: Result<InvoiceEscrow, Failure>)
        ensures
            match old(self)@.unfund_gate(*call, investor, amount) {
                Some(f) => r == Err::<InvoiceEscrow, Failure>(f) && final(self)@ == old(self)@,
                None => final(self)@ == old(self)@.unfund_post(investor, amount)
                    && r == Ok::<InvoiceEscrow, Failure>(final(self)@.esc()),
            },
            r is Ok && amount < old(self)@.contribution_of(investor)
                ==> final(self).unique_funder_count == old(self).unique_funder_count,
            r is Ok ==> final(self)@.contribution_of(investor) == old(self)@.contribution_of(investor) - amount,
    {
        let ghost st = self@;
        let mut escrow = self.get_escrow()?;
        if escrow.status != 0 {
            return Err(Failure::Escrow(EscrowError::UnfundEscrowNotOpen));
        }
        if self.legal_hold {
            return Err(Failure::Escrow(EscrowError::UnfundLegalHoldActive));
        }
        if self.dispute_active {
            return Err(Failure::Escrow(EscrowError::DisputeBlocksUnfund));
        }
        StarfundEscrow::require_auth(call, investor)?;
        let rec = self.investors.get(investor);
        let contribution: i128 = match rec.contribution {
            Some(c) => c,
            None => 0,
        };
        if amount > contribution {
            return Err(Failure::Escrow(EscrowError::OverWithdrawal));
        }
        let remaining = match contribution.checked_sub(amount) {
            Some(x) => x,
            None => {
                return Err(Failure::Escrow(EscrowError::OverWithdrawal));
            },
        };
        if amount <= 0 {
            return Err(Failure::Escrow(EscrowError::OverWithdrawal));
        }
        let new_funded = match escrow.funded_amount.checked_sub(amount) {
            Some(x) => x,
            None => {
                return Err(Failure::Escrow(EscrowError::OverWithdrawal));
            },
        };
        self.investors.put(investor, InvestorRecord { contribution: Some(remaining), ..rec });
        if remaining == 0 {
            self.unique_funder_count = if self.unique_funder_count > 0 { self.unique_funder_count - 1 } else { 0 };
        }
        escrow.funded_amount = new_funded;
        self.escrow = Some(escrow);
        proof {
            let post = st.unfund_post(investor, amount);
            assert(self@.investors =~= post.investors);
            assert(self@ =~= post);
        }
        Ok(escrow)
    }
}

impl Store {
    /// The guards of `unfund`, in order.
    pub open spec fn unfund_gate(self, call: CallContext, investor: Addr, amount: i128) -> Option<Failure> {
        let e = self.esc();
        let c = self.contribution_of(investor);
        first(self.init_gate(),
        first(fail_if(e.status != 0, EscrowError::UnfundEscrowNotOpen),
        first(fail_if(self.legal_hold, EscrowError::UnfundLegalHoldActive),
        first(fail_if(self.dispute_active, EscrowError::DisputeBlocksUnfund),
        first(auth_gate(call, investor),
        first(fail_if(amount > c || !fits_i128(c - amount) || amount <= 0
                      || !fits_i128(e.funded_amount - amount), EscrowError::OverWithdrawal),
              None))))))
    }

    /// The store after `unfund`: contribution and funded amount reduced by `amount`; a
    /// contribution that reaches zero stops counting as a funder.
    pub open spec fn unfund_post(self, investor: Addr, amount: i128) -> Store {
        let e = self.esc();
        let remaining = (self.contribution_of(investor) - amount) as i128;
        let count = self.unique_funder_count;
        let s1 = Store {
            escrow: Some(InvoiceEscrow { funded_amount: (e.funded_amount - amount) as i128, ..e }),
            unique_funder_count: if remaining == 0 { if count > 0 { (count - 1) as u32 } else { 0 } } else { count },
            ..self
        };
        s1.with_record(investor, InvestorRecord { contribution: Some(remaining), ..(self.investors)(investor) })
    }
}

} // verus!
