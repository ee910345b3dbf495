//! Settlement, disbursement, investor claims, cancellation and refunds.
use vstd::prelude::*;
use crate::book::InvestorRecord;
use crate::consts::{MAX_DUST_SWEEP_AMOUNT, MAX_REFUND_BATCH, MAX_SETTLE_BATCH};
use crate::errors::{EscrowError, Failure};
use crate::rules::{
    fee_split, fits_i128, is_terminal_status, payout, sat_add, sat_sub, settle_pool, spec_coupon,
    spec_fee_split, spec_is_terminal_status, spec_payout, spec_sat_add, spec_sat_sub,
    spec_settle_pool, coupon,
};
use crate::laws::{law_claim_waits_for_commitment_lock, law_payout_at_investor_yield, law_payout_without_tier_at_base_yield, share_at_yield};
use crate::state::{auth_gate, fail_if, first, StarfundEscrow, Store};
use crate::types::{
    Addr, CallContext, FundingCloseSnapshot, InvoiceEscrow, PauseEntry, PauseScope, ReconciliationView,
    SettlementResult,
};

verus! {

/// What `withdraw` disburses: `fee` to the treasury (when positive) and `net` to the SME.
#[derive(Clone, Copy, Debug, PartialEq, Eq)]
pub struct Withdrawal {
    pub escrow: InvoiceEscrow,
    pub fee: i128,
    pub fee_recipient: Option<Addr>,
    pub net: i128,
}

impl Store {
    // --------------------------------------------------------------
    // settle

    pub open spec fn settle_gate(self, call: CallContext) -> Option<Failure> {
        let now = call.timestamp;
        let e = self.esc();
        first(fail_if(self.paused_blocks_at(now, PauseEntry::Settlement), EscrowError::PausedBlocksSettlement),
        first(fail_if(self.legal_hold, EscrowError::LegalHoldBlocksSettlement),
        first(fail_if(self.dispute_active, EscrowError::DisputeBlocksSettlement),
        first(self.sme_gate(call),
        first(fail_if(e.status == 2, EscrowError::EscrowAlreadySettled),
        first(fail_if(e.status != 1, EscrowError::SettlementNotFunded),
        first(fail_if(e.maturity > 0 && now < e.maturity, EscrowError::MaturityNotReached),
              fail_if(spec_settle_pool(e.funded_amount, e.yield_bps) is None, EscrowError::ComputePayoutArithmeticOverflow))))))))
    }

    /// What `settle` reports: the settled escrow, and the coupon and pool at the base yield.
    pub open spec fn settlement_result(self, call: CallContext) -> SettlementResult {
        let e = self.esc();
        SettlementResult {
            escrow: InvoiceEscrow { status: 2, ..e },
            coupon: spec_coupon(e.funded_amount, e.yield_bps).unwrap(),
            settle_pool: spec_settle_pool(e.funded_amount, e.yield_bps).unwrap(),
            settled_at: call.timestamp,
        }
    }

    /// The store after settlement: status settled and the settlement time recorded.
    pub open spec fn settle_post(self, call: CallContext) -> Store {
        Store {
            escrow: Some(InvoiceEscrow { status: 2, ..self.esc() }),
            settled_at: Some(call.timestamp),
            ..self
        }
    }

    // --------------------------------------------------------------
    // partial_settle

    pub open spec fn partial_settle_gate(self, call: CallContext, caller: Addr) -> Option<Failure> {
        let e = self.esc();
        first(auth_gate(call, caller),
        first(fail_if(self.legal_hold, EscrowError::LegalHoldBlocksPartialSettle),
        first(fail_if(self.dispute_active, EscrowError::DisputeBlocksPartialSettle),
        first(self.init_gate(),
        first(fail_if(caller != e.sme_address && caller != e.admin, EscrowError::PartialSettleUnauthorizedCaller),
              fail_if(e.status != 0, EscrowError::PartialSettleNotOpen))))))
    }

    /// The store after closing funding early: status funded, and the close snapshot written
    /// unless one exists.
    pub open spec fn partial_settle_post(self, call: CallContext) -> Store {
        let e = self.esc();
        Store {
            escrow: Some(InvoiceEscrow { status: 1, ..e }),
            funding_close_snapshot: if self.funding_close_snapshot is None {
                Some(FundingCloseSnapshot {
                    total_principal: e.funded_amount,
                    funding_target: e.funding_target,
                    closed_at_ledger_timestamp: call.timestamp,
                    closed_at_ledger_sequence: call.sequence,
                })
            } else {
                self.funding_close_snapshot
            },
            ..self
        }
    }

    // --------------------------------------------------------------
    // release

    /// The principal still owed to the SME.
    pub open spec fn remaining_obligation(self) -> int {
        self.esc().funded_amount - self.released_amount
    }

    pub open spec fn release_gate(self, call: CallContext, amount: i128, contract_balance: i128) -> Option<Failure> {
        let e = self.esc();
        first(fail_if(amount <= 0, EscrowError::ReleaseAmountNotPositive),
        first(fail_if(self.paused_active_at(call.timestamp), EscrowError::PausedBlocksRelease),
        first(fail_if(self.legal_hold, EscrowError::LegalHoldBlocksRelease),
        first(self.init_gate(),
        first(auth_gate(call, e.admin),
        first(fail_if(e.status != 1, EscrowError::ReleaseNotFunded),
        first(fail_if(amount > self.remaining_obligation(), EscrowError::ReleaseExceedsRemaining),
        first(fail_if(self.funding_token is None, EscrowError::FundingTokenNotSet),
              fail_if(contract_balance < amount, EscrowError::InsufficientContractBalance)))))))))
    }

    /// The store after releasing `amount` to the SME: the released total and the paid-out
    /// principal grow by `amount`; releasing the whole remainder marks the escrow withdrawn.
    pub open spec fn release_post(self, amount: i128) -> Store {
        let e = self.esc();
        Store {
            escrow: Some(if amount == self.remaining_obligation() { InvoiceEscrow { status: 3, ..e } } else { e }),
            released_amount: (self.released_amount + amount) as i128,
            distributed_principal: spec_sat_add(self.distributed_principal, amount),
            ..self
        }
    }

    // --------------------------------------------------------------
    // withdraw

    pub open spec fn withdraw_gate(self, call: CallContext, contract_balance: i128) -> Option<Failure> {
        let e = self.esc();
        let amount = self.remaining_obligation() as i128;
        let split = spec_fee_split(amount, self.protocol_fee_bps);
        first(fail_if(self.paused_blocks_at(call.timestamp, PauseEntry::Withdrawal), EscrowError::PausedBlocksWithdrawal),
        first(fail_if(self.legal_hold, EscrowError::LegalHoldBlocksWithdrawal),
        first(fail_if(self.dispute_active, EscrowError::DisputeBlocksWithdrawal),
        first(self.sme_gate(call),
        first(fail_if(e.status != 1, EscrowError::WithdrawalNotFunded),
        first(match split { Err(err) => Some(Failure::Escrow(err)), Ok(_) => None },
        first(fail_if(self.funding_token is None, EscrowError::FundingTokenNotSet),
        first(fail_if(contract_balance < amount, EscrowError::InsufficientContractBalance),
              fail_if(split matches Ok((fee, _)) && fee > 0 && self.treasury is None, EscrowError::TreasuryNotSet)))))))))
    }

    /// The store after the SME withdraws: status withdrawn and the paid-out principal grows by
    /// the whole disbursed amount (fee included).
    pub open spec fn withdraw_post(self) -> Store {
        Store {
            escrow: Some(InvoiceEscrow { status: 3, ..self.esc() }),
            distributed_principal: spec_sat_add(self.distributed_principal, self.remaining_obligation() as i128),
            ..self
        }
    }

    // --------------------------------------------------------------
    // claims

    /// The gross pro-rata payout of `investor` at the investor's effective yield.
    pub open spec fn payout_of(self, investor: Addr) -> Result<i128, Failure> {
        let c = self.contribution_of(investor);
        if c == 0 {
            Ok(0)
        } else {
            match self.funding_close_snapshot {
                None => Ok(0),
                Some(snap) => if snap.total_principal <= 0 {
                    Ok(0)
                } else if self.escrow is None {
                    Err(Failure::NotInitialized)
                } else {
                    let y = match (self.investors)(investor).effective_yield {
                        Some(y) => y,
                        None => self.esc().yield_bps,
                    };
                    match spec_payout(c, snap.total_principal, y) {
                        Ok(p) => Ok(p),
                        Err(err) => Err(Failure::Escrow(err)),
                    }
                },
            }
        }
    }

    pub open spec fn claim_gate(self, call: CallContext, investor: Addr) -> Option<Failure> {
        let now = call.timestamp;
        let rec = (self.investors)(investor);
        first(fail_if(self.paused_blocks_at(now, PauseEntry::Claims), EscrowError::PausedBlocksInvestorClaims),
        first(fail_if(self.legal_hold, EscrowError::LegalHoldBlocksInvestorClaims),
        first(fail_if(self.dispute_active, EscrowError::DisputeBlocksInvestorClaims),
        first(auth_gate(call, investor),
        first(fail_if(self.contribution_of(investor) <= 0, EscrowError::NoContributionToClaim),
        first(self.init_gate(),
        first(fail_if(self.esc().status != 2, EscrowError::InvestorClaimNotSettled),
              fail_if(now < rec.claim_not_before_or_zero(), EscrowError::InvestorCommitmentLockNotExpired))))))))
    }

    /// The guards that apply once the claim is not a repeat.
    pub open spec fn claim_payout_gate(self, investor: Addr) -> Option<Failure> {
        match self.payout_of(investor) {
            Err(f) => Some(f),
            Ok(p) => first(fail_if(p <= 0, EscrowError::PayoutZero),
                           fail_if(self.funding_token is None, EscrowError::FundingTokenNotSet)),
        }
    }

    pub open spec fn claim_post(self, investor: Addr) -> Store {
        self.with_record(investor, InvestorRecord { claimed: Some(true), ..(self.investors)(investor) })
    }

    // --------------------------------------------------------------
    // cancellation and refunds

    pub open spec fn cancel_gate(self, call: CallContext, expected_nonce: u32) -> Option<Failure> {
        first(fail_if(self.legal_hold, EscrowError::LegalHoldBlocksCancelFunding),
        first(self.admin_gate(call),
        first(self.nonce_gate(expected_nonce),
              fail_if(self.esc().status != 0, EscrowError::CancelFundingNotOpen))))
    }

    pub open spec fn cancel_post(self) -> Store {
        Store { escrow: Some(InvoiceEscrow { status: 4, ..self.esc() }), ..self.bump_nonce() }
    }

    pub open spec fn refund_gate(self, call: CallContext, investor: Addr) -> Option<Failure> {
        first(fail_if(self.dispute_active, EscrowError::DisputeBlocksRefund),
        first(auth_gate(call, investor),
        first(self.init_gate(),
        first(fail_if(self.esc().status != 4, EscrowError::RefundNotCancelled),
        first(fail_if(self.contribution_of(investor) <= 0, EscrowError::NoContributionToRefund),
              fail_if(self.funding_token is None, EscrowError::FundingTokenNotSet))))))
    }

    /// The store after refunding an investor: contribution zeroed, the investor marked
    /// refunded, and the paid-out principal grown by the refund.
    pub open spec fn refund_post(self, investor: Addr) -> Store {
        let s1 = Store {
            distributed_principal: spec_sat_add(self.distributed_principal, self.contribution_of(investor)),
            ..self
        };
        s1.with_record(investor, InvestorRecord { contribution: Some(0), refunded: true, ..(self.investors)(investor) })
    }

    pub open spec fn refund_outcome(self, call: CallContext, investor: Addr) -> Result<(Store, i128), Failure> {
        match self.refund_gate(call, investor) {
            Some(f) => Err(f),
            None => Ok((self.refund_post(investor), self.contribution_of(investor))),
        }
    }

    // --------------------------------------------------------------
    // terminal dust sweep

    /// Principal still owed to investors.
    pub open spec fn outstanding(self) -> i128 {
        spec_sat_sub(self.esc().funded_amount, self.distributed_principal)
    }

    pub open spec fn sweep_amount(amount: i128, balance: i128) -> i128 {
        if amount <= balance { amount } else { balance }
    }

    pub open spec fn sweep_gate(self, call: CallContext, amount: i128, balance: i128) -> Option<Failure> {
        let e = self.esc();
        let sweep = Self::sweep_amount(amount, balance);
        first(fail_if(self.legal_hold, EscrowError::LegalHoldBlocksTreasuryDustSweep),
        first(fail_if(self.dispute_active, EscrowError::DisputeBlocksSweep),
        first(fail_if(amount <= 0, EscrowError::SweepAmountNotPositive),
        first(fail_if(amount > MAX_DUST_SWEEP_AMOUNT, EscrowError::SweepAmountExceedsMax),
        first(self.init_gate(),
        first(fail_if(!spec_is_terminal_status(e.status), EscrowError::DustSweepNotTerminal),
        first(fail_if(self.treasury is None, EscrowError::TreasuryNotSet),
        first(auth_gate(call, self.treasury.unwrap()),
        first(fail_if(self.funding_token is None, EscrowError::FundingTokenNotSet),
        first(fail_if(balance <= 0, EscrowError::NoFundingTokenBalanceToSweep),
        first(fail_if(sweep <= 0, EscrowError::EffectiveSweepAmountZero),
              fail_if(e.status == 4 && balance - sweep < self.outstanding(), EscrowError::SweepExceedsLiabilityFloor))))))))))))
    }
}

/// The stores of a list of escrow instances.
pub open spec fn stores_of(v: Seq<StarfundEscrow>) -> Seq<Store> {
    v.map_values(|e: StarfundEscrow| e@)
}

/// Settles the first `n` instances of `ss` in order; the first instance whose settlement
/// fails fails the whole batch.
pub open spec fn settle_prefix(ss: Seq<Store>, call: CallContext, n: int) -> Result<Seq<Store>, Failure>
    decreases n,
{
    if n <= 0 {
        Ok(Seq::empty())
    } else {
        match settle_prefix(ss, call, n - 1) {
            Err(f) => Err(f),
            Ok(p) => match ss[n - 1].settle_gate(call) {
                Some(f) => Err(f),
                None => Ok(p.push(ss[n - 1].settle_post(call))),
            },
        }
    }
}

/// A failure in the first `m` instances fails every longer prefix with the same error.
proof fn lemma_settle_prefix_err(ss: Seq<Store>, call: CallContext, m: int, n: int)
    requires
        0 <= m <= n,
        settle_prefix(ss, call, m) is Err,
    ensures
        settle_prefix(ss, call, n) == settle_prefix(ss, call, m),
    decreases n - m,
{
    if m < n {
        lemma_settle_prefix_err(ss, call, m, n - 1);
    }
}

/// Refunds `investors[i..]` in order, skipping investors already refunded; collects the
/// refunds paid.
pub open spec fn refund_fold(st: Store, call: CallContext, investors: Seq<Addr>, i: int, paid: Seq<(Addr, i128)>) -> Result<(Store, Seq<(Addr, i128)>), Failure>
    decreases investors.len() - i,
{
    if i < 0 || i >= investors.len() {
        Ok((st, paid))
    } else if (st.investors)(investors[i]).refunded {
        refund_fold(st, call, investors, i + 1, paid)
    } else {
        match st.refund_outcome(call, investors[i]) {
            Err(f) => Err(f),
            Ok((s2, amt)) => refund_fold(s2, call, investors, i + 1, paid.push((investors[i], amt))),
        }
    }
}

impl StarfundEscrow {
    /// Finalizes a funded escrow into settled status, once. The SME must authorize; maturity
    /// (when set) must be reached. Returns the coupon and pool at the base yield.
    pub fn settle(&mut self, call: &CallContext) -> (r: Result<SettlementResult, Failure>)
        ensures
            match old(self)@.settle_gate(*call) {
                Some(f) => r == Err::<SettlementResult, Failure>(f) && final(self)@ == old(self)@,
                None => final(self)@ == old(self)@.settle_post(*call)
                    && r == Ok::<SettlementResult, Failure>(old(self)@.settlement_result(*call)),
            },
    {
        let now = call.timestamp;
        if self.paused_blocks(now, PauseEntry::Settlement) {
            return Err(Failure::Escrow(EscrowError::PausedBlocksSettlement));
        }
        if self.legal_hold {
            return Err(Failure::Escrow(EscrowError::LegalHoldBlocksSettlement));
        }
        if self.dispute_active {
            return Err(Failure::Escrow(EscrowError::DisputeBlocksSettlement));
        }
        let mut escrow = self.load_escrow_require_sme(call)?;
        if escrow.status == 2 {
            return Err(Failure::Escrow(EscrowError::EscrowAlreadySettled));
        }
        if escrow.status != 1 {
            return Err(Failure::Escrow(EscrowError::SettlementNotFunded));
        }
        if escrow.maturity > 0 && now < escrow.maturity {
            return Err(Failure::Escrow(EscrowError::MaturityNotReached));
        }
        let c = match coupon(escrow.funded_amount, escrow.yield_bps) {
            Some(c) => c,
            None => {
                return Err(Failure::Escrow(EscrowError::ComputePayoutArithmeticOverflow));
            },
        };
        let pool = match settle_pool(escrow.funded_amount, escrow.yield_bps) {
            Some(p) => p,
            None => {
                return Err(Failure::Escrow(EscrowError::ComputePayoutArithmeticOverflow));
            },
        };
        escrow.status = 2;
        self.escrow = Some(escrow);
        self.settled_at = Some(now);
        Ok(SettlementResult { escrow, coupon: c, settle_pool: pool, settled_at: now })
    }

    /// Closes funding early (SME or admin): the escrow becomes funded at its current
    /// principal.
    pub fn partial_settle(&mut self, call: &CallContext, caller: Addr) -> (r: Result<InvoiceEscrow, Failure>)
        ensures
            match old(self)@.partial_settle_gate(*call, caller) {
                Some(f) => r == Err::<InvoiceEscrow, Failure>(f) && final(self)@ == old(self)@,
                None => final(self)@ == old(self)@.partial_settle_post(*call)
                    && r == Ok::<InvoiceEscrow, Failure>(final(self)@.esc()),
            },
    {
        StarfundEscrow::require_auth(call, caller)?;
        if self.legal_hold {
            return Err(Failure::Escrow(EscrowError::LegalHoldBlocksPartialSettle));
        }
        if self.dispute_active {
            return Err(Failure::Escrow(EscrowError::DisputeBlocksPartialSettle));
        }
        let mut escrow = self.get_escrow()?;
        if caller != escrow.sme_address && caller != escrow.admin {
            return Err(Failure::Escrow(EscrowError::PartialSettleUnauthorizedCaller));
        }
        if escrow.status != 0 {
            return Err(Failure::Escrow(EscrowError::PartialSettleNotOpen));
        }
        escrow.status = 1;
        if self.funding_close_snapshot.is_none() {
            self.funding_close_snapshot = Some(FundingCloseSnapshot {
                total_principal: escrow.funded_amount,
                funding_target: escrow.funding_target,
                closed_at_ledger_timestamp: call.timestamp,
                closed_at_ledger_sequence: call.sequence,
            });
        }
        self.escrow = Some(escrow);
        Ok(escrow)
    }

    /// The admin releases `amount` of the remaining obligation to the SME. The caller passes
    /// the contract's funding-token balance and, once this returns, transfers `amount` from
    /// the contract to the SME.
    pub fn release(&mut self, call: &CallContext, amount: i128, contract_balance: i128) -> (r: Result<InvoiceEscrow, Failure>)
        requires
            old(self).escrow is Some ==> fits_i128(old(self)@.remaining_obligation()),
        ensures
            match old(self)@.release_gate(*call, amount, contract_balance) {
                Some(f) => r == Err::<InvoiceEscrow, Failure>(f) && final(self)@ == old(self)@,
                None => final(self)@ == old(self)@.release_post(amount)
                    && r == Ok::<InvoiceEscrow, Failure>(final(self)@.esc()),
            },
            old(self).legal_hold ==> r is Err && final(self)@ == old(self)@,
    {
        if amount <= 0 {
            return Err(Failure::Escrow(EscrowError::ReleaseAmountNotPositive));
        }
        if self.paused_active(call.timestamp) {
            return Err(Failure::Escrow(EscrowError::PausedBlocksRelease));
        }
        if self.legal_hold {
            return Err(Failure::Escrow(EscrowError::LegalHoldBlocksRelease));
        }
        let mut escrow = self.get_escrow()?;
        StarfundEscrow::require_auth(call, escrow.admin)?;
        if escrow.status != 1 {
            return Err(Failure::Escrow(EscrowError::ReleaseNotFunded));
        }
        let released = self.released_amount;
        let remaining = escrow.funded_amount - released;
        if amount > remaining {
            return Err(Failure::Escrow(EscrowError::ReleaseExceedsRemaining));
        }
        if self.funding_token.is_none() {
            return Err(Failure::Escrow(EscrowError::FundingTokenNotSet));
        }
        if contract_balance < amount {
            return Err(Failure::Escrow(EscrowError::InsufficientContractBalance));
        }
        if amount == remaining {
            escrow.status = 3;
        }
        self.released_amount = released + amount;
        self.distributed_principal = sat_add(self.distributed_principal, amount);
        self.escrow = Some(escrow);
        Ok(escrow)
    }

    /// The SME pulls the remaining funded principal, net of the protocol fee. The caller passes
    /// the contract's funding-token balance and carries out the returned disbursement.
    pub fn withdraw(&mut self, call: &CallContext, contract_balance: i128) -> (r: Result<Withdrawal, Failure>)
        requires
            old(self).escrow is Some ==> fits_i128(old(self)@.remaining_obligation()),
        ensures
            old(self).legal_hold ==> r is Err && final(self)@ == old(self)@,
            old(self)@.paused_active_at(call.timestamp)
                && (old(self).pause_state matches Some(p) && (p.scope == PauseScope::Withdrawal || p.scope == PauseScope::All))
                ==> r == Err::<Withdrawal, Failure>(Failure::Escrow(EscrowError::PausedBlocksWithdrawal)) && final(self)@ == old(self)@,
            match old(self)@.withdraw_gate(*call, contract_balance) {
                Some(f) => r == Err::<Withdrawal, Failure>(f) && final(self)@ == old(self)@,
                None => {
                    let (fee, net) = spec_fee_split(old(self)@.remaining_obligation() as i128, old(self).protocol_fee_bps).unwrap();
                    &&& final(self)@ == old(self)@.withdraw_post()
                    &&& r == Ok::<Withdrawal, Failure>(Withdrawal {
                        escrow: final(self)@.esc(),
                        fee,
                        fee_recipient: if fee > 0 { old(self).treasury } else { None },
                        net,
                    })
                },
            },
    {
        if self.paused_blocks(call.timestamp, PauseEntry::Withdrawal) {
            return Err(Failure::Escrow(EscrowError::PausedBlocksWithdrawal));
        }
        if self.legal_hold {
            return Err(Failure::Escrow(EscrowError::LegalHoldBlocksWithdrawal));
        }
        if self.dispute_active {
            return Err(Failure::Escrow(EscrowError::DisputeBlocksWithdrawal));
        }
        let mut escrow = self.load_escrow_require_sme(call)?;
        if escrow.status != 1 {
            return Err(Failure::Escrow(EscrowError::WithdrawalNotFunded));
        }
        let amount = escrow.funded_amount - self.released_amount;
        let (fee, net) = match fee_split(amount, self.protocol_fee_bps) {
            Ok(s) => s,
            Err(e) => {
                return Err(Failure::Escrow(e));
            },
        };
        if self.funding_token.is_none() {
            return Err(Failure::Escrow(EscrowError::FundingTokenNotSet));
        }
        if contract_balance < amount {
            return Err(Failure::Escrow(EscrowError::InsufficientContractBalance));
        }
        if fee > 0 && self.treasury.is_none() {
            return Err(Failure::Escrow(EscrowError::TreasuryNotSet));
        }
        escrow.status = 3;
        self.escrow = Some(escrow);
        self.distributed_principal = sat_add(self.distributed_principal, amount);
        let fee_recipient = if fee > 0 { self.treasury } else { None };
        Ok(Withdrawal { escrow, fee, fee_recipient, net })
    }

    /// The gross pro-rata payout of `investor` from the funding close snapshot, at the
    /// investor's effective yield; 0 without a contribution or a snapshot.
    pub fn compute_investor_payout(&self, investor: Addr) -> (r: Result<i128, Failure>)
        ensures
            r == self@.payout_of(investor),
            ({
                let c = self@.contribution_of(investor);
                let y = match (self@.investors)(investor).effective_yield { Some(y) => y, None => self@.esc().yield_bps };
                (r is Ok && c > 0 && self.escrow is Some && 0 <= y <= 10_000
                    && (self.funding_close_snapshot matches Some(snap) && snap.total_principal > 0))
                    ==> r == Ok::<i128, Failure>(share_at_yield(c as int, self.funding_close_snapshot.unwrap().total_principal as int, y as int) as i128)
            }),
    {
        proof {
            let s = self@;
            if s.payout_of(investor) is Ok && s.contribution_of(investor) > 0 && s.escrow is Some
                && (s.funding_close_snapshot matches Some(snap) && snap.total_principal > 0) {
                match (s.investors)(investor).effective_yield {
                    Some(y) => if 0 <= y <= 10_000 { law_payout_at_investor_yield(s, investor, y); },
                    None => if 0 <= s.esc().yield_bps <= 10_000 { law_payout_without_tier_at_base_yield(s, investor); },
                }
            }
        }
        let rec = self.investors.get(investor);
        let c: i128 = match rec.contribution {
            Some(c) => c,
            None => 0,
        };
        if c == 0 {
            return Ok(0);
        }
        let snap = match self.funding_close_snapshot {
            Some(s) => s,
            None => {
                return Ok(0);
            },
        };
        if snap.total_principal <= 0 {
            return Ok(0);
        }
        let escrow = self.get_escrow()?;
        let y = match rec.effective_yield {
            Some(y) => y,
            None => escrow.yield_bps,
        };
        match payout(c, snap.total_principal, y) {
            Ok(p) => Ok(p),
            Err(e) => Err(Failure::Escrow(e)),
        }
    }

    /// Records an investor's payout claim after settlement. A repeated claim is a no-op
    /// (`Ok(None)`); a first claim returns the payout the caller transfers to the investor.
    pub fn claim_investor_payout(&mut self, call: &CallContext, investor: Addr) -> (r: Result<Option<i128>, Failure>)
        ensures
            match old(self)@.claim_gate(*call, investor) {
                Some(f) => r == Err::<Option<i128>, Failure>(f) && final(self)@ == old(self)@,
                None => if (old(self)@.investors)(investor).is_claimed() {
                    r == Ok::<Option<i128>, Failure>(None) && final(self)@ == old(self)@
                } else {
                    match old(self)@.claim_payout_gate(investor) {
                        Some(f) => r == Err::<Option<i128>, Failure>(f) && final(self)@ == old(self)@,
                        None => r == Ok::<Option<i128>, Failure>(Some(old(self)@.payout_of(investor).unwrap()))
                            && final(self)@ == old(self)@.claim_post(investor),
                    }
                },
            },
            ((old(self)@.investors)(investor).claim_not_before matches Some(nb) && call.timestamp < nb)
                ==> r is Err && final(self)@ == old(self)@,
    {
        proof {
            if let Some(nb) = (self@.investors)(investor).claim_not_before {
                if call.timestamp < nb {
                    law_claim_waits_for_commitment_lock(self@, *call, investor, nb);
                }
            }
        }
        let ghost st = self@;
        let now = call.timestamp;
        if self.paused_blocks(now, PauseEntry::Claims) {
            return Err(Failure::Escrow(EscrowError::PausedBlocksInvestorClaims));
        }
        if self.legal_hold {
            return Err(Failure::Escrow(EscrowError::LegalHoldBlocksInvestorClaims));
        }
        if self.dispute_active {
            return Err(Failure::Escrow(EscrowError::DisputeBlocksInvestorClaims));
        }
        StarfundEscrow::require_auth(call, investor)?;
        let rec = self.investors.get(investor);
        let c: i128 = match rec.contribution {
            Some(c) => c,
            None => 0,
        };
        if c <= 0 {
            return Err(Failure::Escrow(EscrowError::NoContributionToClaim));
        }
        let escrow = self.get_escrow()?;
        if escrow.status != 2 {
            return Err(Failure::Escrow(EscrowError::InvestorClaimNotSettled));
        }
        let nb: u64 = match rec.claim_not_before {
            Some(t) => t,
            None => 0,
        };
        if now < nb {
            return Err(Failure::Escrow(EscrowError::InvestorCommitmentLockNotExpired));
        }
        if rec.claimed == Some(true) {
            return Ok(None);
        }
        let p = self.compute_investor_payout(investor)?;
        if p <= 0 {
            return Err(Failure::Escrow(EscrowError::PayoutZero));
        }
        if self.funding_token.is_none() {
            return Err(Failure::Escrow(EscrowError::FundingTokenNotSet));
        }
        self.investors.put(investor, InvestorRecord { claimed: Some(true), ..rec });
        proof {
            assert(self@.investors =~= st.claim_post(investor).investors);
            assert(self@ =~= st.claim_post(investor));
        }
        Ok(Some(p))
    }

    /// The payout an investor could claim now: 0 unless settled, not on hold, not yet claimed
    /// and past the claim lock.
    pub fn get_claimable_payout(&self, call: &CallContext, investor: Addr) -> (r: Result<i128, Failure>)
        ensures
            match self.escrow {
                None => r == Err::<i128, Failure>(Failure::NotInitialized),
                Some(e) => {
                    let rec = (self@.investors)(investor);
                    if e.status != 2 || self.legal_hold || rec.is_claimed() || call.timestamp < rec.claim_not_before_or_zero() {
                        r == Ok::<i128, Failure>(0)
                    } else {
                        r == self@.payout_of(investor)
                    }
                },
            },
    {
        let escrow = self.get_escrow()?;
        if escrow.status != 2 {
            return Ok(0);
        }
        if self.legal_hold {
            return Ok(0);
        }
        let rec = self.investors.get(investor);
        if rec.claimed == Some(true) {
            return Ok(0);
        }
        let nb: u64 = match rec.claim_not_before {
            Some(t) => t,
            None => 0,
        };
        if call.timestamp < nb {
            return Ok(0);
        }
        self.compute_investor_payout(investor)
    }

    /// The total settlement pool at the base yield: `total_principal + coupon` from the close
    /// snapshot, or 0 before funding closes.
    pub fn get_settlement_pool(&self) -> (r: Result<i128, Failure>)
        ensures
            match self.funding_close_snapshot {
                None => r == Ok::<i128, Failure>(0),
                Some(snap) => if snap.total_principal <= 0 {
                    r == Ok::<i128, Failure>(0)
                } else if self.escrow is None {
                    r == Err::<i128, Failure>(Failure::Escrow(EscrowError::EscrowNotInitialized))
                } else {
                    match spec_settle_pool(snap.total_principal, self.escrow.unwrap().yield_bps) {
                        Some(p) => r == Ok::<i128, Failure>(p),
                        None => r == Err::<i128, Failure>(Failure::Escrow(EscrowError::ComputePayoutArithmeticOverflow)),
                    }
                },
            },
    {
        let snap = match self.funding_close_snapshot {
            Some(s) => s,
            None => {
                return Ok(0);
            },
        };
        if snap.total_principal <= 0 {
            return Ok(0);
        }
        let escrow = match self.escrow {
            Some(e) => e,
            None => {
                return Err(Failure::Escrow(EscrowError::EscrowNotInitialized));
            },
        };
        match settle_pool(snap.total_principal, escrow.yield_bps) {
            Some(p) => Ok(p),
            None => Err(Failure::Escrow(EscrowError::ComputePayoutArithmeticOverflow)),
        }
    }

    /// The admin cancels an open escrow; investors may then refund.
    pub fn cancel_funding(&mut self, call: &CallContext, expected_nonce: u32) -> (r: Result<InvoiceEscrow, Failure>)
        ensures
            match old(self)@.cancel_gate(*call, expected_nonce) {
                Some(f) => r == Err::<InvoiceEscrow, Failure>(f) && final(self)@ == old(self)@,
                None => final(self)@ == old(self)@.cancel_post() && r == Ok::<InvoiceEscrow, Failure>(final(self)@.esc()),
            },
    {
        if self.legal_hold {
            return Err(Failure::Escrow(EscrowError::LegalHoldBlocksCancelFunding));
        }
        let mut escrow = self.load_escrow_require_admin(call)?;
        let next = self.check_admin_nonce(expected_nonce)?;
        if escrow.status != 0 {
            return Err(Failure::Escrow(EscrowError::CancelFundingNotOpen));
        }
        escrow.status = 4;
        self.escrow = Some(escrow);
        self.admin_nonce = next;
        Ok(escrow)
    }

    /// Returns an investor's principal from a cancelled escrow. The caller transfers the
    /// returned amount from the contract to the investor.
    pub fn refund(&mut self, call: &CallContext, investor: Addr) -> (r: Result<i128, Failure>)
        ensures
            match old(self)@.refund_outcome(*call, investor) {
                Err(f) => r == Err::<i128, Failure>(f) && final(self)@ == old(self)@,
                Ok((s, amt)) => final(self)@ == s && r == Ok::<i128, Failure>(amt),
            },
    {
        let ghost st = self@;
        if self.dispute_active {
            return Err(Failure::Escrow(EscrowError::DisputeBlocksRefund));
        }
        StarfundEscrow::require_auth(call, investor)?;
        let escrow = self.get_escrow()?;
        if escrow.status != 4 {
            return Err(Failure::Escrow(EscrowError::RefundNotCancelled));
        }
        let rec = self.investors.get(investor);
        let amount: i128 = match rec.contribution {
            Some(c) => c,
            None => 0,
        };
        if amount <= 0 {
            return Err(Failure::Escrow(EscrowError::NoContributionToRefund));
        }
        if self.funding_token.is_none() {
            return Err(Failure::Escrow(EscrowError::FundingTokenNotSet));
        }
        self.investors.put(investor, InvestorRecord { contribution: Some(0), refunded: true, ..rec });
        self.distributed_principal = sat_add(self.distributed_principal, amount);
        proof {
            assert(self@.investors =~= st.refund_post(investor).investors);
            assert(self@ =~= st.refund_post(investor));
        }
        Ok(amount)
    }

    /// Refunds several investors atomically, skipping those already refunded. Returns the
    /// refunds the caller transfers, in order.
    pub fn refund_batch(&mut self, call: &CallContext, investors: &Vec<Addr>) -> (r: Result<Vec<(Addr, i128)>, Failure>)
        ensures
            if investors@.len() == 0 {
                r == Err::<Vec<(Addr, i128)>, Failure>(Failure::Escrow(EscrowError::RefundBatchEmpty)) && final(self)@ == old(self)@
            } else if investors@.len() > MAX_REFUND_BATCH {
                r == Err::<Vec<(Addr, i128)>, Failure>(Failure::Escrow(EscrowError::RefundBatchTooLarge)) && final(self)@ == old(self)@
            } else {
                match refund_fold(old(self)@, *call, investors@, 0, Seq::empty()) {
                    Err(f) => r == Err::<Vec<(Addr, i128)>, Failure>(f) && final(self)@ == old(self)@,
                    Ok((s, paid)) => final(self)@ == s && (r matches Ok(v) && v@ == paid),
                }
            },
    {
        let ghost st = self@;
        let n = investors.len();
        if n == 0 {
            return Err(Failure::Escrow(EscrowError::RefundBatchEmpty));
        }
        if n > MAX_REFUND_BATCH as usize {
            return Err(Failure::Escrow(EscrowError::RefundBatchTooLarge));
        }
        let mut work = self.copy_state();
        let mut paid: Vec<(Addr, i128)> = Vec::new();
        let mut i: usize = 0;
        while i < n
            invariant
                n == investors@.len(),
                1 <= n <= MAX_REFUND_BATCH,
                self@ == st,
                0 <= i <= n,
                refund_fold(st, *call, investors@, 0, Seq::empty()) == refund_fold(work@, *call, investors@, i as int, paid@),
            decreases n - i,
        {
            let inv = investors[i];
            let ghost w = work@;
            let ghost p = paid@;
            let rec = work.investors.get(inv);
            if rec.refunded {
                assert(refund_fold(w, *call, investors@, i as int, p) == refund_fold(w, *call, investors@, i as int + 1, p));
            } else {
                assert(refund_fold(w, *call, investors@, i as int, p) == match w.refund_outcome(*call, inv) {
                    Err(f) => Err(f),
                    Ok((s2, amt)) => refund_fold(s2, *call, investors@, i as int + 1, p.push((inv, amt))),
                });
                match work.refund(call, inv) {
                    Ok(amt) => {
                        paid.push((inv, amt));
                    },
                    Err(f) => {
                        return Err(f);
                    },
                }
            }
            i = i + 1;
        }
        assert(refund_fold(work@, *call, investors@, n as int, paid@) == Ok::<(Store, Seq<(Addr, i128)>), Failure>((work@, paid@)));
        *self = work;
        Ok(paid)
    }

    /// The treasury sweeps up to `amount` of stray funding-token balance from a terminal
    /// escrow, never below the principal still owed to investors of a cancelled escrow. The
    /// caller passes the contract's balance and transfers the returned amount to the treasury.
    /// The escrow itself is left as it was.
    pub fn sweep_terminal_dust(&mut self, call: &CallContext, amount: i128, balance: i128) -> (r: Result<i128, Failure>)
        ensures
            match old(self)@.sweep_gate(*call, amount, balance) {
                Some(f) => r == Err::<i128, Failure>(f) && final(self)@ == old(self)@,
                None => final(self)@ == old(self)@ && r == Ok::<i128, Failure>(Store::sweep_amount(amount, balance)),
            },
    {
        if self.legal_hold {
            return Err(Failure::Escrow(EscrowError::LegalHoldBlocksTreasuryDustSweep));
        }
        if self.dispute_active {
            return Err(Failure::Escrow(EscrowError::DisputeBlocksSweep));
        }
        if amount <= 0 {
            return Err(Failure::Escrow(EscrowError::SweepAmountNotPositive));
        }
        if amount > MAX_DUST_SWEEP_AMOUNT {
            return Err(Failure::Escrow(EscrowError::SweepAmountExceedsMax));
        }
        let escrow = self.get_escrow()?;
        if !is_terminal_status(escrow.status) {
            return Err(Failure::Escrow(EscrowError::DustSweepNotTerminal));
        }
        let treasury = match self.treasury {
            Some(t) => t,
            None => {
                return Err(Failure::Escrow(EscrowError::TreasuryNotSet));
            },
        };
        StarfundEscrow::require_auth(call, treasury)?;
        if self.funding_token.is_none() {
            return Err(Failure::Escrow(EscrowError::FundingTokenNotSet));
        }
        if balance <= 0 {
            return Err(Failure::Escrow(EscrowError::NoFundingTokenBalanceToSweep));
        }
        let sweep = if amount <= balance { amount } else { balance };
        if sweep <= 0 {
            return Err(Failure::Escrow(EscrowError::EffectiveSweepAmountZero));
        }
        if escrow.status == 4 {
            let outstanding = sat_sub(escrow.funded_amount, self.distributed_principal);
            if balance - sweep < outstanding {
                return Err(Failure::Escrow(EscrowError::SweepExceedsLiabilityFloor));
            }
        }
        Ok(sweep)
    }

    /// Reconciles the contract's token balance against the principal still owed:
    /// `outstanding = max(funded - paid out, 0)` and `surplus = balance - outstanding`
    /// (both clamped to the `i128` range).
    pub fn get_reconciliation(&self, token_balance: i128) -> (r: Result<ReconciliationView, Failure>)
        ensures
            match self.escrow {
                None => r == Err::<ReconciliationView, Failure>(Failure::NotInitialized),
                Some(e) => if self.funding_token is None {
                    r == Err::<ReconciliationView, Failure>(Failure::Escrow(EscrowError::FundingTokenNotSet))
                } else {
                    let o = spec_sat_sub(e.funded_amount, self.distributed_principal);
                    let outstanding: i128 = if o >= 0 { o } else { 0 };
                    r == Ok::<ReconciliationView, Failure>(ReconciliationView {
                        token_balance,
                        outstanding_liability: outstanding,
                        surplus: spec_sat_sub(token_balance, outstanding),
                    })
                },
            },
    {
        let escrow = self.get_escrow()?;
        let o = sat_sub(escrow.funded_amount, self.distributed_principal);
        let outstanding = if o >= 0 { o } else { 0 };
        if self.funding_token.is_none() {
            return Err(Failure::Escrow(EscrowError::FundingTokenNotSet));
        }
        Ok(ReconciliationView { token_balance, outstanding_liability: outstanding, surplus: sat_sub(token_balance, outstanding) })
    }

    /// Checks the size of a settlement batch: between one and `MAX_SETTLE_BATCH` escrows.
    pub fn settle_batch_bounds(n: usize) -> (r: Result<(), Failure>)
        ensures
            r == if n == 0 {
                Err::<(), Failure>(Failure::Escrow(EscrowError::SettlementBatchEmpty))
            } else if n > MAX_SETTLE_BATCH {
                Err::<(), Failure>(Failure::Escrow(EscrowError::SettlementBatchTooLarge))
            } else {
                Ok::<(), Failure>(())
            },
    {
        if n == 0 {
            return Err(Failure::Escrow(EscrowError::SettlementBatchEmpty));
        }
        if n > MAX_SETTLE_BATCH as usize {
            return Err(Failure::Escrow(EscrowError::SettlementBatchTooLarge));
        }
        Ok(())
    }

    /// Settles several escrow instances atomically: each as by [`StarfundEscrow::settle`], in
    /// order; if any fails, none is changed. Returns the settlement results in order.
    pub fn settle_batch(call: &CallContext, escrows: &mut Vec<StarfundEscrow>) -> (r: Result<Vec<SettlementResult>, Failure>)
        ensures
            if old(escrows)@.len() == 0 {
                r == Err::<Vec<SettlementResult>, Failure>(Failure::Escrow(EscrowError::SettlementBatchEmpty))
                    && final(escrows)@ == old(escrows)@
            } else if old(escrows)@.len() > MAX_SETTLE_BATCH {
                r == Err::<Vec<SettlementResult>, Failure>(Failure::Escrow(EscrowError::SettlementBatchTooLarge))
                    && final(escrows)@ == old(escrows)@
            } else {
                match settle_prefix(stores_of(old(escrows)@), *call, old(escrows)@.len() as int) {
                    Err(f) => r == Err::<Vec<SettlementResult>, Failure>(f) && final(escrows)@ == old(escrows)@,
                    Ok(p) => stores_of(final(escrows)@) == p && (r matches Ok(v)
                        && v@ == stores_of(old(escrows)@).map_values(|st: Store| st.settlement_result(*call))),
                }
            },
    {
        let n = escrows.len();
        StarfundEscrow::settle_batch_bounds(n)?;
        let ghost ss = stores_of(escrows@);
        let mut works: Vec<StarfundEscrow> = Vec::new();
        let mut results: Vec<SettlementResult> = Vec::new();
        let mut i: usize = 0;
        assert(stores_of(works@) =~= Seq::<Store>::empty());
        while i < n
            invariant
                n == escrows@.len(),
                1 <= n <= MAX_SETTLE_BATCH,
                escrows@ == old(escrows)@,
                ss == stores_of(escrows@),
                0 <= i <= n,
                works@.len() == i,
                results@ == ss.subrange(0, i as int).map_values(|st: Store| st.settlement_result(*call)),
                settle_prefix(ss, *call, i as int) == Ok::<Seq<Store>, Failure>(stores_of(works@)),
            decreases n - i,
        {
            let mut w = escrows[i].copy_state();
            assert(w@ == ss[i as int]);
            assert(settle_prefix(ss, *call, i as int + 1) == match ss[i as int].settle_gate(*call) {
                Some(f) => Err(f),
                None => Ok(stores_of(works@).push(ss[i as int].settle_post(*call))),
            });
            match w.settle(call) {
                Ok(res) => {
                    results.push(res);
                    assert(results@ =~= ss.subrange(0, i as int + 1).map_values(|st: Store| st.settlement_result(*call)));
                },
                Err(f) => {
                    proof {
                        lemma_settle_prefix_err(ss, *call, i as int + 1, n as int);
                    }
                    return Err(f);
                },
            }
            let ghost before = works@;
            works.push(w);
            assert(stores_of(works@) =~= stores_of(before).push(w@));
            i = i + 1;
        }
        assert(ss.subrange(0, n as int) =~= ss);
        *escrows = works;
        Ok(results)
    }
}

} // verus!
