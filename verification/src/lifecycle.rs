//! Initialization of an instance and the one-shot guards around it.
use vstd::prelude::*;
use crate::consts::{DEFAULT_MATURITY_MAX_HORIZON_SECS, MAX_INVOICE_AMOUNT, SCHEMA_VERSION};
use crate::errors::{EscrowError, Failure};
use crate::rules::{
    invoice_id_error, maturity_bounds_error, tiers_error_from, validate_invoice_id,
    validate_maturity_bounds, validate_yield_tiers_table,
};
use crate::state::{auth_gate, fail_if, first, StarfundEscrow, Store};
use crate::types::{Addr, CallContext, InvoiceEscrow, Sym, YieldTier};

verus! {

/// The arguments of `init`, as mathematical values.
pub struct InitArgs {
    pub admin: Addr,
    pub invoice_id: Seq<u8>,
    pub sme_address: Addr,
    pub amount: i128,
    pub yield_bps: i64,
    pub maturity: u64,
    pub funding_token: Addr,
    pub registry: Option<Addr>,
    pub treasury: Addr,
    pub yield_tiers: Option<Seq<YieldTier>>,
    pub min_contribution: Option<i128>,
    pub max_unique_investors: Option<u32>,
    pub max_per_investor: Option<i128>,
    pub legal_hold_clear_delay: Option<u64>,
    pub maturity_max_horizon: Option<u64>,
    pub funding_deadline: Option<u64>,
    pub allowlist_active: Option<bool>,
    pub protocol_fee_bps: Option<i64>,
    pub token_decimals: Option<u32>,
}

impl InitArgs {
    /// The protocol fee, 0 when not given.
    pub open spec fn fee(self) -> i64 {
        match self.protocol_fee_bps { Some(f) => f, None => 0 }
    }

    /// The maturity horizon, the default when not given.
    pub open spec fn horizon(self) -> u64 {
        match self.maturity_max_horizon { Some(h) => h, None => DEFAULT_MATURITY_MAX_HORIZON_SECS }
    }

    /// The escrow written by `init`, with the stored form `sym` of the invoice identifier.
    /// The payer starts as the admin.
    pub open spec fn escrow(self, sym: Sym) -> InvoiceEscrow {
        InvoiceEscrow {
            invoice_id: sym,
            admin: self.admin,
            sme_address: self.sme_address,
            payer: self.admin,
            amount: self.amount,
            funding_target: self.amount,
            funded_amount: 0,
            yield_bps: self.yield_bps,
            maturity: self.maturity,
            status: 0,
            dispute_active: false,
        }
    }
}

/// The configuration error `init` reports after its admission checks, if any: tier table,
/// maturity bounds, floor, caps, funding deadline and invoice identifier, in that order.
pub open spec fn init_config_error(
    now: u64,
    invoice_id: Seq<u8>,
    amount: i128,
    yield_bps: i64,
    maturity: u64,
    yield_tiers: Option<Seq<YieldTier>>,
    min_contribution: Option<i128>,
    max_unique_investors: Option<u32>,
    max_per_investor: Option<i128>,
    horizon: u64,
    funding_deadline: Option<u64>,
) -> Option<EscrowError> {
    let tiers = match yield_tiers { Some(t) => tiers_error_from(t, yield_bps, 0), None => None };
    if tiers is Some {
        tiers
    } else if maturity_bounds_error(now, maturity, horizon) is Some {
        maturity_bounds_error(now, maturity, horizon)
    } else if min_contribution matches Some(mc) && mc <= 0 {
        Some(EscrowError::MinContributionNotPositive)
    } else if min_contribution matches Some(mc) && mc > amount {
        Some(EscrowError::MinContributionExceedsAmount)
    } else if max_per_investor matches Some(c) && c <= 0 {
        Some(EscrowError::MaxPerInvestorNotPositive)
    } else if max_unique_investors matches Some(c) && c == 0 {
        Some(EscrowError::MaxUniqueInvestorsNotPositive)
    } else if funding_deadline matches Some(d) && d <= now {
        Some(EscrowError::FundingDeadlinePassed)
    } else if funding_deadline matches Some(d) && maturity > 0 && d >= maturity {
        Some(EscrowError::FundingDeadlineAtOrAfterMaturity)
    } else {
        invoice_id_error(invoice_id)
    }
}

/// Checks the configuration `init` is given; on success returns the stored form of the
/// invoice identifier.
pub fn validate_init_config(
    now: u64,
    invoice_id: &[u8],
    amount: i128,
    yield_bps: i64,
    maturity: u64,
    yield_tiers: &Option<Vec<YieldTier>>,
    min_contribution: Option<i128>,
    max_unique_investors: Option<u32>,
    max_per_investor: Option<i128>,
    horizon: u64,
    funding_deadline: Option<u64>,
) -> (r: Result<Sym, EscrowError>)
    ensures
        match init_config_error(now, invoice_id@, amount, yield_bps, maturity, tiers_view(*yield_tiers),
            min_contribution, max_unique_investors, max_per_investor, horizon, funding_deadline) {
            Some(e) => r == Err::<Sym, EscrowError>(e),
            None => r matches Ok(s) && s.text() == invoice_id@ && s.len == invoice_id@.len() && s.canonical(),
        },
{
    if let Some(t) = yield_tiers {
        validate_yield_tiers_table(t, yield_bps)?;
    }
    validate_maturity_bounds(now, maturity, horizon)?;
    if let Some(mc) = min_contribution {
        if mc <= 0 {
            return Err(EscrowError::MinContributionNotPositive);
        }
        if mc > amount {
            return Err(EscrowError::MinContributionExceedsAmount);
        }
    }
    if let Some(cap) = max_per_investor {
        if cap <= 0 {
            return Err(EscrowError::MaxPerInvestorNotPositive);
        }
    }
    if let Some(cap) = max_unique_investors {
        if cap == 0 {
            return Err(EscrowError::MaxUniqueInvestorsNotPositive);
        }
    }
    if let Some(deadline) = funding_deadline {
        if deadline <= now {
            return Err(EscrowError::FundingDeadlinePassed);
        }
        if maturity > 0 && deadline >= maturity {
            return Err(EscrowError::FundingDeadlineAtOrAfterMaturity);
        }
    }
    validate_invoice_id(invoice_id)
}

impl Store {
    /// The guards of `init`, in the order they are checked.
    pub open spec fn init_guard(self, call: CallContext, a: InitArgs) -> Option<Failure> {
        first(fail_if(self.escrow is Some || self.version is Some, EscrowError::EscrowAlreadyInitialized),
        first(auth_gate(call, a.admin),
        first(fail_if(a.amount <= 0, EscrowError::AmountMustBePositive),
        first(fail_if(a.amount > MAX_INVOICE_AMOUNT, EscrowError::AmountExceedsMax),
        first(fail_if(!(0 <= a.yield_bps <= 10_000), EscrowError::YieldBpsOutOfRange),
        first(fail_if(!(0 <= a.fee() <= 10_000), EscrowError::ProtocolFeeBpsOutOfRange),
              match init_config_error(call.timestamp, a.invoice_id, a.amount, a.yield_bps, a.maturity, a.yield_tiers,
                  a.min_contribution, a.max_unique_investors, a.max_per_investor, a.horizon(), a.funding_deadline) {
                  Some(e) => Some(Failure::Escrow(e)),
                  None => None,
              }))))))
    }

    /// The store after `init`: the escrow and every configuration key given are written; the
    /// keys whose argument is absent keep what they held.
    pub open spec fn init_post(self, a: InitArgs, sym: Sym) -> Store {
        let delay = match a.legal_hold_clear_delay { Some(d) => d, None => 0 };
        Store {
            escrow: Some(a.escrow(sym)),
            version: Some(SCHEMA_VERSION),
            maturity_max_horizon: Some(a.horizon()),
            funding_deadline: if a.funding_deadline is Some { a.funding_deadline } else { self.funding_deadline },
            funding_token: Some(a.funding_token),
            treasury: Some(a.treasury),
            token_decimals: if a.token_decimals is Some { a.token_decimals } else { self.token_decimals },
            registry_ref: if a.registry is Some { a.registry } else { self.registry_ref },
            yield_tiers: match a.yield_tiers { Some(t) => t, None => self.yield_tiers },
            min_contribution_floor: match a.min_contribution { Some(mc) => mc, None => 0 },
            protocol_fee_bps: a.fee(),
            unique_funder_count: 0,
            max_per_investor_cap: if a.max_per_investor is Some { a.max_per_investor } else { self.max_per_investor_cap },
            max_unique_investors_cap: if a.max_unique_investors is Some { a.max_unique_investors } else { self.max_unique_investors_cap },
            legal_hold_clear_delay: if delay > 0 { delay } else { self.legal_hold_clear_delay },
            allowlist_active: match a.allowlist_active { Some(b) => b, None => self.allowlist_active },
            ..self
        }
    }
}

/// The view of an optional tier table.
pub open spec fn tiers_view(t: Option<Vec<YieldTier>>) -> Option<Seq<YieldTier>> {
    match t {
        Some(v) => Some(v@),
        None => None,
    }
}

impl StarfundEscrow {
    /// Fails when the instance already holds an escrow or a schema version.
    pub fn ensure_not_initialized(&self) -> (r: Result<(), Failure>)
        ensures
            r == if self.escrow is Some || self.version is Some {
                Err::<(), Failure>(Failure::Escrow(EscrowError::EscrowAlreadyInitialized))
            } else {
                Ok::<(), Failure>(())
            },
    {
        if self.escrow.is_some() || self.version.is_some() {
            Err(Failure::Escrow(EscrowError::EscrowAlreadyInitialized))
        } else {
            Ok(())
        }
    }

    /// Initializes the escrow. A store that already holds an escrow or a schema version is
    /// refused first; then the admin must authorize, and the amount, yields, fee, tier table,
    /// maturity, caps, deadline and invoice identifier are validated in that order. The funding target is the invoice amount and the payer
    /// starts as the admin.
    #[verifier::rlimit(60)]
    #[verifier::spinoff_prover]
    pub fn init(
        &mut self,
        call: &CallContext,
        admin: Addr,
        invoice_id: &[u8],
        sme_address: Addr,
        amount: i128,
        yield_bps: i64,
        maturity: u64,
        funding_token: Addr,
        registry: Option<Addr>,
        treasury: Addr,
        yield_tiers: Option<Vec<YieldTier>>,
        min_contribution: Option<i128>,
        max_unique_investors: Option<u32>,
        max_per_investor: Option<i128>,
        legal_hold_clear_delay: Option<u64>,
        maturity_max_horizon: Option<u64>,
        funding_deadline: Option<u64>,
        allowlist_active: Option<bool>,
        protocol_fee_bps: Option<i64>,
        token_decimals: Option<u32>,
    ) -> (r: Result<InvoiceEscrow, Failure>)
        ensures
            ({
                let a = InitArgs {
                    admin, invoice_id: invoice_id@, sme_address, amount, yield_bps, maturity,
                    funding_token, registry, treasury, yield_tiers: tiers_view(yield_tiers),
                    min_contribution, max_unique_investors, max_per_investor, legal_hold_clear_delay,
                    maturity_max_horizon, funding_deadline, allowlist_active, protocol_fee_bps,
                    token_decimals,
                };
                match old(self)@.init_guard(*call, a) {
                    Some(f) => r == Err::<InvoiceEscrow, Failure>(f) && final(self)@ == old(self)@,
                    None => r matches Ok(e) && e == a.escrow(e.invoice_id)
                        && e.invoice_id.text() == invoice_id@ && e.invoice_id.canonical()
                        && final(self)@ == old(self)@.init_post(a, e.invoice_id),
                }
            }),
    {
        let ghost st = self@;
        let ghost tv = tiers_view(yield_tiers);
        let now = call.timestamp;
        self.ensure_not_initialized()?;
        StarfundEscrow::require_auth(call, admin)?;
        if amount <= 0 {
            return Err(Failure::Escrow(EscrowError::AmountMustBePositive));
        }
        if amount > MAX_INVOICE_AMOUNT {
            return Err(Failure::Escrow(EscrowError::AmountExceedsMax));
        }
        if !(yield_bps >= 0 && yield_bps <= 10_000) {
            return Err(Failure::Escrow(EscrowError::YieldBpsOutOfRange));
        }
        let fee: i64 = match protocol_fee_bps {
            Some(f) => f,
            None => 0,
        };
        if !(fee >= 0 && fee <= 10_000) {
            return Err(Failure::Escrow(EscrowError::ProtocolFeeBpsOutOfRange));
        }
        let horizon: u64 = match maturity_max_horizon {
            Some(h) => h,
            None => DEFAULT_MATURITY_MAX_HORIZON_SECS,
        };
        let sym = match validate_init_config(now, invoice_id, amount, yield_bps, maturity, &yield_tiers,
            min_contribution, max_unique_investors, max_per_investor, horizon, funding_deadline) {
            Ok(s) => s,
            Err(e) => {
                return Err(Failure::Escrow(e));
            },
        };
        let escrow = InvoiceEscrow {
            invoice_id: sym,
            admin,
            sme_address,
            payer: admin,
            amount,
            funding_target: amount,
            funded_amount: 0,
            yield_bps,
            maturity,
            status: 0,
            dispute_active: false,
        };
        let delay: u64 = match legal_hold_clear_delay {
            Some(d) => d,
            None => 0,
        };
        let floor: i128 = match min_contribution {
            Some(mc) => mc,
            None => 0,
        };
        let deadline = if funding_deadline.is_some() { funding_deadline } else { self.funding_deadline };
        let decimals = if token_decimals.is_some() { token_decimals } else { self.token_decimals };
        let registry_ref = if registry.is_some() { registry } else { self.registry_ref };
        let per_cap = if max_per_investor.is_some() { max_per_investor } else { self.max_per_investor_cap };
        let unique_cap = if max_unique_investors.is_some() { max_unique_investors } else { self.max_unique_investors_cap };
        let hold_delay = if delay > 0 { delay } else { self.legal_hold_clear_delay };
        let allowlist = match allowlist_active {
            Some(b) => b,
            None => self.allowlist_active,
        };
        self.maturity_max_horizon = Some(horizon);
        self.funding_deadline = deadline;
        self.funding_token = Some(funding_token);
        self.treasury = Some(treasury);
        self.token_decimals = decimals;
        self.version = Some(SCHEMA_VERSION);
        self.registry_ref = registry_ref;
        self.min_contribution_floor = floor;
        self.protocol_fee_bps = fee;
        self.unique_funder_count = 0;
        self.max_per_investor_cap = per_cap;
        self.max_unique_investors_cap = unique_cap;
        self.legal_hold_clear_delay = hold_delay;
        self.allowlist_active = allowlist;
        if let Some(t) = yield_tiers {
            self.yield_tiers = t;
        }
        self.escrow = Some(escrow);
        proof {
            let a = InitArgs {
                admin, invoice_id: invoice_id@, sme_address, amount, yield_bps, maturity,
                funding_token, registry, treasury, yield_tiers: tv,
                min_contribution, max_unique_investors, max_per_investor, legal_hold_clear_delay,
                maturity_max_horizon, funding_deadline, allowlist_active, protocol_fee_bps,
                token_decimals,
            };

        }
        Ok(escrow)
    }
}

} // verus!
