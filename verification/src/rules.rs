//! Pure rules of the escrow: status predicates, validation of configuration, tier selection,
//! pagination windows and the payout arithmetic.
use vstd::prelude::*;
use crate::consts::{TTL_ACTIVE_ESCROW_LEDGERS, TTL_DISPUTED_ESCROW_LEDGERS, TTL_TERMINAL_ESCROW_LEDGERS};
use crate::errors::EscrowError;
use crate::types::{InvoiceEscrow, Sym, YieldResolution, YieldTier};

verus! {

/// `10^n`.
pub open spec fn pow10(n: nat) -> int
    decreases n,
{
    if n == 0 { 1 } else { 10 * pow10((n - 1) as nat) }
}

proof fn lemma_pow10_positive_monotone(m: nat, n: nat)
    requires
        m <= n,
    ensures
        1 <= pow10(m) <= pow10(n),
    decreases n,
{
    if n > m {
        lemma_pow10_positive_monotone(m, (n - 1) as nat);
    } else if n > 0 {
        lemma_pow10_positive_monotone(0, (n - 1) as nat);
    }
}

/// Whether `amount` is representable at `token_decimals` decimal places: the scale `10^d`
/// fits in an `i128` and divides `amount` (scale 0 accepts every amount).
pub open spec fn decimal_scale_ok(amount: i128, token_decimals: u32) -> bool {
    token_decimals == 0 || (pow10(token_decimals as nat) <= i128::MAX && (amount as int) % pow10(token_decimals as nat) == 0)
}

/// Rejects an amount that cannot be represented exactly at `token_decimals` decimal places,
/// with [`EscrowError::FundingTokenScaleInvalid`].
pub fn validate_decimal_scale(amount: i128, token_decimals: u32) -> (r: Result<(), EscrowError>)
    ensures
        r is Ok <==> decimal_scale_ok(amount, token_decimals),
        r is Err ==> r == Err::<(), EscrowError>(EscrowError::FundingTokenScaleInvalid),
{
    if token_decimals == 0 {
        return Ok(());
    }
    let mut divisor: i128 = 1;
    let mut i: u32 = 0;
    while i < token_decimals
        invariant
            0 <= i <= token_decimals,
            divisor as int == pow10(i as nat),
        decreases token_decimals - i,
    {
        match divisor.checked_mul(10) {
            Some(d) => {
                divisor = d;
            },
            None => {
                proof {
                    lemma_pow10_positive_monotone((i + 1) as nat, token_decimals as nat);
                }
                return Err(EscrowError::FundingTokenScaleInvalid);
            },
        }
        i = i + 1;
    }
    proof {
        lemma_pow10_positive_monotone(0, token_decimals as nat);
    }
    let rem = match amount.checked_rem(divisor) {
        Some(r) => r,
        None => {
            return Err(EscrowError::FundingTokenScaleInvalid);
        },
    };
    let ghost x = amount as int;
    let ghost d = divisor as int;
    assert(d == pow10(token_decimals as nat));
    proof {
        if x < 0 {
            lemma_neg_mod_zero(x, d);
        }
        if x == 0 {
            vstd::arithmetic::div_mod::lemma_small_mod(0nat, d as nat);
        }
    }
    if rem == 0 {
        assert(x % d == 0);
        Ok(())
    } else {
        assert(x % d != 0);
        Err(EscrowError::FundingTokenScaleInvalid)
    }
}

proof fn lemma_neg_mod_zero(x: int, d: int)
    requires
        d > 0,
    ensures
        ((x * -1) % d == 0) <==> (x % d == 0),
{
    vstd::arithmetic::div_mod::lemma_fundamental_div_mod(x, d);
    vstd::arithmetic::div_mod::lemma_fundamental_div_mod(x * -1, d);
    if x % d == 0 {
        let q = x / d;
        assert(x * -1 == (-q) * d) by (nonlinear_arith)
            requires
                x == d * q,
        ;
        vstd::arithmetic::div_mod::lemma_mod_multiples_basic(-q, d);
    }
    if (x * -1) % d == 0 {
        let q = (x * -1) / d;
        assert(x == (-q) * d) by (nonlinear_arith)
            requires
                x * -1 == d * q,
        ;
        vstd::arithmetic::div_mod::lemma_mod_multiples_basic(-q, d);
    }
}

/// `true` for the terminal statuses: settled (2), withdrawn (3) and cancelled (4).
pub open spec fn spec_is_terminal_status(status: u32) -> bool {
    2 <= status <= 4
}

#[verifier::when_used_as_spec(spec_is_terminal_status)]
pub fn is_terminal_status(status: u32) -> (b: bool)
    ensures
        b == spec_is_terminal_status(status),
{
    2 <= status && status <= 4
}

/// `true` for the pre-settlement statuses: open (0) and funded (1).
pub open spec fn spec_is_pre_settlement_status(status: u32) -> bool {
    status == 0 || status == 1
}

#[verifier::when_used_as_spec(spec_is_pre_settlement_status)]
pub fn is_pre_settlement_status(status: u32) -> (b: bool)
    ensures
        b == spec_is_pre_settlement_status(status),
{
    status == 0 || status == 1
}

/// `true` when there is no maturity lock or `now >= maturity`.
pub open spec fn spec_is_maturity_reached(now: u64, maturity: u64) -> bool {
    maturity == 0 || now >= maturity
}

#[verifier::when_used_as_spec(spec_is_maturity_reached)]
pub fn is_maturity_reached(now: u64, maturity: u64) -> (b: bool)
    ensures
        b == spec_is_maturity_reached(now, maturity),
{
    maturity == 0 || now >= maturity
}

/// The error a maturity timestamp draws against the horizon, if any.
pub open spec fn maturity_bounds_error(now: u64, maturity: u64, max_horizon: u64) -> Option<EscrowError> {
    if maturity == 0 {
        None
    } else if maturity < now {
        Some(EscrowError::MaturityInPast)
    } else if maturity as int > now as int + max_horizon as int && now as int + max_horizon as int <= u64::MAX {
        Some(EscrowError::MaturityExceedsMaxHorizon)
    } else {
        None
    }
}

/// A non-zero maturity must not lie in the past nor beyond `now + max_horizon` (saturating).
pub fn validate_maturity_bounds(now: u64, maturity: u64, max_horizon: u64) -> (r: Result<(), EscrowError>)
    ensures
        match maturity_bounds_error(now, maturity, max_horizon) {
            Some(e) => r == Err::<(), EscrowError>(e),
            None => r is Ok,
        },
{
    if maturity == 0 {
        return Ok(());
    }
    if maturity < now {
        return Err(EscrowError::MaturityInPast);
    }
    let max_allowed = now.saturating_add(max_horizon);
    if maturity > max_allowed {
        return Err(EscrowError::MaturityExceedsMaxHorizon);
    }
    Ok(())
}

/// ASCII letter, digit or underscore.
pub open spec fn is_id_byte(b: u8) -> bool {
    (0x41 <= b <= 0x5a) || (0x61 <= b <= 0x7a) || (0x30 <= b <= 0x39) || b == 0x5f
}

/// The error an invoice identifier draws, if any: its length must be `1..=32` bytes and
/// every byte in `[A-Za-z0-9_]`.
pub open spec fn invoice_id_error(text: Seq<u8>) -> Option<EscrowError> {
    if !(1 <= text.len() <= 32) {
        Some(EscrowError::InvoiceIdInvalidLength)
    } else if exists|i: int| 0 <= i < text.len() && !is_id_byte(#[trigger] text[i]) {
        Some(EscrowError::InvoiceIdInvalidCharset)
    } else {
        None
    }
}

/// Validates an invoice identifier and turns it into the stored symbol.
pub fn validate_invoice_id(text: &[u8]) -> (r: Result<Sym, EscrowError>)
    ensures
        match invoice_id_error(text@) {
            Some(e) => r == Err::<Sym, EscrowError>(e),
            None => r matches Ok(s) && s.text() == text@ && s.len == text@.len() && s.canonical(),
        },
{
    let n = text.len();
    if n < 1 || n > 32 {
        return Err(EscrowError::InvoiceIdInvalidLength);
    }
    let mut i: usize = 0;
    while i < n
        invariant
            n == text@.len(),
            1 <= n <= 32,
            0 <= i <= n,
            forall|j: int| 0 <= j < i ==> is_id_byte(#[trigger] text@[j]),
        decreases n - i,
    {
        let b = text[i];
        let ok = (b >= 0x41 && b <= 0x5a) || (b >= 0x61 && b <= 0x7a) || (b >= 0x30 && b <= 0x39) || b == 0x5f;
        if !ok {
            assert(!is_id_byte(text@[i as int]));
            assert(exists|j: int| 0 <= j < text@.len() && !is_id_byte(#[trigger] text@[j]));
            return Err(EscrowError::InvoiceIdInvalidCharset);
        }
        i = i + 1;
    }
    Ok(Sym::from_bytes(text))
}

/// The error tier `i` draws in the validation of a tier table against `base`.
pub open spec fn tier_error(t: Seq<YieldTier>, i: int, base: i64) -> Option<EscrowError> {
    if !(0 <= t[i].yield_bps <= 10_000) {
        Some(EscrowError::TierYieldOutOfRange)
    } else if t[i].yield_bps < base {
        Some(EscrowError::TierYieldBelowBase)
    } else if i > 0 && t[i].min_lock_secs <= t[i - 1].min_lock_secs {
        Some(EscrowError::TierLockNotIncreasing)
    } else if i > 0 && t[i].yield_bps < t[i - 1].yield_bps {
        Some(EscrowError::TierYieldNotNonDecreasing)
    } else {
        None
    }
}

/// The first error among tiers `i..`, scanning in order.
pub open spec fn tiers_error_from(t: Seq<YieldTier>, base: i64, i: int) -> Option<EscrowError>
    decreases t.len() - i,
{
    if i < 0 || i >= t.len() {
        None
    } else {
        match tier_error(t, i, base) {
            Some(e) => Some(e),
            None => tiers_error_from(t, base, i + 1),
        }
    }
}

/// Validates a tier table: each yield in `0..=10_000` and at least `base`, locks
/// strictly increasing, yields non-decreasing. The first offending tier decides the error.
pub fn validate_yield_tiers_table(t: &Vec<YieldTier>, base: i64) -> (r: Result<(), EscrowError>)
    ensures
        match tiers_error_from(t@, base, 0) {
            Some(e) => r == Err::<(), EscrowError>(e),
            None => r is Ok,
        },
{
    let n = t.len();
    let mut i: usize = 0;
    while i < n
        invariant
            n == t@.len(),
            0 <= i <= n,
            tiers_error_from(t@, base, 0) == tiers_error_from(t@, base, i as int),
        decreases n - i,
    {
        let ti = t[i];
        assert(tiers_error_from(t@, base, i as int) == match tier_error(t@, i as int, base) {
            Some(e) => Some(e),
            None => tiers_error_from(t@, base, i as int + 1),
        });
        if !(ti.yield_bps >= 0 && ti.yield_bps <= 10_000) {
            return Err(EscrowError::TierYieldOutOfRange);
        }
        if ti.yield_bps < base {
            return Err(EscrowError::TierYieldBelowBase);
        }
        if i > 0 {
            let p = t[i - 1];
            if ti.min_lock_secs <= p.min_lock_secs {
                return Err(EscrowError::TierLockNotIncreasing);
            }
            if ti.yield_bps < p.yield_bps {
                return Err(EscrowError::TierYieldNotNonDecreasing);
            }
        }
        i = i + 1;
    }
    Ok(())
}

/// A table that passes validation is ordered: locks strictly increase, yields never decrease,
/// and every yield lies between `base` and 10 000.
pub proof fn law_valid_tier_table_is_ordered(t: Seq<YieldTier>, base: i64)
    requires
        tiers_error_from(t, base, 0) is None,
    ensures
        forall|i: int, j: int| 0 <= i < j < t.len() ==> t[i].min_lock_secs < t[j].min_lock_secs && t[i].yield_bps <= t[j].yield_bps,
        forall|i: int| 0 <= i < t.len() ==> base <= #[trigger] t[i].yield_bps <= 10_000,
{
    assert forall|k: int| 0 <= k < t.len() implies tier_error(t, k, base) is None by {
        lemma_tiers_error_from_none(t, base, 0, k);
    }
    assert forall|i: int, j: int| 0 <= i < j < t.len() implies t[i].min_lock_secs < t[j].min_lock_secs && t[i].yield_bps <= t[j].yield_bps by {
        lemma_tiers_chain(t, base, i, j);
    }
    assert forall|i: int| 0 <= i < t.len() implies base <= #[trigger] t[i].yield_bps <= 10_000 by {
        assert(tier_error(t, i, base) is None);
    }
}

proof fn lemma_tiers_error_from_none(t: Seq<YieldTier>, base: i64, i: int, k: int)
    requires
        0 <= i <= k < t.len(),
        tiers_error_from(t, base, i) is None,
    ensures
        tier_error(t, k, base) is None,
    decreases k - i,
{
    if i < k {
        lemma_tiers_error_from_none(t, base, i + 1, k);
    }
}

proof fn lemma_tiers_chain(t: Seq<YieldTier>, base: i64, i: int, j: int)
    requires
        0 <= i < j < t.len(),
        forall|k: int| 0 <= k < t.len() ==> tier_error(t, k, base) is None,
    ensures
        t[i].min_lock_secs < t[j].min_lock_secs && t[i].yield_bps <= t[j].yield_bps,
    decreases j - i,
{
    assert(tier_error(t, j, base) is None);
    if j - 1 > i {
        lemma_tiers_chain(t, base, i, j - 1);
    }
}

/// Tier resolution over the first `n` tiers: scanning in order, a tier replaces the running
/// best when the commitment reaches its lock and its yield is strictly higher.
pub open spec fn resolve_prefix(t: Seq<YieldTier>, base: i64, lock: u64, n: int) -> YieldResolution
    decreases n,
{
    if n <= 0 {
        YieldResolution { effective_yield_bps: base, matched_lock_secs: 0 }
    } else {
        let prev = resolve_prefix(t, base, lock, n - 1);
        let ti = t[n - 1];
        if lock >= ti.min_lock_secs && ti.yield_bps > prev.effective_yield_bps {
            YieldResolution { effective_yield_bps: ti.yield_bps, matched_lock_secs: ti.min_lock_secs }
        } else {
            prev
        }
    }
}

/// The resolution of a commitment of `lock` seconds against a tier table: the base yield for a
/// zero lock or an empty table, otherwise the highest yield among the tiers the lock reaches
/// (the earliest such tier on ties), or the base yield when none beats it.
pub open spec fn spec_resolution(t: Seq<YieldTier>, base: i64, lock: u64) -> YieldResolution {
    if lock == 0 || t.len() == 0 {
        YieldResolution { effective_yield_bps: base, matched_lock_secs: 0 }
    } else {
        resolve_prefix(t, base, lock, t.len() as int)
    }
}

/// Resolves the effective yield of a commitment of `committed_lock_secs` seconds.
pub fn effective_yield_for_commitment(tiers: &Vec<YieldTier>, base_yield: i64, committed_lock_secs: u64) -> (r: YieldResolution)
    ensures
        r == spec_resolution(tiers@, base_yield, committed_lock_secs),
{
    if committed_lock_secs == 0 || tiers.len() == 0 {
        return YieldResolution { effective_yield_bps: base_yield, matched_lock_secs: 0 };
    }
    let mut best = base_yield;
    let mut best_lock: u64 = 0;
    let n = tiers.len();
    let mut i: usize = 0;
    while i < n
        invariant
            n == tiers@.len(),
            0 <= i <= n,
            resolve_prefix(tiers@, base_yield, committed_lock_secs, i as int)
                == (YieldResolution { effective_yield_bps: best, matched_lock_secs: best_lock }),
        decreases n - i,
    {
        let t = tiers[i];
        if committed_lock_secs >= t.min_lock_secs && t.yield_bps > best {
            best = t.yield_bps;
            best_lock = t.min_lock_secs;
        }
        i = i + 1;
    }
    YieldResolution { effective_yield_bps: best, matched_lock_secs: best_lock }
}

/// The resolved yield is at least the base and every tier the lock reaches, and it is either
/// the base yield with no matched lock or the yield of a tier the lock reaches.
pub proof fn law_resolution_is_best_reachable_tier(t: Seq<YieldTier>, base: i64, lock: u64)
    requires
        lock > 0,
    ensures
        spec_resolution(t, base, lock).effective_yield_bps >= base,
        forall|k: int| 0 <= k < t.len() && lock >= #[trigger] t[k].min_lock_secs
            ==> t[k].yield_bps <= spec_resolution(t, base, lock).effective_yield_bps,
        spec_resolution(t, base, lock) == (YieldResolution { effective_yield_bps: base, matched_lock_secs: 0 })
            || exists|k: int| 0 <= k < t.len() && lock >= t[k].min_lock_secs
                && spec_resolution(t, base, lock) == (YieldResolution { effective_yield_bps: #[trigger] t[k].yield_bps, matched_lock_secs: t[k].min_lock_secs }),
{
    lemma_resolve_prefix(t, base, lock, t.len() as int);
}

proof fn lemma_resolve_prefix(t: Seq<YieldTier>, base: i64, lock: u64, n: int)
    requires
        0 <= n <= t.len(),
    ensures
        resolve_prefix(t, base, lock, n).effective_yield_bps >= base,
        forall|k: int| 0 <= k < n && lock >= #[trigger] t[k].min_lock_secs
            ==> t[k].yield_bps <= resolve_prefix(t, base, lock, n).effective_yield_bps,
        resolve_prefix(t, base, lock, n) == (YieldResolution { effective_yield_bps: base, matched_lock_secs: 0 })
            || exists|k: int| 0 <= k < n && lock >= t[k].min_lock_secs
                && resolve_prefix(t, base, lock, n) == (YieldResolution { effective_yield_bps: #[trigger] t[k].yield_bps, matched_lock_secs: t[k].min_lock_secs }),
    decreases n,
{
    if n > 0 {
        lemma_resolve_prefix(t, base, lock, n - 1);
        let prev = resolve_prefix(t, base, lock, n - 1);
        let ti = t[n - 1];
        if lock >= ti.min_lock_secs && ti.yield_bps > prev.effective_yield_bps {
            assert(t[n - 1] == ti);
        } else {
            if prev != (YieldResolution { effective_yield_bps: base, matched_lock_secs: 0 }) {
                let k = choose|k: int| 0 <= k < n - 1 && lock >= t[k].min_lock_secs
                    && prev == (YieldResolution { effective_yield_bps: #[trigger] t[k].yield_bps, matched_lock_secs: t[k].min_lock_secs });
                assert(0 <= k < n && lock >= t[k].min_lock_secs);
            }
        }
    }
}

/// Storage TTL horizon for the escrow's lifecycle stage.
pub open spec fn spec_lifecycle_ttl(escrow: &InvoiceEscrow) -> u32 {
    if escrow.dispute_active {
        TTL_DISPUTED_ESCROW_LEDGERS
    } else if escrow.status >= 2 {
        TTL_TERMINAL_ESCROW_LEDGERS
    } else {
        TTL_ACTIVE_ESCROW_LEDGERS
    }
}

#[verifier::when_used_as_spec(spec_lifecycle_ttl)]
pub fn get_lifecycle_ttl(escrow: &InvoiceEscrow) -> (t: u32)
    ensures
        t == spec_lifecycle_ttl(escrow),
{
    if escrow.dispute_active {
        TTL_DISPUTED_ESCROW_LEDGERS
    } else if escrow.status >= 2 {
        TTL_TERMINAL_ESCROW_LEDGERS
    } else {
        TTL_ACTIVE_ESCROW_LEDGERS
    }
}

pub open spec fn min_int(a: int, b: int) -> int {
    if a <= b { a } else { b }
}

/// The window `[start, end)` of a page: empty (None) when `start >= len` or `limit == 0`,
/// otherwise at most `min(limit, max)` items and never past `len`.
pub open spec fn spec_paginate_window(start: u32, limit: u32, max: u32, len: u32) -> Option<(u32, u32)> {
    if start >= len || limit == 0 {
        None
    } else {
        Some((start, min_int(start + min_int(limit as int, max as int), len as int) as u32))
    }
}

pub fn paginate_window(start: u32, limit: u32, max: u32, len: u32) -> (r: Option<(u32, u32)>)
    ensures
        r == spec_paginate_window(start, limit, max, len),
{
    if start >= len || limit == 0 {
        return None;
    }
    let actual = if limit <= max { limit } else { max };
    let end64: u64 = start as u64 + actual as u64;
    let end: u32 = if end64 <= len as u64 { end64 as u32 } else { len };
    Some((start, end))
}

/// `x / d` rounded toward zero, as Rust's integer division computes it.
pub open spec fn trunc_div(x: int, d: int) -> int {
    if x == 0 {
        0
    } else if x > 0 && d > 0 {
        x / d
    } else if x < 0 && d < 0 {
        (x * -1) / (d * -1)
    } else if x < 0 {
        ((x * -1) / d) * -1
    } else {
        (x / (d * -1)) * -1
    }
}

pub open spec fn fits_i128(x: int) -> bool {
    i128::MIN <= x <= i128::MAX
}

/// `principal * yield_bps / 10_000`, truncated, when every step fits in an `i128`.
pub open spec fn spec_coupon(principal: i128, yield_bps: i64) -> Option<i128> {
    if !fits_i128(principal * yield_bps) {
        None
    } else {
        Some(trunc_div(principal * yield_bps, 10_000) as i128)
    }
}

/// Checked coupon arithmetic.
pub fn coupon(principal: i128, yield_bps: i64) -> (r: Option<i128>)
    ensures
        r == spec_coupon(principal, yield_bps),
{
    match principal.checked_mul(yield_bps as i128) {
        Some(m) => m.checked_div(10_000),
        None => None,
    }
}

/// The settlement pool `principal + coupon`, when it fits.
pub open spec fn spec_settle_pool(principal: i128, yield_bps: i64) -> Option<i128> {
    match spec_coupon(principal, yield_bps) {
        None => None,
        Some(c) => if fits_i128(principal + c) { Some((principal + c) as i128) } else { None },
    }
}

pub fn settle_pool(principal: i128, yield_bps: i64) -> (r: Option<i128>)
    ensures
        r == spec_settle_pool(principal, yield_bps),
{
    match coupon(principal, yield_bps) {
        None => None,
        Some(c) => principal.checked_add(c),
    }
}

/// The gross payout of a `contribution` out of `total_principal`:
/// `contribution * pool / total_principal`, truncated, where the pool is the total plus the
/// coupon at `yield_bps`. `Ok(0)` for no contribution or a non-positive total; an arithmetic
/// overflow is [`EscrowError::ComputePayoutArithmeticOverflow`].
pub open spec fn spec_payout(contribution: i128, total_principal: i128, yield_bps: i64) -> Result<i128, EscrowError> {
    if contribution == 0 || total_principal <= 0 {
        Ok(0)
    } else {
        match spec_settle_pool(total_principal, yield_bps) {
            None => Err(EscrowError::ComputePayoutArithmeticOverflow),
            Some(pool) => if fits_i128(contribution * pool) {
                Ok(trunc_div(contribution * pool, total_principal as int) as i128)
            } else {
                Err(EscrowError::ComputePayoutArithmeticOverflow)
            },
        }
    }
}

pub fn payout(contribution: i128, total_principal: i128, yield_bps: i64) -> (r: Result<i128, EscrowError>)
    ensures
        r == spec_payout(contribution, total_principal, yield_bps),
{
    if contribution == 0 || total_principal <= 0 {
        return Ok(0);
    }
    match settle_pool(total_principal, yield_bps) {
        None => Err(EscrowError::ComputePayoutArithmeticOverflow),
        Some(pool) => match contribution.checked_mul(pool) {
            None => Err(EscrowError::ComputePayoutArithmeticOverflow),
            Some(m) => match m.checked_div(total_principal) {
                Some(p) => Ok(p),
                None => Err(EscrowError::ComputePayoutArithmeticOverflow),
            },
        },
    }
}

/// The protocol fee split of a disbursement: `fee = amount * fee_bps / 10_000` (truncated)
/// and `net = amount - fee`, when both fit.
pub open spec fn spec_fee_split(amount: i128, fee_bps: i64) -> Result<(i128, i128), EscrowError> {
    match spec_coupon(amount, fee_bps) {
        None => Err(EscrowError::WithdrawFeeArithmeticOverflow),
        Some(fee) => if fits_i128(amount - fee) {
            Ok((fee, (amount - fee) as i128))
        } else {
            Err(EscrowError::WithdrawNetArithmeticUnderflow)
        },
    }
}

pub fn fee_split(amount: i128, fee_bps: i64) -> (r: Result<(i128, i128), EscrowError>)
    ensures
        r == spec_fee_split(amount, fee_bps),
        r matches Ok((fee, net)) ==> fee + net == amount,
{
    let fee = match coupon(amount, fee_bps) {
        Some(f) => f,
        None => {
            return Err(EscrowError::WithdrawFeeArithmeticOverflow);
        },
    };
    match amount.checked_sub(fee) {
        Some(net) => Ok((fee, net)),
        None => Err(EscrowError::WithdrawNetArithmeticUnderflow),
    }
}

/// `a - b` clamped to the `i128` range.
pub open spec fn spec_sat_sub(a: i128, b: i128) -> i128 {
    if a - b > i128::MAX {
        i128::MAX
    } else if a - b < i128::MIN {
        i128::MIN
    } else {
        (a - b) as i128
    }
}

pub fn sat_sub(a: i128, b: i128) -> (r: i128)
    ensures
        r == spec_sat_sub(a, b),
{
    match a.checked_sub(b) {
        Some(d) => d,
        None => if b < 0 { i128::MAX } else { i128::MIN },
    }
}

/// `a + b` clamped to the `i128` range.
pub open spec fn spec_sat_add(a: i128, b: i128) -> i128 {
    if a + b > i128::MAX {
        i128::MAX
    } else if a + b < i128::MIN {
        i128::MIN
    } else {
        (a + b) as i128
    }
}

pub fn sat_add(a: i128, b: i128) -> (r: i128)
    ensures
        r == spec_sat_add(a, b),
{
    match a.checked_add(b) {
        Some(s) => s,
        None => if b > 0 { i128::MAX } else { i128::MIN },
    }
}

} // verus!
