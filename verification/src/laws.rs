//! Properties that span entrypoints: what each operation keeps, what a second call meets,
//! and how batch entrypoints relate to their single counterparts.
use vstd::prelude::*;
use crate::consts::{MAX_ATTESTATION_APPEND_ENTRIES, MAX_UNIQUE_INVESTORS};
use crate::errors::{EscrowError, Failure};
use crate::rules::{spec_fee_split, spec_payout, spec_settle_pool};
use vstd::arithmetic::div_mod::{lemma_div_is_ordered, lemma_div_multiples_vanish, lemma_div_pos_is_pos, lemma_fundamental_div_mod, lemma_mod_bound};
use crate::state::{auth_gate, fail_if, first, Store};
use crate::funding::fund_fold;
use crate::lifecycle::InitArgs;
use crate::types::{Addr, CallContext, Digest, PauseEntry, PauseReason, PauseScope, Sym};

verus! {

/// Withdrawal conserves value: the treasury fee and the SME's net add up to the disbursed
/// amount, and for a fee within `0..=10_000` bps on a non-negative amount neither part is
/// negative.
pub proof fn law_withdraw_split_conserves(amount: i128, fee_bps: i64)
    requires
        spec_fee_split(amount, fee_bps) is Ok,
    ensures
        ({
            let (fee, net) = spec_fee_split(amount, fee_bps).unwrap();
            &&& fee + net == amount
            &&& (amount >= 0 && 0 <= fee_bps <= 10_000) ==> (0 <= fee <= amount && 0 <= net <= amount)
        }),
{
    let (fee, net) = spec_fee_split(amount, fee_bps).unwrap();
    if amount >= 0 && 0 <= fee_bps <= 10_000 {
        let m = amount * fee_bps;
        assert(0 <= m <= amount * 10_000) by (nonlinear_arith)
            requires amount >= 0, 0 <= fee_bps <= 10_000, m == amount * fee_bps;
        if m > 0 {
            assert(m / 10_000 <= amount) by (nonlinear_arith)
                requires 0 <= m <= amount * 10_000;
        }
    }
}

/// The funding close snapshot is written once: no funding call, early close or target change
/// replaces a snapshot that exists.
pub proof fn law_close_snapshot_write_once(s: Store, call: CallContext, investor: Addr, amount: i128, simple: bool, lock: u64, new_target: i128)
    requires
        s.funding_close_snapshot is Some,
    ensures
        s.fund_post(call, investor, amount, simple, lock).funding_close_snapshot == s.funding_close_snapshot,
        s.partial_settle_post(call).funding_close_snapshot == s.funding_close_snapshot,
        s.update_target_post(call, new_target).funding_close_snapshot == s.funding_close_snapshot,
{
}

/// A funding call that closes funding records the whole funded principal (over-funding
/// included) and the target in the snapshot.
pub proof fn law_close_snapshot_records_principal(s: Store, call: CallContext, investor: Addr, amount: i128, simple: bool, lock: u64)
    requires
        s.fund_gate(call, investor, amount, simple, lock) is None,
        s.funding_close_snapshot is None,
        s.esc().funded_amount + amount >= s.esc().funding_target,
    ensures
        ({
            let p = s.fund_post(call, investor, amount, simple, lock);
            &&& p.esc().status == 1
            &&& p.funding_close_snapshot matches Some(snap)
                && snap.total_principal == s.esc().funded_amount + amount
                && snap.funding_target == s.esc().funding_target
        }),
{
}

/// A funding call adds exactly `amount` to the escrow's principal and to the investor's
/// contribution, and leaves every other investor's record alone.
pub proof fn law_fund_adds_principal(s: Store, call: CallContext, investor: Addr, amount: i128, simple: bool, lock: u64, other: Addr)
    requires
        s.fund_gate(call, investor, amount, simple, lock) is None,
        other != investor,
    ensures
        ({
            let p = s.fund_post(call, investor, amount, simple, lock);
            &&& p.esc().funded_amount == s.esc().funded_amount + amount
            &&& p.contribution_of(investor) == s.contribution_of(investor) + amount
            &&& (p.investors)(other) == (s.investors)(other)
        }),
{
}

/// An investor's yield and claim lock are fixed by the first deposit: follow-on deposits
/// keep them.
pub proof fn law_tier_fixed_after_first_deposit(s: Store, call: CallContext, investor: Addr, amount: i128, simple: bool, lock: u64)
    requires
        s.fund_gate(call, investor, amount, simple, lock) is None,
        s.contribution_of(investor) != 0,
    ensures
        (s.fund_post(call, investor, amount, simple, lock).investors)(investor).effective_yield == (s.investors)(investor).effective_yield,
        (s.fund_post(call, investor, amount, simple, lock).investors)(investor).claim_not_before == (s.investors)(investor).claim_not_before,
{
}

/// The distinct-funder count never passes the hard ceiling nor a configured cap through
/// funding.
pub proof fn law_funder_count_capped(s: Store, call: CallContext, investor: Addr, amount: i128, simple: bool, lock: u64)
    requires
        s.fund_gate(call, investor, amount, simple, lock) is None,
        s.unique_funder_count <= MAX_UNIQUE_INVESTORS,
        s.max_unique_investors_cap matches Some(c) ==> s.unique_funder_count <= c,
    ensures
        ({
            let p = s.fund_post(call, investor, amount, simple, lock);
            &&& p.unique_funder_count <= MAX_UNIQUE_INVESTORS
            &&& (p.max_unique_investors_cap matches Some(c) ==> p.unique_funder_count <= c)
        }),
{
}

/// Withdrawing principal before close undoes a deposit: after a funding call of `amount`,
/// `unfund` of the same amount restores the funded principal and the investor's
/// contribution.
pub proof fn law_unfund_undoes_fund(s: Store, call: CallContext, investor: Addr, amount: i128, simple: bool, lock: u64, call2: CallContext)
    requires
        s.fund_gate(call, investor, amount, simple, lock) is None,
        s.fund_post(call, investor, amount, simple, lock).unfund_gate(call2, investor, amount) is None,
    ensures
        ({
            let p = s.fund_post(call, investor, amount, simple, lock).unfund_post(investor, amount);
            &&& p.esc().funded_amount == s.esc().funded_amount
            &&& p.contribution_of(investor) == s.contribution_of(investor)
        }),
{
}

/// Settlement happens once: after a successful `settle`, every later `settle` fails.
pub proof fn law_settle_once(s: Store, call: CallContext, later: CallContext)
    requires
        s.settle_gate(call) is None,
    ensures
        s.settle_post(call).settle_gate(later) is Some,
{
    let p = s.settle_post(call);
    assert(p.esc().status == 2);
}

/// A claim pays once: after a paying claim, the investor is marked claimed, so a later claim
/// that passes the guards pays nothing and changes nothing.
pub proof fn law_claim_pays_once(s: Store, call: CallContext, investor: Addr)
    requires
        s.claim_gate(call, investor) is None,
        !(s.investors)(investor).is_claimed(),
        s.claim_payout_gate(investor) is None,
    ensures
        (s.claim_post(investor).investors)(investor).is_claimed(),
{
}

/// A refund pays once: after a refund the investor has no contribution left, so refunding
/// again fails with `NoContributionToRefund` (or an earlier guard).
pub proof fn law_refund_once(s: Store, call: CallContext, investor: Addr, later: CallContext)
    requires
        s.refund_gate(call, investor) is None,
    ensures
        s.refund_post(investor).contribution_of(investor) == 0,
        s.refund_post(investor).refund_gate(later, investor) is Some,
{
}

/// The admin nonce protects against replay: after a nonce-protected call succeeds with
/// nonce `n`, the stored nonce is `n + 1` and presenting `n` again fails.
pub proof fn law_admin_nonce_single_use(s: Store, expected: u32)
    requires
        s.nonce_gate(expected) is None,
    ensures
        s.bump_nonce().admin_nonce == expected + 1,
        s.bump_nonce().nonce_gate(expected) == Some(Failure::Escrow(EscrowError::AdminNonceMismatch)),
{
}

/// The dust sweep never takes principal still owed to the investors of a cancelled escrow:
/// what stays in the contract covers the outstanding principal.
pub proof fn law_sweep_keeps_liability_floor(s: Store, call: CallContext, amount: i128, balance: i128)
    requires
        s.sweep_gate(call, amount, balance) is None,
        s.esc().status == 4,
    ensures
        balance - Store::sweep_amount(amount, balance) >= s.outstanding(),
        0 < Store::sweep_amount(amount, balance) <= amount,
        Store::sweep_amount(amount, balance) <= balance,
{
}

/// Releases never pay more than was funded: when the released total is within the funded
/// principal before a release, it still is after it.
pub proof fn law_release_within_funded(s: Store, call: CallContext, amount: i128, contract_balance: i128)
    requires
        s.release_gate(call, amount, contract_balance) is None,
        s.released_amount <= s.esc().funded_amount,
    ensures
        s.release_post(amount).released_amount <= s.release_post(amount).esc().funded_amount,
        s.release_post(amount).released_amount == s.released_amount + amount,
{
}

/// The primary attestation digest is single-set: once bound, binding again fails.
pub proof fn law_primary_attestation_single_set(s: Store, call: CallContext, digest: Digest)
    requires
        s.primary_attestation_hash is Some,
    ensures
        first(s.admin_gate(call), fail_if(s.primary_attestation_hash is Some, EscrowError::PrimaryAttestationAlreadyBound)) is Some,
{
}

/// The attestation log is append-only and bounded: an append keeps every earlier entry in
/// place and never grows the log past `MAX_ATTESTATION_APPEND_ENTRIES`.
pub proof fn law_attestation_log_append_only(log: Seq<Digest>, digest: Digest)
    requires
        log.len() < MAX_ATTESTATION_APPEND_ENTRIES,
    ensures
        log.push(digest).len() <= MAX_ATTESTATION_APPEND_ENTRIES,
        log.push(digest).subrange(0, log.len() as int) == log,
        log.push(digest)[log.len() as int] == digest,
{
    assert(log.push(digest).subrange(0, log.len() as int) =~= log);
}

/// The operational pause and the compliance hold are independent: toggling one leaves the
/// other as it was.
pub proof fn law_pause_and_hold_independent(s: Store, call: CallContext, active: bool, scope: PauseScope, reason: PauseReason, hold: bool)
    ensures
        s.set_paused_post(call, active, scope, reason).legal_hold == s.legal_hold,
        s.set_paused_post(call, active, scope, reason).legal_hold_clearable_at == s.legal_hold_clearable_at,
        s.set_legal_hold_post(hold).paused == s.paused,
        s.set_legal_hold_post(hold).pause_state == s.pause_state,
        s.set_legal_hold_post(hold).paused_at == s.paused_at,
{
}

/// An activated pause blocks the flows of its scope, and only those: right after
/// `set_paused(true, scope, ..)` an entry is blocked exactly when the scope covers it.
pub proof fn law_pause_blocks_its_scope(s: Store, call: CallContext, scope: PauseScope, reason: PauseReason, entry: PauseEntry)
    ensures
        s.set_paused_post(call, true, scope, reason).paused_blocks_at(call.timestamp, entry) == scope.spec_blocks(entry),
{
}

/// The toggle rate limit holds: with a limit configured, a successful `set_paused` keeps the
/// toggles counted in the window within the limit.
pub proof fn law_pause_toggles_within_limit(s: Store, call: CallContext, active: bool, scope: PauseScope, reason: PauseReason)
    requires
        s.set_paused_gate(call, active, scope) is None,
        s.pause_toggle_limit > 0,
        s.pause_toggle_count <= s.pause_toggle_limit,
    ensures
        s.set_paused_post(call, active, scope, reason).pause_toggle_count <= s.pause_toggle_limit,
{
}

/// The store after `calls`, each a successful `set_paused` that toggles: an activation, or a
/// clear of a pause in force. `None` when a call is refused or would not toggle.
pub open spec fn toggle_run(s: Store, calls: Seq<(CallContext, bool, PauseScope, PauseReason)>) -> Option<Store>
    decreases calls.len(),
{
    if calls.len() == 0 {
        Some(s)
    } else {
        match toggle_run(s, calls.drop_last()) {
            None => None,
            Some(t) => {
                let c = calls.last();
                if t.set_paused_gate(c.0, c.1, c.2) is None && (c.1 || t.effective_pause_scope(c.0.timestamp) is Some) {
                    Some(t.set_paused_post(c.0, c.1, c.2, c.3))
                } else {
                    None
                }
            },
        }
    }
}

/// Toggles that start a window at `t0` and stay inside it count one each in that window, and
/// leave the escrow and the rate-limit settings alone.
proof fn lemma_toggle_run_counts(s: Store, calls: Seq<(CallContext, bool, PauseScope, PauseReason)>, t0: u64)
    requires
        s.pause_toggle_limit > 0,
        s.pause_toggle_window_start is None,
        1 <= calls.len() <= s.pause_toggle_limit,
        calls[0].0.timestamp == t0,
        forall|i: int| 0 <= i < calls.len() ==> (#[trigger] calls[i]).0.timestamp < t0.saturating_add(s.pause_toggle_window_secs),
        toggle_run(s, calls) is Some,
    ensures
        ({
            let t = toggle_run(s, calls).unwrap();
            &&& t.escrow == s.escrow
            &&& t.pause_toggle_limit == s.pause_toggle_limit
            &&& t.pause_toggle_window_secs == s.pause_toggle_window_secs
            &&& t.pause_toggle_window_start == Some(t0)
            &&& t.pause_toggle_count == calls.len()
        }),
    decreases calls.len(),
{
    let init = calls.drop_last();
    let c = calls.last();
    assert(c == calls[calls.len() - 1]);
    let now = c.0.timestamp;
    if calls.len() > 1 {
        assert(init[0] == calls[0]);
        assert(forall|i: int| 0 <= i < init.len() ==> init[i] == calls[i]);
        lemma_toggle_run_counts(s, init, t0);
        let t = toggle_run(s, init).unwrap();
        assert(t.toggle_window(now) == (t0, t.pause_toggle_count));
        assert(t.count_toggle(now).pause_toggle_count == calls.len());
    } else {
        assert(init.len() == 0);
        assert(toggle_run(s, init) == Some(s));
        assert(c == calls[0]);
        assert(s.toggle_window(now) == (t0, 0u32));
        assert(s.count_toggle(now).pause_toggle_count == 1);
    }
}

/// The toggle rate limit over a window: once the limit is (re)configured, as many toggles as
/// the limit, the first at `t0` and all before the window's end `t0 + window`, use the window
/// up. A further `set_paused` by the admin before the window's end is refused with
/// `PauseToggleRateLimitExceeded`; one at or after it finds a fresh window with no toggles
/// counted.
pub proof fn law_pause_rate_limit_over_window(
    s: Store,
    calls: Seq<(CallContext, bool, PauseScope, PauseReason)>,
    later: CallContext,
    active: bool,
    scope: PauseScope,
)
    requires
        s.pause_toggle_limit > 0,
        s.pause_toggle_window_start is None,
        calls.len() == s.pause_toggle_limit,
        forall|i: int| 0 <= i < calls.len()
            ==> (#[trigger] calls[i]).0.timestamp < calls[0].0.timestamp.saturating_add(s.pause_toggle_window_secs),
        toggle_run(s, calls) is Some,
        s.admin_gate(later) is None,
    ensures
        later.timestamp < calls[0].0.timestamp.saturating_add(s.pause_toggle_window_secs)
            ==> toggle_run(s, calls).unwrap().set_paused_gate(later, active, scope)
                == Some(Failure::Escrow(EscrowError::PauseToggleRateLimitExceeded)),
        later.timestamp >= calls[0].0.timestamp.saturating_add(s.pause_toggle_window_secs)
            ==> toggle_run(s, calls).unwrap().toggle_window(later.timestamp) == (later.timestamp, 0u32),
{
    let t0 = calls[0].0.timestamp;
    lemma_toggle_run_counts(s, calls, t0);
    let t = toggle_run(s, calls).unwrap();
    assert(t.admin_gate(later) == s.admin_gate(later));
}

/// Lifting a compliance hold with a clear delay configured needs a clear request whose time
/// has come.
pub proof fn law_hold_clear_waits_for_request(s: Store, call: CallContext, expected_nonce: u32)
    requires
        s.set_legal_hold_gate(call, false, expected_nonce) is None,
        s.legal_hold,
        s.legal_hold_clear_delay > 0,
    ensures
        s.legal_hold_clearable_at matches Some(c) && call.timestamp >= c,
{
}

/// The two-step admin handover: once the successor accepts a proposal, the successor is the
/// admin and the former admin's authorization alone no longer passes the admin guard.
pub proof fn law_admin_handover(s: Store, call: CallContext, new_admin: Addr, expected_nonce: u32, accept: CallContext, later: CallContext)
    requires
        s.propose_admin_gate(call, new_admin, expected_nonce) is None,
        s.propose_admin_post(call, new_admin).accept_admin_gate(accept) is None,
        later.signers@ == seq![s.esc().admin],
    ensures
        s.propose_admin_post(call, new_admin).accept_admin_post().esc().admin == new_admin,
        s.propose_admin_post(call, new_admin).accept_admin_post().admin_gate(later) is Some,
{
    let p = s.propose_admin_post(call, new_admin).accept_admin_post();
    assert(!later.signers@.contains(new_admin)) by {
        if later.signers@.contains(new_admin) {
            let k = choose|k: int| 0 <= k < later.signers@.len() && later.signers@[k] == new_admin;
            assert(later.signers@[k] == s.esc().admin);
        }
    }
}

/// The readiness view predicts settlement: on an initialized escrow, `settle` authorized by
/// the SME succeeds exactly when `ready_now` (the value `is_settleable` reports) is true.
pub proof fn law_readiness_predicts_settle(s: Store, call: CallContext)
    requires
        s.escrow is Some,
        auth_gate(call, s.esc().sme_address) is None,
    ensures
        s.settleable_at(call.timestamp) <==> s.settle_gate(call) is None,
{
}

/// The registry hint carries no authority: stores that differ only in it meet the same
/// guards in the value-moving entrypoints.
pub proof fn law_registry_is_not_authority(s: Store, reg: Option<Addr>, call: CallContext, amount: i128, balance: i128, investor: Addr)
    ensures
        ({
            let t = Store { registry_ref: reg, ..s };
            &&& t.settle_gate(call) == s.settle_gate(call)
            &&& t.withdraw_gate(call, balance) == s.withdraw_gate(call, balance)
            &&& t.release_gate(call, amount, balance) == s.release_gate(call, amount, balance)
            &&& t.claim_gate(call, investor) == s.claim_gate(call, investor)
            &&& t.refund_gate(call, investor) == s.refund_gate(call, investor)
            &&& t.sweep_gate(call, amount, balance) == s.sweep_gate(call, amount, balance)
        }),
{
}

/// The sum of `cs`.
pub open spec fn seq_sum(cs: Seq<i128>) -> int
    decreases cs.len(),
{
    if cs.len() == 0 { 0 } else { seq_sum(cs.drop_last()) + cs.last() }
}

/// What a claim on contribution `c` pays out of `total` at yield `y` (nothing when the
/// computation fails).
pub open spec fn paid(c: i128, total: i128, y: i64) -> int {
    match spec_payout(c, total, y) {
        Ok(p) => p as int,
        Err(_) => 0,
    }
}

/// The payouts of every contribution in `cs`, added up.
pub open spec fn payouts_sum(cs: Seq<i128>, total: i128, y: i64) -> int
    decreases cs.len(),
{
    if cs.len() == 0 { 0 } else { payouts_sum(cs.drop_last(), total, y) + paid(cs.last(), total, y) }
}

/// Truncated division loses no more on a sum than on its parts.
proof fn lemma_div_add(a: int, b: int, t: int)
    requires
        a >= 0,
        b >= 0,
        t > 0,
    ensures
        a / t + b / t <= (a + b) / t,
{
    lemma_fundamental_div_mod(a, t);
    lemma_fundamental_div_mod(b, t);
    lemma_fundamental_div_mod(a + b, t);
    lemma_mod_bound(a, t);
    lemma_mod_bound(b, t);
    lemma_mod_bound(a + b, t);
    let q = a / t + b / t - (a + b) / t;
    let ra = a % t;
    let rb = b % t;
    let rs = (a + b) % t;
    assert(t * q == rs - ra - rb) by (nonlinear_arith)
        requires
            a == t * (a / t) + ra,
            b == t * (b / t) + rb,
            a + b == t * ((a + b) / t) + rs,
            q == a / t + b / t - (a + b) / t;
    assert(q < 1) by (nonlinear_arith)
        requires
            t * q == rs - ra - rb,
            0 <= ra,
            0 <= rb,
            rs < t,
            t > 0;
}

/// The pool of a positive total at a yield in `0..=10_000` is at least the total.
proof fn lemma_pool_covers_total(total: i128, y: i64)
    requires
        total > 0,
        0 <= y <= 10_000,
        spec_settle_pool(total, y) is Some,
    ensures
        spec_settle_pool(total, y).unwrap() >= total,
{
    let m = total * y;
    assert(m >= 0) by (nonlinear_arith)
        requires total > 0, y >= 0, m == total * y;
    lemma_div_pos_is_pos(m, 10_000);
}

/// One claim pays at most the investor's exact share `c * pool / total`.
proof fn lemma_paid_at_most_share(c: i128, total: i128, y: i64)
    requires
        c >= 0,
        total > 0,
        0 <= y <= 10_000,
        spec_settle_pool(total, y) is Some,
    ensures
        0 <= paid(c, total, y) <= (c * spec_settle_pool(total, y).unwrap()) / (total as int),
{
    let pool = spec_settle_pool(total, y).unwrap();
    lemma_pool_covers_total(total, y);
    let x = c * pool;
    assert(x >= 0) by (nonlinear_arith)
        requires c >= 0, pool >= 0, x == c * pool;
    lemma_div_pos_is_pos(x, total as int);
}

/// The payouts of a prefix stay within the share of the prefix's total contribution.
proof fn lemma_payouts_within_share(cs: Seq<i128>, total: i128, y: i64)
    requires
        forall|i: int| 0 <= i < cs.len() ==> cs[i] >= 0,
        total > 0,
        0 <= y <= 10_000,
        spec_settle_pool(total, y) is Some,
    ensures
        seq_sum(cs) >= 0,
        payouts_sum(cs, total, y) <= (seq_sum(cs) * spec_settle_pool(total, y).unwrap()) / (total as int),
    decreases cs.len(),
{
    let pool = spec_settle_pool(total, y).unwrap();
    lemma_pool_covers_total(total, y);
    if cs.len() == 0 {
        assert(seq_sum(cs) * pool == 0);
    } else {
        let init = cs.drop_last();
        let c = cs.last();
        assert(forall|i: int| 0 <= i < init.len() ==> init[i] == cs[i]);
        lemma_payouts_within_share(init, total, y);
        lemma_paid_at_most_share(c, total, y);
        let a = seq_sum(init) * pool;
        let b = c * pool;
        assert(a >= 0 && b >= 0) by (nonlinear_arith)
            requires seq_sum(init) >= 0, c >= 0, pool >= 0, a == seq_sum(init) * pool, b == c * pool;
        lemma_div_add(a, b, total as int);
        assert(a + b == seq_sum(cs) * pool) by (nonlinear_arith)
            requires a == seq_sum(init) * pool, b == c * pool, seq_sum(cs) == seq_sum(init) + c;
    }
}

/// Claims never pay out more than the settlement pool: for contributions that add up to at
/// most the snapshot total, the truncated pro-rata payouts add up to at most
/// `total + coupon`.
pub proof fn law_payouts_within_pool(cs: Seq<i128>, total: i128, y: i64)
    requires
        forall|i: int| 0 <= i < cs.len() ==> cs[i] >= 0,
        seq_sum(cs) <= total,
        total > 0,
        0 <= y <= 10_000,
        spec_settle_pool(total, y) is Some,
    ensures
        payouts_sum(cs, total, y) <= spec_settle_pool(total, y).unwrap(),
{
    let pool = spec_settle_pool(total, y).unwrap();
    lemma_pool_covers_total(total, y);
    lemma_payouts_within_share(cs, total, y);
    let s = seq_sum(cs);
    assert(s * pool <= (total as int) * pool) by (nonlinear_arith)
        requires s <= total, pool >= 0;
    lemma_div_is_ordered(s * pool, (total as int) * pool, total as int);
    lemma_div_multiples_vanish(pool as int, total as int);
}

/// What the truncated payouts of `cs` leave of their exact shares lies between zero and
/// `total - 1` per contribution, when every payout computes.
proof fn lemma_payouts_residue(cs: Seq<i128>, total: i128, y: i64)
    requires
        forall|i: int| 0 <= i < cs.len() ==> cs[i] >= 0,
        forall|i: int| 0 <= i < cs.len() ==> spec_payout(#[trigger] cs[i], total, y) is Ok,
        total > 0,
        0 <= y <= 10_000,
        spec_settle_pool(total, y) is Some,
    ensures
        0 <= seq_sum(cs) * spec_settle_pool(total, y).unwrap() - (total as int) * payouts_sum(cs, total, y)
            <= cs.len() * (total - 1),
    decreases cs.len(),
{
    let pool = spec_settle_pool(total, y).unwrap();
    lemma_pool_covers_total(total, y);
    if cs.len() == 0 {
        assert(seq_sum(cs) * pool == 0);
    } else {
        let init = cs.drop_last();
        let c = cs.last();
        assert(c == cs[cs.len() - 1]);
        assert(forall|i: int| 0 <= i < init.len() ==> init[i] == cs[i]);
        lemma_payouts_residue(init, total, y);
        let x = c * pool;
        assert(x >= 0) by (nonlinear_arith)
            requires c >= 0, pool >= 0, x == c * pool;
        assert(paid(c, total, y) == x / (total as int)) by {
            if c > 0 {
                assert(x > 0) by (nonlinear_arith)
                    requires c > 0, pool > 0, x == c * pool;
            } else {
                assert(x == 0);
            }
        }
        lemma_fundamental_div_mod(x, total as int);
        lemma_mod_bound(x, total as int);
        let a = seq_sum(init) * pool;
        let p = payouts_sum(init, total, y);
        assert(seq_sum(cs) * pool == a + x) by (nonlinear_arith)
            requires a == seq_sum(init) * pool, x == c * pool, seq_sum(cs) == seq_sum(init) + c;
        assert((total as int) * payouts_sum(cs, total, y) == (total as int) * p + (total as int) * (x / (total as int))) by (nonlinear_arith)
            requires payouts_sum(cs, total, y) == p + x / (total as int);
        assert(cs.len() * (total - 1) == init.len() * (total - 1) + (total - 1)) by (nonlinear_arith)
            requires cs.len() == init.len() + 1;
    }
}

/// Claims leave only rounding residue in the pool: when the contributions add up to the
/// snapshot total and every payout computes, the payouts add up to at most the pool and fall
/// short of it by less than the number of contributions.
pub proof fn law_payout_residue_below_count(cs: Seq<i128>, total: i128, y: i64)
    requires
        forall|i: int| 0 <= i < cs.len() ==> cs[i] >= 0,
        forall|i: int| 0 <= i < cs.len() ==> spec_payout(#[trigger] cs[i], total, y) is Ok,
        seq_sum(cs) == total,
        total > 0,
        0 <= y <= 10_000,
        spec_settle_pool(total, y) is Some,
    ensures
        payouts_sum(cs, total, y) <= spec_settle_pool(total, y).unwrap(),
        spec_settle_pool(total, y).unwrap() - payouts_sum(cs, total, y) < cs.len(),
{
    let pool = spec_settle_pool(total, y).unwrap();
    let p = payouts_sum(cs, total, y);
    let n = cs.len() as int;
    lemma_payouts_residue(cs, total, y);
    if cs.len() == 0 {
        assert(seq_sum(cs) == 0);
    }
    assert(n > 0);
    assert(seq_sum(cs) * pool == (total as int) * pool);
    assert(0 <= (total as int) * (pool - p) < n * (total as int)) by (nonlinear_arith)
        requires
            0 <= (total as int) * pool - (total as int) * p <= n * (total - 1),
            total > 0,
            n > 0;
    assert(0 <= pool - p < n) by (nonlinear_arith)
        requires 0 <= (total as int) * (pool - p) < n * (total as int), total > 0;
}

/// Each investor's payout covers the principal: with a yield in `0..=10_000`, a claim that
/// computes pays at least the contribution and at most the pool.
pub proof fn law_payout_covers_principal(c: i128, total: i128, y: i64)
    requires
        0 <= c <= total,
        total > 0,
        0 <= y <= 10_000,
        spec_settle_pool(total, y) is Some,
        spec_payout(c, total, y) is Ok,
    ensures
        c <= spec_payout(c, total, y).unwrap(),
        spec_payout(c, total, y).unwrap() <= spec_settle_pool(total, y).unwrap(),
{
    lemma_pool_covers_total(total, y);
    if c > 0 {
        let pool = spec_settle_pool(total, y).unwrap();
        lemma_pool_covers_total(total, y);
        let x = c * pool;
        assert(x >= c * total && x <= total * pool) by (nonlinear_arith)
            requires pool >= total, 0 < c <= total, x == c * pool;
        lemma_div_is_ordered(c * total, x, total as int);
        lemma_div_multiples_vanish(c as int, total as int);
        assert((total as int) * c == c * total) by (nonlinear_arith);
        lemma_div_is_ordered(x, total * pool, total as int);
        lemma_div_multiples_vanish(pool as int, total as int);
    }
}

// --------------------------------------------------------------
// payouts at the investor's own yield

/// `c * (t + t * y / 10_000) / t`, truncated: the share of contribution `c` in the pool of a
/// total `t` at yield `y` (for non-negative values).
pub open spec fn share_at_yield(c: int, t: int, y: int) -> int {
    (c * (t + (t * y) / 10_000)) / t
}

/// The payout the store computes for a positive contribution with a snapshot is the share at
/// the yield `y` it is given, when that yield lies in `0..=10_000` and the payout computes.
proof fn lemma_payout_is_share(c: i128, t: i128, y: i64)
    requires
        c > 0,
        t > 0,
        0 <= y <= 10_000,
        spec_payout(c, t, y) is Ok,
    ensures
        spec_payout(c, t, y) == Ok::<i128, EscrowError>(share_at_yield(c as int, t as int, y as int) as i128),
{
    let m = t * y;
    assert(m >= 0) by (nonlinear_arith)
        requires t > 0, y >= 0, m == t * y;
    let pool = spec_settle_pool(t, y).unwrap();
    assert(pool == t + m / 10_000);
    lemma_div_pos_is_pos(m, 10_000);
    let x = c * pool;
    assert(x > 0) by (nonlinear_arith)
        requires c > 0, pool > 0, x == c * pool;
}

/// A claim pays at the investor's own effective yield: for an investor whose record holds
/// yield `y` (the tier resolved at the first deposit) in `0..=10_000`, with contribution `c`
/// and a close snapshot of total `t`, the payout is `c * (t + t * y / 10_000) / t`, truncated;
/// the base yield of the escrow plays no part.
pub proof fn law_payout_at_investor_yield(s: Store, investor: Addr, y: i64)
    requires
        s.escrow is Some,
        s.contribution_of(investor) > 0,
        s.funding_close_snapshot matches Some(snap) && snap.total_principal > 0,
        (s.investors)(investor).effective_yield == Some(y),
        0 <= y <= 10_000,
        s.payout_of(investor) is Ok,
    ensures
        s.payout_of(investor) == Ok::<i128, Failure>(share_at_yield(
            s.contribution_of(investor) as int,
            s.funding_close_snapshot.unwrap().total_principal as int,
            y as int,
        ) as i128),
{
    lemma_payout_is_share(s.contribution_of(investor), s.funding_close_snapshot.unwrap().total_principal, y);
}

/// An investor whose record holds no yield is paid at the escrow's base yield.
pub proof fn law_payout_without_tier_at_base_yield(s: Store, investor: Addr)
    requires
        s.escrow is Some,
        s.contribution_of(investor) > 0,
        s.funding_close_snapshot matches Some(snap) && snap.total_principal > 0,
        (s.investors)(investor).effective_yield is None,
        0 <= s.esc().yield_bps <= 10_000,
        s.payout_of(investor) is Ok,
    ensures
        s.payout_of(investor) == Ok::<i128, Failure>(share_at_yield(
            s.contribution_of(investor) as int,
            s.funding_close_snapshot.unwrap().total_principal as int,
            s.esc().yield_bps as int,
        ) as i128),
{
    lemma_payout_is_share(s.contribution_of(investor), s.funding_close_snapshot.unwrap().total_principal, s.esc().yield_bps);
}

/// A higher effective yield never pays less: two investors with the same contribution, one at
/// yield `y1` and one at a higher yield `y2` (both in `0..=10_000`), are paid in that order.
pub proof fn law_higher_yield_pays_no_less(s: Store, a: Addr, b: Addr, y1: i64, y2: i64)
    requires
        s.escrow is Some,
        s.contribution_of(a) > 0,
        s.contribution_of(a) == s.contribution_of(b),
        s.funding_close_snapshot matches Some(snap) && snap.total_principal > 0,
        (s.investors)(a).effective_yield == Some(y1),
        (s.investors)(b).effective_yield == Some(y2),
        0 <= y1 <= y2 <= 10_000,
        s.payout_of(a) is Ok,
        s.payout_of(b) is Ok,
    ensures
        s.payout_of(a).unwrap() <= s.payout_of(b).unwrap(),
{
    let c = s.contribution_of(a) as int;
    let t = s.funding_close_snapshot.unwrap().total_principal as int;
    lemma_payout_is_share(s.contribution_of(a), t as i128, y1);
    lemma_payout_is_share(s.contribution_of(b), t as i128, y2);
    assert(t * y1 <= t * y2) by (nonlinear_arith)
        requires t > 0, y1 <= y2;
    lemma_div_is_ordered(t * y1, t * y2, 10_000);
    let p1 = t + (t * y1) / 10_000;
    let p2 = t + (t * y2) / 10_000;
    assert(c * p1 <= c * p2) by (nonlinear_arith)
        requires c > 0, p1 <= p2;
    lemma_div_is_ordered(c * p1, c * p2, t);
}

// --------------------------------------------------------------
// pause scopes, holds and locks

/// The pause scope table: `All` blocks every family of operations, and each other scope blocks
/// its own family and no other.
pub proof fn law_pause_scope_table(e: PauseEntry)
    ensures
        PauseScope::All.spec_blocks(e),
        PauseScope::Funding.spec_blocks(e) <==> e == PauseEntry::Funding,
        PauseScope::Settlement.spec_blocks(e) <==> e == PauseEntry::Settlement,
        PauseScope::Withdrawal.spec_blocks(e) <==> e == PauseEntry::Withdrawal,
        PauseScope::Claims.spec_blocks(e) <==> e == PauseEntry::Claims,
        PauseScope::Funding.spec_blocks(PauseEntry::Funding),
        PauseScope::Settlement.spec_blocks(PauseEntry::Settlement),
        PauseScope::Withdrawal.spec_blocks(PauseEntry::Withdrawal),
        PauseScope::Claims.spec_blocks(PauseEntry::Claims),
        !PauseScope::Withdrawal.spec_blocks(PauseEntry::Funding),
        !PauseScope::Withdrawal.spec_blocks(PauseEntry::Settlement),
        !PauseScope::Withdrawal.spec_blocks(PauseEntry::Claims),
{
}

/// A pause in force whose scope is `Withdrawal` or `All` refuses the SME's withdrawal with
/// `PausedBlocksWithdrawal`, whoever calls and whatever the balance.
pub proof fn law_withdrawal_pause_blocks_withdraw(s: Store, call: CallContext, balance: i128)
    requires
        s.paused_active_at(call.timestamp),
        s.pause_state matches Some(p) && (p.scope == PauseScope::Withdrawal || p.scope == PauseScope::All),
    ensures
        s.withdraw_gate(call, balance) == Some(Failure::Escrow(EscrowError::PausedBlocksWithdrawal)),
{
}

/// A compliance hold freezes the SME's money: while the hold is active, neither a withdrawal
/// nor a release succeeds, and when no pause covers the call the refusal is the hold's own
/// error.
pub proof fn law_legal_hold_blocks_disbursement(s: Store, call: CallContext, amount: i128, balance: i128)
    requires
        s.legal_hold,
    ensures
        s.withdraw_gate(call, balance) is Some,
        s.release_gate(call, amount, balance) is Some,
        !s.paused_blocks_at(call.timestamp, PauseEntry::Withdrawal)
            ==> s.withdraw_gate(call, balance) == Some(Failure::Escrow(EscrowError::LegalHoldBlocksWithdrawal)),
        amount > 0 && !s.paused_active_at(call.timestamp)
            ==> s.release_gate(call, amount, balance) == Some(Failure::Escrow(EscrowError::LegalHoldBlocksRelease)),
{
}

/// A commitment lock is honoured: a claim made before the investor's stored claim time is
/// refused; when the claim is otherwise admissible (no pause of claims, hold or dispute, the
/// investor signs, holds a contribution and the escrow is settled) the refusal is
/// `InvestorCommitmentLockNotExpired`.
pub proof fn law_claim_waits_for_commitment_lock(s: Store, call: CallContext, investor: Addr, not_before: u64)
    requires
        (s.investors)(investor).claim_not_before == Some(not_before),
        call.timestamp < not_before,
    ensures
        s.claim_gate(call, investor) is Some,
        (!s.paused_blocks_at(call.timestamp, PauseEntry::Claims) && !s.legal_hold && !s.dispute_active
            && auth_gate(call, investor) is None && s.contribution_of(investor) > 0
            && s.escrow is Some && s.esc().status == 2)
            ==> s.claim_gate(call, investor) == Some(Failure::Escrow(EscrowError::InvestorCommitmentLockNotExpired)),
{
}

// --------------------------------------------------------------
// distinct funders

/// The investors of the index that hold a positive contribution.
pub open spec fn funders(s: Store) -> Set<Addr> {
    s.investor_index.to_set().filter(|a: Addr| s.contribution_of(a) > 0)
}

/// The distinct-funder count is exact: it is the number of investors holding a positive
/// contribution, every such investor is indexed, and no contribution is negative.
pub open spec fn funder_count_exact(s: Store) -> bool {
    &&& forall|a: Addr| #[trigger] s.contribution_of(a) >= 0
    &&& forall|a: Addr| s.contribution_of(a) > 0 ==> #[trigger] s.investor_index.contains(a)
    &&& s.unique_funder_count == funders(s).len()
}

/// Withdrawing part of a contribution before close keeps the investor a funder: an `unfund`
/// of less than the investor's contribution leaves the distinct-funder count as it was, and
/// withdrawing all of it lowers the count by one.
pub proof fn law_partial_unfund_keeps_funder(s: Store, call: CallContext, investor: Addr, amount: i128)
    requires
        s.unfund_gate(call, investor, amount) is None,
    ensures
        amount < s.contribution_of(investor)
            ==> s.unfund_post(investor, amount).unique_funder_count == s.unique_funder_count,
        amount == s.contribution_of(investor) && s.unique_funder_count > 0
            ==> s.unfund_post(investor, amount).unique_funder_count == s.unique_funder_count - 1,
        s.unfund_post(investor, amount).contribution_of(investor) == s.contribution_of(investor) - amount,
{
}

/// `unfund` keeps the distinct-funder count exact.
pub proof fn law_unfund_keeps_funder_count_exact(s: Store, call: CallContext, investor: Addr, amount: i128)
    requires
        funder_count_exact(s),
        s.unfund_gate(call, investor, amount) is None,
    ensures
        funder_count_exact(s.unfund_post(investor, amount)),
{
    broadcast use vstd::set::group_set_axioms, vstd::seq_lib::seq_to_set_is_finite;
    let t = s.unfund_post(investor, amount);
    let c = s.contribution_of(investor);
    assert(t.investor_index == s.investor_index);
    assert(forall|a: Addr| a != investor ==> t.contribution_of(a) == s.contribution_of(a));
    assert(t.contribution_of(investor) == c - amount);
    assert(s.investor_index.contains(investor));
    assert(s.investor_index.to_set().contains(investor));
    assert(funders(s).contains(investor));
    if c - amount == 0 {
        assert(funders(t) =~= funders(s).remove(investor));
    } else {
        assert(funders(t) =~= funders(s));
    }
}

/// Funding keeps the distinct-funder count exact.
pub proof fn law_fund_keeps_funder_count_exact(s: Store, call: CallContext, investor: Addr, amount: i128, simple: bool, lock: u64)
    requires
        funder_count_exact(s),
        s.fund_gate(call, investor, amount, simple, lock) is None,
    ensures
        funder_count_exact(s.fund_post(call, investor, amount, simple, lock)),
{
    broadcast use vstd::set::group_set_axioms, vstd::seq_lib::seq_to_set_is_finite;
    let t = s.fund_post(call, investor, amount, simple, lock);
    let prev = s.contribution_of(investor);
    assert(forall|a: Addr| a != investor ==> t.contribution_of(a) == s.contribution_of(a));
    assert(t.contribution_of(investor) == prev + amount);
    if prev == 0 {
        assert(t.investor_index == s.investor_index.push(investor));
        assert(forall|a: Addr| #[trigger] t.investor_index.contains(a) <==> s.investor_index.contains(a) || a == investor) by {
            assert forall|a: Addr| #[trigger] t.investor_index.contains(a) implies s.investor_index.contains(a) || a == investor by {
                let i = choose|i: int| 0 <= i < t.investor_index.len() && t.investor_index[i] == a;
                if i < s.investor_index.len() {
                    assert(s.investor_index[i] == a);
                }
            }
            assert forall|a: Addr| s.investor_index.contains(a) implies #[trigger] t.investor_index.contains(a) by {
                let i = choose|i: int| 0 <= i < s.investor_index.len() && s.investor_index[i] == a;
                assert(t.investor_index[i] == a);
            }
            assert(t.investor_index[s.investor_index.len() as int] == investor);
        }
        assert(!funders(s).contains(investor));
        assert(funders(t) =~= funders(s).insert(investor));
    } else {
        assert(t.investor_index == s.investor_index);
        assert(funders(t) =~= funders(s));
    }
}

/// A new instance starts with an exact (zero) distinct-funder count, and `init` keeps it so.
pub proof fn law_init_starts_funder_count_exact(call: CallContext, a: InitArgs, sym: Sym)
    requires
        Store::blank().init_guard(call, a) is None,
    ensures
        funder_count_exact(Store::blank()),
        funder_count_exact(Store::blank().init_post(a, sym)),
{
    broadcast use vstd::set::group_set_axioms, vstd::seq_lib::seq_to_set_is_finite;
    let b = Store::blank();
    assert(funders(b) =~= Set::<Addr>::empty());
    assert(funders(b.init_post(a, sym)) =~= Set::<Addr>::empty());
}

/// A funding batch keeps the distinct-funder count exact, entry after entry.
pub proof fn law_fund_batch_keeps_funder_count_exact(st: Store, call: CallContext, entries: Seq<(Addr, i128)>, i: int)
    requires
        funder_count_exact(st),
        fund_fold(st, call, entries, i) is Ok,
    ensures
        funder_count_exact(fund_fold(st, call, entries, i).unwrap()),
    decreases entries.len() - i,
{
    if 0 <= i < entries.len() {
        let s2 = st.fund_outcome(call, entries[i].0, entries[i].1, true, 0).unwrap();
        law_fund_keeps_funder_count_exact(st, call, entries[i].0, entries[i].1, true, 0);
        law_fund_batch_keeps_funder_count_exact(s2, call, entries, i + 1);
    }
}

} // verus!
