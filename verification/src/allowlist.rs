//! Investor allowlisting, its per-address entries and the index used to list them.
use vstd::prelude::*;
use crate::book::InvestorRecord;
use crate::consts::{MAX_INVESTOR_ALLOWLIST_BATCH, MAX_INVESTOR_READ_BATCH};
use crate::errors::{EscrowError, Failure};
use crate::rules::{paginate_window, spec_paginate_window};
use crate::state::{fail_if, first, StarfundEscrow, Store};
use crate::types::{Addr, CallContext};

verus! {

/// The position of the first `a` in `s` from `i` on.
pub open spec fn first_pos_from(s: Seq<Addr>, a: Addr, i: int) -> Option<int>
    decreases s.len() - i,
{
    if i < 0 || i >= s.len() {
        None
    } else if s[i] == a {
        Some(i)
    } else {
        first_pos_from(s, a, i + 1)
    }
}

/// `s` without its first `a` (unchanged when `a` does not occur).
pub open spec fn remove_first(s: Seq<Addr>, a: Addr) -> Seq<Addr> {
    match first_pos_from(s, a, 0) {
        Some(i) => s.remove(i),
        None => s,
    }
}

/// The addresses of `index[lo..hi]` whose entry is currently allowlisted, in order.
pub open spec fn live_allowlisted(index: Seq<Addr>, investors: spec_fn(Addr) -> InvestorRecord, lo: int, hi: int) -> Seq<Addr>
    decreases hi - lo,
{
    if hi <= lo {
        Seq::empty()
    } else {
        let prev = live_allowlisted(index, investors, lo, hi - 1);
        if investors(index[hi - 1]).is_allowlisted() { prev.push(index[hi - 1]) } else { prev }
    }
}

impl Store {
    /// The store after setting the allowlist entry of `a` to `allowed`: the entry is written,
    /// and the index gains `a` when it becomes allowlisted or loses its first `a` when it
    /// stops being allowlisted.
    pub open spec fn allowlist_set(self, a: Addr, allowed: bool) -> Store {
        let rec = (self.investors)(a);
        let was = rec.is_allowlisted();
        let index = if allowed && !was {
            self.allowlist_index.push(a)
        } else if !allowed && was {
            remove_first(self.allowlist_index, a)
        } else {
            self.allowlist_index
        };
        Store { allowlist_index: index, ..self }.with_record(a, InvestorRecord { allowlisted: Some(allowed), ..rec })
    }
}

/// Sets the entries of `investors[i..]` one after the other.
pub open spec fn allowlist_fold(st: Store, investors: Seq<Addr>, allowed: bool, i: int) -> Store
    decreases investors.len() - i,
{
    if i < 0 || i >= investors.len() {
        st
    } else {
        allowlist_fold(st.allowlist_set(investors[i], allowed), investors, allowed, i + 1)
    }
}

/// Position of the first `a` in `v`, if any.
fn find_first(v: &Vec<Addr>, a: Addr) -> (r: Option<usize>)
    ensures
        match r {
            Some(i) => first_pos_from(v@, a, 0) == Some(i as int) && i < v@.len(),
            None => first_pos_from(v@, a, 0) is None,
        },
{
    let n = v.len();
    let mut i: usize = 0;
    while i < n
        invariant
            n == v@.len(),
            0 <= i <= n,
            first_pos_from(v@, a, 0) == first_pos_from(v@, a, i as int),
        decreases n - i,
    {
        if v[i] == a {
            return Some(i);
        }
        i = i + 1;
    }
    None
}

impl StarfundEscrow {
    /// Writes one allowlist entry and keeps the index in step (no authorization).
    fn apply_allowlist(&mut self, a: Addr, allowed: bool)
        ensures
            final(self)@ == old(self)@.allowlist_set(a, allowed),
    {
        let ghost st = self@;
        let rec = self.investors.get(a);
        let was = rec.allowlisted == Some(true);
        if allowed && !was {
            self.allowlist_index.push(a);
        } else if !allowed && was {
            if let Some(i) = find_first(&self.allowlist_index, a) {
                self.allowlist_index.remove(i);
            }
        }
        self.investors.put(a, InvestorRecord { allowlisted: Some(allowed), ..rec });
        proof {
            let post = st.allowlist_set(a, allowed);
            assert(self@.investors =~= post.investors);
            assert(self@ =~= post);
        }
    }

    /// Turns the allowlist gate on or off (admin, with the admin nonce).
    pub fn set_allowlist_active(&mut self, call: &CallContext, active: bool, expected_nonce: u32) -> (r: Result<(), Failure>)
        ensures
            match first(old(self)@.admin_gate(*call), old(self)@.nonce_gate(expected_nonce)) {
                Some(f) => r == Err::<(), Failure>(f) && final(self)@ == old(self)@,
                None => r is Ok && final(self)@ == (Store { allowlist_active: active, ..old(self)@.bump_nonce() }),
            },
    {
        let _ = self.load_escrow_require_admin(call)?;
        let next = self.check_admin_nonce(expected_nonce)?;
        self.admin_nonce = next;
        self.allowlist_active = active;
        Ok(())
    }

    /// Whether the allowlist gate is on.
    pub fn is_allowlist_active(&self) -> (b: bool)
        ensures
            b == self.allowlist_active,
    {
        self.allowlist_active
    }

    /// Sets whether `investor` is allowlisted (admin, with the admin nonce).
    pub fn set_investor_allowlisted(&mut self, call: &CallContext, investor: Addr, allowed: bool, expected_nonce: u32) -> (r: Result<(), Failure>)
        ensures
            match first(old(self)@.admin_gate(*call), old(self)@.nonce_gate(expected_nonce)) {
                Some(f) => r == Err::<(), Failure>(f) && final(self)@ == old(self)@,
                None => r is Ok && final(self)@ == old(self)@.bump_nonce().allowlist_set(investor, allowed),
            },
    {
        let _ = self.load_escrow_require_admin(call)?;
        let next = self.check_admin_nonce(expected_nonce)?;
        self.admin_nonce = next;
        self.apply_allowlist(investor, allowed);
        Ok(())
    }

    /// Sets the entry of every address in `investors` (admin, with the admin nonce, consumed
    /// once). The result is that of setting the addresses one by one, in order.
    pub fn set_investors_allowlisted(&mut self, call: &CallContext, investors: &Vec<Addr>, allowed: bool, expected_nonce: u32) -> (r: Result<(), Failure>)
        ensures
            match first(old(self)@.admin_gate(*call),
                  first(old(self)@.nonce_gate(expected_nonce),
                  first(fail_if(investors@.len() == 0, EscrowError::InvestorBatchEmpty),
                        fail_if(investors@.len() > MAX_INVESTOR_ALLOWLIST_BATCH, EscrowError::InvestorBatchTooLarge)))) {
                Some(f) => r == Err::<(), Failure>(f) && final(self)@ == old(self)@,
                None => r is Ok && final(self)@ == allowlist_fold(old(self)@.bump_nonce(), investors@, allowed, 0),
            },
    {
        let _ = self.load_escrow_require_admin(call)?;
        let next = self.check_admin_nonce(expected_nonce)?;
        let n = investors.len();
        if n == 0 {
            return Err(Failure::Escrow(EscrowError::InvestorBatchEmpty));
        }
        if n > MAX_INVESTOR_ALLOWLIST_BATCH as usize {
            return Err(Failure::Escrow(EscrowError::InvestorBatchTooLarge));
        }
        self.admin_nonce = next;
        let ghost start = self@;
        let mut i: usize = 0;
        while i < n
            invariant
                n == investors@.len(),
                0 <= i <= n,
                allowlist_fold(start, investors@, allowed, 0) == allowlist_fold(self@, investors@, allowed, i as int),
            decreases n - i,
        {
            let a = investors[i];
            self.apply_allowlist(a, allowed);
            i = i + 1;
        }
        Ok(())
    }

    /// Whether `investor` is allowlisted.
    pub fn is_investor_allowlisted(&self, investor: Addr) -> (b: bool)
        ensures
            b == (self@.investors)(investor).is_allowlisted(),
    {
        self.investors.get(investor).allowlisted == Some(true)
    }

    /// The currently allowlisted addresses within the page `start..start + limit` of the
    /// index (at most `MAX_INVESTOR_READ_BATCH` positions scanned).
    pub fn get_allowlisted_investors(&self, start: u32, limit: u32) -> (r: Vec<Addr>)
        requires
            self.allowlist_index@.len() <= u32::MAX,
        ensures
            r@ == match spec_paginate_window(start, limit, MAX_INVESTOR_READ_BATCH, self@.allowlist_index.len() as u32) {
                None => Seq::<Addr>::empty(),
                Some((lo, hi)) => live_allowlisted(self@.allowlist_index, self@.investors, lo as int, hi as int),
            },
    {
        let len = self.allowlist_index.len() as u32;
        let mut result: Vec<Addr> = Vec::new();
        let (lo, hi) = match paginate_window(start, limit, MAX_INVESTOR_READ_BATCH, len) {
            Some(w) => w,
            None => {
                return result;
            },
        };
        let mut i: u32 = lo;
        while i < hi
            invariant
                lo <= i <= hi,
                hi <= len,
                len == self@.allowlist_index.len(),
                result@ == live_allowlisted(self@.allowlist_index, self@.investors, lo as int, i as int),
            decreases hi - i,
        {
            let a = self.allowlist_index[i as usize];
            if self.investors.get(a).allowlisted == Some(true) {
                result.push(a);
            }
            i = i + 1;
        }
        result
    }

    /// The number of index entries that are currently allowlisted.
    pub fn get_allowlisted_investors_count(&self) -> (c: u32)
        requires
            self.allowlist_index@.len() <= u32::MAX,
        ensures
            c == live_allowlisted(self@.allowlist_index, self@.investors, 0, self@.allowlist_index.len() as int).len(),
    {
        let n = self.allowlist_index.len();
        let mut count: u32 = 0;
        let mut i: usize = 0;
        while i < n
            invariant
                n == self@.allowlist_index.len(),
                n <= u32::MAX,
                0 <= i <= n,
                count == live_allowlisted(self@.allowlist_index, self@.investors, 0, i as int).len(),
                count <= i,
            decreases n - i,
        {
            let a = self.allowlist_index[i];
            if self.investors.get(a).allowlisted == Some(true) {
                count = count + 1;
            }
            i = i + 1;
        }
        count
    }
}

/// Calls `set_investor_allowlisted` for `investors[i..]` one after the other, each with the
/// nonce then stored; the first failing call fails the sequence.
pub open spec fn singles_fold(st: Store, call: CallContext, investors: Seq<Addr>, allowed: bool, i: int) -> Result<Store, Failure>
    decreases investors.len() - i,
{
    if i < 0 || i >= investors.len() {
        Ok(st)
    } else {
        match first(st.admin_gate(call), st.nonce_gate(st.admin_nonce)) {
            Some(f) => Err(f),
            None => singles_fold(st.bump_nonce().allowlist_set(investors[i], allowed), call, investors, allowed, i + 1),
        }
    }
}

proof fn lemma_singles_match_fold(st: Store, call: CallContext, investors: Seq<Addr>, allowed: bool, i: int)
    requires
        0 <= i <= investors.len(),
        st.admin_gate(call) is None,
        st.admin_nonce + (investors.len() - i) <= u32::MAX,
    ensures
        singles_fold(st, call, investors, allowed, i) == Ok::<Store, Failure>(Store {
            admin_nonce: (st.admin_nonce + (investors.len() - i)) as u32,
            ..allowlist_fold(st, investors, allowed, i)
        }),
    decreases investors.len() - i,
{
    if i < investors.len() {
        let next = st.bump_nonce().allowlist_set(investors[i], allowed);
        assert(next == Store { admin_nonce: (st.admin_nonce + 1) as u32, ..st.allowlist_set(investors[i], allowed) });
        lemma_singles_match_fold(next, call, investors, allowed, i + 1);
        lemma_fold_ignores_nonce(st.allowlist_set(investors[i], allowed), investors, allowed, i + 1, (st.admin_nonce + 1) as u32);
    } else {
        assert(Store { admin_nonce: st.admin_nonce, ..st } == st);
    }
}

/// Setting entries never reads or writes the admin nonce.
proof fn lemma_fold_ignores_nonce(st: Store, investors: Seq<Addr>, allowed: bool, i: int, n: u32)
    ensures
        (allowlist_fold(Store { admin_nonce: n, ..st }, investors, allowed, i)
            == Store { admin_nonce: n, ..allowlist_fold(st, investors, allowed, i) }),
        allowlist_fold(st, investors, allowed, i).admin_nonce == st.admin_nonce,
        allowlist_fold(st, investors, allowed, i).escrow == st.escrow,
    decreases investors.len() - i,
{
    if 0 <= i < investors.len() {
        let a = investors[i];
        assert(Store { admin_nonce: n, ..st }.allowlist_set(a, allowed) == Store { admin_nonce: n, ..st.allowlist_set(a, allowed) });
        lemma_fold_ignores_nonce(st.allowlist_set(a, allowed), investors, allowed, i + 1, n);
    }
}

/// The batch setter ends where setting each address with `set_investor_allowlisted`, in
/// order, ends, except that the batch consumes one admin nonce where the single calls consume
/// one each (so the single calls need that many nonces to remain).
pub proof fn law_allowlist_batch_matches_singles(s: Store, call: CallContext, investors: Seq<Addr>, allowed: bool)
    requires
        s.admin_gate(call) is None,
        s.admin_nonce + investors.len() <= u32::MAX,
        investors.len() >= 1,
    ensures
        singles_fold(s, call, investors, allowed, 0) == Ok::<Store, Failure>(Store {
            admin_nonce: (s.admin_nonce + investors.len()) as u32,
            ..allowlist_fold(s.bump_nonce(), investors, allowed, 0)
        }),
{
    lemma_singles_match_fold(s, call, investors, allowed, 0);
    lemma_fold_ignores_nonce(s, investors, allowed, 0, (s.admin_nonce + 1) as u32);
    assert(s.bump_nonce() == Store { admin_nonce: (s.admin_nonce + 1) as u32, ..s });
}

} // verus!
