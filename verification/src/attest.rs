//! Off-chain evidence anchors: the single-set primary attestation digest, the bounded
//! append-only digest log with its revocation marks, and the SME collateral metadata.
use vstd::prelude::*;
use crate::consts::{
    MAX_ATTESTATION_APPEND_ENTRIES, MAX_ATTESTATION_READ_PAGE, MAX_ATTESTATION_REVOKE_BATCH,
    MAX_COLLATERAL_BATCH,
};
use crate::errors::{EscrowError, Failure};
use crate::rules::{paginate_window, spec_paginate_window};
use crate::state::{auth_gate, copy_vec, fail_if, first, StarfundEscrow, Store};
use crate::types::{AttestationDigestInfo, CallContext, Digest, SmeCollateralCommitment, Sym};

verus! {

/// Whether `x` occurs in `v`.
pub fn contains_u32(v: &Vec<u32>, x: u32) -> (b: bool)
    ensures
        b == v@.contains(x),
{
    let n = v.len();
    let mut i: usize = 0;
    while i < n
        invariant
            n == v@.len(),
            0 <= i <= n,
            forall|k: int| 0 <= k < i ==> v@[k] != x,
        decreases n - i,
    {
        if v[i] == x {
            assert(v@[i as int] == x);
            return true;
        }
        i = i + 1;
    }
    false
}

/// `v` without any occurrence of `x`.
pub fn without_u32(v: &Vec<u32>, x: u32) -> (r: Vec<u32>)
    ensures
        r@.to_set() == v@.to_set().remove(x),
{
    let n = v.len();
    let mut r: Vec<u32> = Vec::new();
    let mut i: usize = 0;
    while i < n
        invariant
            n == v@.len(),
            0 <= i <= n,
            forall|k: int| 0 <= k < r@.len() ==> r@[k] != x && (exists|j: int| 0 <= j < i && #[trigger] v@[j] == r@[k]),
            forall|j: int| 0 <= j < i && v@[j] != x ==> (exists|k: int| 0 <= k < r@.len() && #[trigger] r@[k] == v@[j]),
        decreases n - i,
    {
        let y = v[i];
        let ghost old_r = r@;
        if y != x {
            r.push(y);
            assert(r@[old_r.len() as int] == v@[i as int]);
        }
        assert forall|k: int| 0 <= k < r@.len() implies r@[k] != x && (exists|j: int| 0 <= j < i + 1 && #[trigger] v@[j] == r@[k]) by {
            if k < old_r.len() {
                assert(r@[k] == old_r[k]);
                let j = choose|j: int| 0 <= j < i && #[trigger] v@[j] == old_r[k];
                assert(v@[j] == r@[k]);
            } else {
                assert(v@[i as int] == r@[k]);
            }
        }
        assert forall|j: int| 0 <= j < i + 1 && v@[j] != x implies (exists|k: int| 0 <= k < r@.len() && #[trigger] r@[k] == v@[j]) by {
            if j < i {
                let k = choose|k: int| 0 <= k < old_r.len() && #[trigger] old_r[k] == v@[j];
                assert(r@[k] == old_r[k]);
            } else {
                assert(r@[old_r.len() as int] == v@[j]);
            }
        }
        i = i + 1;
    }
    assert forall|y: u32| r@.to_set().contains(y) <==> v@.to_set().remove(x).contains(y) by {
        if r@.contains(y) {
            let k = choose|k: int| 0 <= k < r@.len() && r@[k] == y;
            assert(r@[k] != x);
            let j = choose|j: int| 0 <= j < n && #[trigger] v@[j] == r@[k];
            assert(v@.contains(y));
        }
        if v@.contains(y) && y != x {
            let j = choose|j: int| 0 <= j < v@.len() && v@[j] == y;
            let k = choose|k: int| 0 <= k < r@.len() && #[trigger] r@[k] == v@[j];
            assert(r@.contains(y));
        }
    }
    assert(r@.to_set() =~= v@.to_set().remove(x));
    r
}

/// Appending `x` adds exactly `x` to the set of values.
pub proof fn lemma_push_to_set(s: Seq<u32>, x: u32)
    ensures
        s.push(x).to_set() == s.to_set().insert(x),
{
    assert forall|y: u32| #[trigger] s.push(x).to_set().contains(y) <==> s.to_set().insert(x).contains(y) by {
        if s.contains(y) {
            let k = choose|k: int| 0 <= k < s.len() && s[k] == y;
            assert(s.push(x)[k] == y);
        }
        if y == x {
            assert(s.push(x)[s.len() as int] == y);
        }
        if s.push(x).contains(y) {
            let k = choose|k: int| 0 <= k < s.push(x).len() && s.push(x)[k] == y;
            if k < s.len() {
                assert(s[k] == y);
            }
        }
    }
    assert(s.push(x).to_set() =~= s.to_set().insert(x));
}

/// Revokes `indices[i..]` in order against a log of `log_len` entries; an index out of range
/// or already revoked (earlier in the batch included) fails the whole batch.
pub open spec fn revoke_fold(revoked: Set<u32>, log_len: nat, indices: Seq<u32>, i: int) -> Result<Set<u32>, Failure>
    decreases indices.len() - i,
{
    if i < 0 || i >= indices.len() {
        Ok(revoked)
    } else if indices[i] >= log_len {
        Err(Failure::Escrow(EscrowError::AttestationIndexOutOfRange))
    } else if revoked.contains(indices[i]) {
        Err(Failure::Escrow(EscrowError::AttestationAlreadyRevoked))
    } else {
        revoke_fold(revoked.insert(indices[i]), log_len, indices, i + 1)
    }
}

/// The entry at `i` of the log with its revocation mark.
pub open spec fn digest_info(log: Seq<Digest>, revoked: Set<u32>, i: int) -> AttestationDigestInfo {
    AttestationDigestInfo { digest: log[i], revoked: revoked.contains(i as u32) }
}

/// The revoked entries among `lo..hi`, in log order.
pub open spec fn revoked_infos(log: Seq<Digest>, revoked: Set<u32>, lo: int, hi: int) -> Seq<AttestationDigestInfo>
    decreases hi - lo,
{
    if hi <= lo {
        Seq::empty()
    } else {
        let prev = revoked_infos(log, revoked, lo, hi - 1);
        if revoked.contains((hi - 1) as u32) { prev.push(digest_info(log, revoked, hi - 1)) } else { prev }
    }
}

/// The first invalid item of a collateral batch, from `i` on.
pub open spec fn collateral_items_error(items: Seq<(Sym, i128)>, i: int) -> Option<Failure>
    decreases items.len() - i,
{
    if i < 0 || i >= items.len() {
        None
    } else if items[i].1 <= 0 {
        Some(Failure::Escrow(EscrowError::CollateralAmountNotPositive))
    } else if items[i].0.len == 0 {
        Some(Failure::Escrow(EscrowError::CollateralAssetEmpty))
    } else {
        collateral_items_error(items, i + 1)
    }
}

impl Store {
    pub open spec fn revoke_gate(self, call: CallContext, index: u32) -> Option<Failure> {
        first(self.init_gate(),
        first(auth_gate(call, self.esc().admin),
        first(fail_if(index >= self.attestation_log.len(), EscrowError::AttestationIndexOutOfRange),
              fail_if(self.attestation_revoked.contains(index), EscrowError::AttestationAlreadyRevoked))))
    }

    pub open spec fn unrevoke_gate(self, call: CallContext, index: u32) -> Option<Failure> {
        first(fail_if(index >= self.attestation_log.len(), EscrowError::AttestationIndexOutOfRange),
        first(fail_if(!self.attestation_revoked.contains(index), EscrowError::AttestationNotRevoked),
        first(self.init_gate(),
              auth_gate(call, self.esc().admin))))
    }

    /// The guards of a revocation batch that precede the per-index checks.
    pub open spec fn revoke_batch_gate(self, call: CallContext, indices: Seq<u32>) -> Option<Failure> {
        first(fail_if(indices.len() == 0, EscrowError::AttestationBatchEmpty),
        first(fail_if(indices.len() > MAX_ATTESTATION_REVOKE_BATCH, EscrowError::AttestationBatchTooLarge),
        first(self.init_gate(),
              auth_gate(call, self.esc().admin))))
    }

    pub open spec fn record_collateral_gate(self, call: CallContext, asset: Sym, amount: i128) -> Option<Failure> {
        first(fail_if(amount <= 0, EscrowError::CollateralAmountNotPositive),
        first(fail_if(asset.len == 0, EscrowError::CollateralAssetEmpty),
        first(self.sme_gate(call),
              fail_if(self.sme_collateral matches Some(c) && call.timestamp < c.recorded_at, EscrowError::CollateralTimestampBackwards))))
    }

    pub open spec fn batch_collateral_gate(self, call: CallContext, items: Seq<(Sym, i128)>) -> Option<Failure> {
        first(fail_if(items.len() == 0, EscrowError::CollateralBatchEmpty),
        first(fail_if(items.len() > MAX_COLLATERAL_BATCH, EscrowError::CollateralBatchTooLarge),
        first(collateral_items_error(items, 0),
        first(self.sme_gate(call),
              fail_if(self.sme_collateral matches Some(c) && call.timestamp < c.recorded_at, EscrowError::CollateralTimestampBackwards)))))
    }
}

impl StarfundEscrow {
    /// Binds the primary attestation digest, once (admin only).
    pub fn bind_primary_attestation_hash(&mut self, call: &CallContext, digest: Digest) -> (r: Result<(), Failure>)
        ensures
            match first(old(self)@.admin_gate(*call), fail_if(old(self)@.primary_attestation_hash is Some, EscrowError::PrimaryAttestationAlreadyBound)) {
                Some(f) => r == Err::<(), Failure>(f) && final(self)@ == old(self)@,
                None => r is Ok && final(self)@ == (Store { primary_attestation_hash: Some(digest), ..old(self)@ }),
            },
    {
        let _ = self.load_escrow_require_admin(call)?;
        if self.primary_attestation_hash.is_some() {
            return Err(Failure::Escrow(EscrowError::PrimaryAttestationAlreadyBound));
        }
        self.primary_attestation_hash = Some(digest);
        Ok(())
    }

    /// The primary attestation digest, once bound.
    pub fn get_primary_attestation_hash(&self) -> (r: Option<Digest>)
        ensures
            r == self.primary_attestation_hash,
    {
        self.primary_attestation_hash
    }

    /// Appends a digest to the log (admin only) while it holds fewer than
    /// `MAX_ATTESTATION_APPEND_ENTRIES` entries; returns the new entry's index.
    pub fn append_attestation_digest(&mut self, call: &CallContext, digest: Digest) -> (r: Result<u32, Failure>)
        ensures
            match first(old(self)@.admin_gate(*call),
                        fail_if(old(self)@.attestation_log.len() >= MAX_ATTESTATION_APPEND_ENTRIES, EscrowError::AttestationAppendLogCapacityReached)) {
                Some(f) => r == Err::<u32, Failure>(f) && final(self)@ == old(self)@,
                None => r == Ok::<u32, Failure>(old(self)@.attestation_log.len() as u32)
                    && final(self)@ == (Store { attestation_log: old(self)@.attestation_log.push(digest), ..old(self)@ }),
            },
    {
        let _ = self.load_escrow_require_admin(call)?;
        let n = self.attestation_log.len();
        if n >= MAX_ATTESTATION_APPEND_ENTRIES as usize {
            return Err(Failure::Escrow(EscrowError::AttestationAppendLogCapacityReached));
        }
        self.attestation_log.push(digest);
        Ok(n as u32)
    }

    /// The whole append log.
    pub fn get_attestation_append_log(&self) -> (r: Vec<Digest>)
        ensures
            r@ == self@.attestation_log,
    {
        copy_vec(&self.attestation_log)
    }

    /// The entry at `index` with its revocation mark; `None` past the end.
    pub fn get_attestation_digest_at(&self, index: u32) -> (r: Option<AttestationDigestInfo>)
        ensures
            r == if index < self@.attestation_log.len() {
                Some(digest_info(self@.attestation_log, self@.attestation_revoked, index as int))
            } else {
                None::<AttestationDigestInfo>
            },
    {
        if index as usize >= self.attestation_log.len() {
            return None;
        }
        let revoked = contains_u32(&self.attestation_revoked, index);
        Some(AttestationDigestInfo { digest: self.attestation_log[index as usize], revoked })
    }

    /// Whether the entry at `index` is revoked.
    pub fn is_attestation_revoked(&self, index: u32) -> (b: bool)
        ensures
            b == self@.attestation_revoked.contains(index),
    {
        contains_u32(&self.attestation_revoked, index)
    }

    /// Marks the entry at `index` revoked (admin only).
    pub fn revoke_attestation_digest(&mut self, call: &CallContext, index: u32) -> (r: Result<(), Failure>)
        ensures
            match old(self)@.revoke_gate(*call, index) {
                Some(f) => r == Err::<(), Failure>(f) && final(self)@ == old(self)@,
                None => r is Ok && final(self)@ == (Store { attestation_revoked: old(self)@.attestation_revoked.insert(index), ..old(self)@ }),
            },
    {
        let ghost st = self@;
        let escrow = self.get_escrow()?;
        StarfundEscrow::require_auth(call, escrow.admin)?;
        if index as usize >= self.attestation_log.len() {
            return Err(Failure::Escrow(EscrowError::AttestationIndexOutOfRange));
        }
        if contains_u32(&self.attestation_revoked, index) {
            return Err(Failure::Escrow(EscrowError::AttestationAlreadyRevoked));
        }
        self.attestation_revoked.push(index);
        proof {
            lemma_push_to_set(old(self).attestation_revoked@, index);
            assert(self@ =~= Store { attestation_revoked: st.attestation_revoked.insert(index), ..st });
        }
        Ok(())
    }

    /// Revokes several entries atomically (admin only): each index is checked as by
    /// `revoke_attestation_digest`, in order, so a repeated index fails the batch.
    pub fn revoke_attestation_digests(&mut self, call: &CallContext, indices: &Vec<u32>) -> (r: Result<(), Failure>)
        ensures
            match old(self)@.revoke_batch_gate(*call, indices@) {
                Some(f) => r == Err::<(), Failure>(f) && final(self)@ == old(self)@,
                None => match revoke_fold(old(self)@.attestation_revoked, old(self)@.attestation_log.len(), indices@, 0) {
                    Err(f) => r == Err::<(), Failure>(f) && final(self)@ == old(self)@,
                    Ok(set) => r is Ok && final(self)@ == (Store { attestation_revoked: set, ..old(self)@ }),
                },
            },
    {
        let ghost st = self@;
        let n = indices.len();
        if n == 0 {
            return Err(Failure::Escrow(EscrowError::AttestationBatchEmpty));
        }
        if n > MAX_ATTESTATION_REVOKE_BATCH as usize {
            return Err(Failure::Escrow(EscrowError::AttestationBatchTooLarge));
        }
        let escrow = self.get_escrow()?;
        StarfundEscrow::require_auth(call, escrow.admin)?;
        let log_len = self.attestation_log.len();
        let mut work = copy_vec(&self.attestation_revoked);
        let mut i: usize = 0;
        while i < n
            invariant
                n == indices@.len(),
                log_len == st.attestation_log.len(),
                self@ == st,
                st.revoke_batch_gate(*call, indices@) is None,
                0 <= i <= n,
                revoke_fold(st.attestation_revoked, st.attestation_log.len(), indices@, 0)
                    == revoke_fold(work@.to_set(), st.attestation_log.len(), indices@, i as int),
            decreases n - i,
        {
            let index = indices[i];
            let ghost w = work@.to_set();
            assert(revoke_fold(w, st.attestation_log.len(), indices@, i as int) == if index >= st.attestation_log.len() {
                Err(Failure::Escrow(EscrowError::AttestationIndexOutOfRange))
            } else if w.contains(index) {
                Err(Failure::Escrow(EscrowError::AttestationAlreadyRevoked))
            } else {
                revoke_fold(w.insert(index), st.attestation_log.len(), indices@, i as int + 1)
            });
            if index as usize >= log_len {
                return Err(Failure::Escrow(EscrowError::AttestationIndexOutOfRange));
            }
            if contains_u32(&work, index) {
                return Err(Failure::Escrow(EscrowError::AttestationAlreadyRevoked));
            }
            let ghost before = work@;
            work.push(index);
            proof {
                lemma_push_to_set(before, index);
            }
            i = i + 1;
        }
        self.attestation_revoked = work;
        proof {
            assert(self@ =~= Store { attestation_revoked: self.attestation_revoked@.to_set(), ..st });
        }
        Ok(())
    }

    /// Clears the revocation mark of the entry at `index` (admin only).
    pub fn unrevoke_attestation_digest(&mut self, call: &CallContext, index: u32) -> (r: Result<(), Failure>)
        ensures
            match old(self)@.unrevoke_gate(*call, index) {
                Some(f) => r == Err::<(), Failure>(f) && final(self)@ == old(self)@,
                None => r is Ok && final(self)@ == (Store { attestation_revoked: old(self)@.attestation_revoked.remove(index), ..old(self)@ }),
            },
    {
        let ghost st = self@;
        if index as usize >= self.attestation_log.len() {
            return Err(Failure::Escrow(EscrowError::AttestationIndexOutOfRange));
        }
        if !contains_u32(&self.attestation_revoked, index) {
            return Err(Failure::Escrow(EscrowError::AttestationNotRevoked));
        }
        let escrow = self.get_escrow()?;
        StarfundEscrow::require_auth(call, escrow.admin)?;
        let kept = without_u32(&self.attestation_revoked, index);
        self.attestation_revoked = kept;
        proof {
            assert(self@ =~= Store { attestation_revoked: st.attestation_revoked.remove(index), ..st });
        }
        Ok(())
    }

    /// The revoked entries within the page `start..start + limit` of the log, in order;
    /// `limit` must be in `1..=MAX_ATTESTATION_READ_PAGE`.
    pub fn get_revoked_attestation_digests(&self, start: u32, limit: u32) -> (r: Result<Vec<AttestationDigestInfo>, Failure>)
        requires
            self.attestation_log@.len() <= u32::MAX,
        ensures
            if limit == 0 {
                r == Err::<Vec<AttestationDigestInfo>, Failure>(Failure::Escrow(EscrowError::AttestationReadLimitZero))
            } else if limit > MAX_ATTESTATION_READ_PAGE {
                r == Err::<Vec<AttestationDigestInfo>, Failure>(Failure::Escrow(EscrowError::AttestationReadLimitTooLarge))
            } else {
                r matches Ok(v) && v@ == match spec_paginate_window(start, limit, MAX_ATTESTATION_READ_PAGE, self@.attestation_log.len() as u32) {
                    None => Seq::<AttestationDigestInfo>::empty(),
                    Some((lo, hi)) => revoked_infos(self@.attestation_log, self@.attestation_revoked, lo as int, hi as int),
                }
            },
    {
        if limit == 0 {
            return Err(Failure::Escrow(EscrowError::AttestationReadLimitZero));
        }
        if limit > MAX_ATTESTATION_READ_PAGE {
            return Err(Failure::Escrow(EscrowError::AttestationReadLimitTooLarge));
        }
        let len = self.attestation_log.len() as u32;
        let mut result: Vec<AttestationDigestInfo> = Vec::new();
        let (lo, hi) = match paginate_window(start, limit, MAX_ATTESTATION_READ_PAGE, len) {
            Some(w) => w,
            None => {
                return Ok(result);
            },
        };
        let mut i: u32 = lo;
        while i < hi
            invariant
                lo <= i <= hi,
                hi <= len,
                len == self@.attestation_log.len(),
                result@ == revoked_infos(self@.attestation_log, self@.attestation_revoked, lo as int, i as int),
            decreases hi - i,
        {
            if contains_u32(&self.attestation_revoked, i) {
                result.push(AttestationDigestInfo { digest: self.attestation_log[i as usize], revoked: true });
            }
            i = i + 1;
        }
        Ok(result)
    }

    /// The page `start..start + min(limit, MAX_ATTESTATION_READ_PAGE)` of the log (clipped
    /// to its end), each entry with its revocation mark; empty when `start` is past the end or
    /// `limit` is 0.
    pub fn get_attestation_digests(&self, start: u32, limit: u32) -> (r: Vec<AttestationDigestInfo>)
        requires
            self.attestation_log@.len() <= u32::MAX,
        ensures
            r@ == match spec_paginate_window(start, limit, MAX_ATTESTATION_READ_PAGE, self@.attestation_log.len() as u32) {
                None => Seq::<AttestationDigestInfo>::empty(),
                Some((lo, hi)) => Seq::new((hi - lo) as nat, |k: int| digest_info(self@.attestation_log, self@.attestation_revoked, lo + k)),
            },
    {
        let len = self.attestation_log.len() as u32;
        let mut result: Vec<AttestationDigestInfo> = Vec::new();
        let (lo, hi) = match paginate_window(start, limit, MAX_ATTESTATION_READ_PAGE, len) {
            Some(w) => w,
            None => {
                return result;
            },
        };
        let mut i: u32 = lo;
        while i < hi
            invariant
                lo <= i <= hi,
                hi <= len,
                len == self@.attestation_log.len(),
                result@ == Seq::new((i - lo) as nat, |k: int| digest_info(self@.attestation_log, self@.attestation_revoked, lo + k)),
            decreases hi - i,
        {
            let revoked = contains_u32(&self.attestation_revoked, i);
            result.push(AttestationDigestInfo { digest: self.attestation_log[i as usize], revoked });
            i = i + 1;
            assert(result@ =~= Seq::new((i - lo) as nat, |k: int| digest_info(self@.attestation_log, self@.attestation_revoked, lo + k)));
        }
        result
    }

    /// Records or replaces the SME's collateral metadata (SME only): a positive amount, a
    /// non-empty asset, and time never running backwards from the previous record.
    pub fn record_sme_collateral_commitment(&mut self, call: &CallContext, asset: Sym, amount: i128) -> (r: Result<SmeCollateralCommitment, Failure>)
        ensures
            match old(self)@.record_collateral_gate(*call, asset, amount) {
                Some(f) => r == Err::<SmeCollateralCommitment, Failure>(f) && final(self)@ == old(self)@,
                None => {
                    let c = SmeCollateralCommitment { asset, amount, recorded_at: call.timestamp };
                    &&& r == Ok::<SmeCollateralCommitment, Failure>(c)
                    &&& final(self)@ == (Store { sme_collateral: Some(c), ..old(self)@ })
                },
            },
    {
        if amount <= 0 {
            return Err(Failure::Escrow(EscrowError::CollateralAmountNotPositive));
        }
        if asset.len == 0 {
            return Err(Failure::Escrow(EscrowError::CollateralAssetEmpty));
        }
        let _ = self.load_escrow_require_sme(call)?;
        let now = call.timestamp;
        if let Some(existing) = self.sme_collateral {
            if now < existing.recorded_at {
                return Err(Failure::Escrow(EscrowError::CollateralTimestampBackwards));
            }
        }
        let c = SmeCollateralCommitment { asset, amount, recorded_at: now };
        self.sme_collateral = Some(c);
        Ok(c)
    }

    /// Records a batch of collateral items atomically (SME only): every item is validated
    /// first; the stored record is the last item. Returns it.
    pub fn batch_record_collateral(&mut self, call: &CallContext, items: &Vec<(Sym, i128)>) -> (r: Result<SmeCollateralCommitment, Failure>)
        ensures
            match old(self)@.batch_collateral_gate(*call, items@) {
                Some(f) => r == Err::<SmeCollateralCommitment, Failure>(f) && final(self)@ == old(self)@,
                None => {
                    let last = items@.last();
                    let c = SmeCollateralCommitment { asset: last.0, amount: last.1, recorded_at: call.timestamp };
                    &&& r == Ok::<SmeCollateralCommitment, Failure>(c)
                    &&& final(self)@ == (Store { sme_collateral: Some(c), ..old(self)@ })
                },
            },
    {
        let ghost st = self@;
        let n = items.len();
        if n == 0 {
            return Err(Failure::Escrow(EscrowError::CollateralBatchEmpty));
        }
        if n > MAX_COLLATERAL_BATCH as usize {
            return Err(Failure::Escrow(EscrowError::CollateralBatchTooLarge));
        }
        let mut i: usize = 0;
        while i < n
            invariant
                n == items@.len(),
                1 <= n <= MAX_COLLATERAL_BATCH,
                self@ == st,
                0 <= i <= n,
                collateral_items_error(items@, 0) == collateral_items_error(items@, i as int),
            decreases n - i,
        {
            let (asset, amount) = items[i];
            assert(collateral_items_error(items@, i as int) == if amount <= 0 {
                Some(Failure::Escrow(EscrowError::CollateralAmountNotPositive))
            } else if asset.len == 0 {
                Some(Failure::Escrow(EscrowError::CollateralAssetEmpty))
            } else {
                collateral_items_error(items@, i as int + 1)
            });
            if amount <= 0 {
                return Err(Failure::Escrow(EscrowError::CollateralAmountNotPositive));
            }
            if asset.len == 0 {
                return Err(Failure::Escrow(EscrowError::CollateralAssetEmpty));
            }
            i = i + 1;
        }
        let _ = self.load_escrow_require_sme(call)?;
        let now = call.timestamp;
        if let Some(existing) = self.sme_collateral {
            if now < existing.recorded_at {
                return Err(Failure::Escrow(EscrowError::CollateralTimestampBackwards));
            }
        }
        let (asset, amount) = items[n - 1];
        let c = SmeCollateralCommitment { asset, amount, recorded_at: now };
        self.sme_collateral = Some(c);
        Ok(c)
    }

    /// The SME collateral metadata, if recorded.
    pub fn get_sme_collateral_commitment(&self) -> (r: Option<SmeCollateralCommitment>)
        ensures
            r == self.sme_collateral,
    {
        self.sme_collateral
    }

    /// Retires the SME collateral metadata (SME only); returns the retired record.
    pub fn clear_sme_collateral_commitment(&mut self, call: &CallContext) -> (r: Result<SmeCollateralCommitment, Failure>)
        ensures
            match first(fail_if(old(self)@.sme_collateral is None, EscrowError::NoCollateralToClear), old(self)@.sme_gate(*call)) {
                Some(f) => r == Err::<SmeCollateralCommitment, Failure>(f) && final(self)@ == old(self)@,
                None => r == Ok::<SmeCollateralCommitment, Failure>(old(self)@.sme_collateral.unwrap())
                    && final(self)@ == (Store { sme_collateral: None, ..old(self)@ }),
            },
    {
        let c = match self.sme_collateral {
            Some(c) => c,
            None => {
                return Err(Failure::Escrow(EscrowError::NoCollateralToClear));
            },
        };
        let _ = self.load_escrow_require_sme(call)?;
        self.sme_collateral = None;
        Ok(c)
    }
}

/// Calls `revoke_attestation_digest` for `indices[i..]` one after the other.
pub open spec fn revoke_singles(st: Store, call: CallContext, indices: Seq<u32>, i: int) -> Result<Store, Failure>
    decreases indices.len() - i,
{
    if i < 0 || i >= indices.len() {
        Ok(st)
    } else {
        match st.revoke_gate(call, indices[i]) {
            Some(f) => Err(f),
            None => revoke_singles(Store { attestation_revoked: st.attestation_revoked.insert(indices[i]), ..st },
                call, indices, i + 1),
        }
    }
}

proof fn lemma_revoke_singles_match(st: Store, call: CallContext, indices: Seq<u32>, i: int)
    requires
        0 <= i <= indices.len(),
        st.init_gate() is None,
        auth_gate(call, st.esc().admin) is None,
    ensures
        revoke_singles(st, call, indices, i) == match revoke_fold(st.attestation_revoked, st.attestation_log.len(), indices, i) {
            Ok(set) => Ok::<Store, Failure>(Store { attestation_revoked: set, ..st }),
            Err(f) => Err::<Store, Failure>(f),
        },
    decreases indices.len() - i,
{
    if i < indices.len() {
        let next = Store { attestation_revoked: st.attestation_revoked.insert(indices[i]), ..st };
        lemma_revoke_singles_match(next, call, indices, i + 1);
    } else {
        assert(Store { attestation_revoked: st.attestation_revoked, ..st } == st);
    }
}

/// Revoking a batch of indices ends where revoking them one by one, in order, ends: it
/// fails with the first failing index's error, or succeeds with every index revoked.
pub proof fn law_revoke_batch_matches_singles(s: Store, call: CallContext, indices: Seq<u32>)
    requires
        s.revoke_batch_gate(call, indices) is None,
    ensures
        revoke_singles(s, call, indices, 0) == match revoke_fold(s.attestation_revoked, s.attestation_log.len(), indices, 0) {
            Ok(set) => Ok::<Store, Failure>(Store { attestation_revoked: set, ..s }),
            Err(f) => Err::<Store, Failure>(f),
        },
{
    lemma_revoke_singles_match(s, call, indices, 0);
}

/// Calls `record_sme_collateral_commitment` for `items[i..]` one after the other.
pub open spec fn record_singles(st: Store, call: CallContext, items: Seq<(Sym, i128)>, i: int) -> Result<Store, Failure>
    decreases items.len() - i,
{
    if i < 0 || i >= items.len() {
        Ok(st)
    } else {
        match st.record_collateral_gate(call, items[i].0, items[i].1) {
            Some(f) => Err(f),
            None => record_singles(Store {
                sme_collateral: Some(SmeCollateralCommitment { asset: items[i].0, amount: items[i].1, recorded_at: call.timestamp }),
                ..st
            }, call, items, i + 1),
        }
    }
}

proof fn lemma_record_singles_last(st: Store, call: CallContext, items: Seq<(Sym, i128)>, i: int)
    requires
        0 <= i < items.len(),
        collateral_items_error(items, i) is None,
        st.sme_gate(call) is None,
        st.sme_collateral matches Some(c) ==> call.timestamp >= c.recorded_at,
    ensures
        record_singles(st, call, items, i) == Ok::<Store, Failure>(Store {
            sme_collateral: Some(SmeCollateralCommitment { asset: items.last().0, amount: items.last().1, recorded_at: call.timestamp }),
            ..st
        }),
    decreases items.len() - i,
{
    let next = Store {
        sme_collateral: Some(SmeCollateralCommitment { asset: items[i].0, amount: items[i].1, recorded_at: call.timestamp }),
        ..st
    };
    assert(collateral_items_error(items, i) == collateral_items_error(items, i + 1));
    assert(st.record_collateral_gate(call, items[i].0, items[i].1) is None);
    assert(record_singles(st, call, items, i) == record_singles(next, call, items, i + 1));
    if i + 1 < items.len() {
        lemma_record_singles_last(next, call, items, i + 1);
    } else {
        assert(items.last() == items[i]);
    }
}

/// Recording a collateral batch ends where recording its items one by one, in order, ends:
/// with the last item recorded at the invocation's time.
pub proof fn law_collateral_batch_matches_singles(s: Store, call: CallContext, items: Seq<(Sym, i128)>)
    requires
        s.batch_collateral_gate(call, items) is None,
    ensures
        record_singles(s, call, items, 0) == Ok::<Store, Failure>(Store {
            sme_collateral: Some(SmeCollateralCommitment { asset: items.last().0, amount: items.last().1, recorded_at: call.timestamp }),
            ..s
        }),
{
    lemma_record_singles_last(s, call, items, 0);
}

} // verus!
