use vstd::prelude::*;
use crate::types::Addr;

verus! {

/// The per-investor persistent entries of one address. `None` stands for an absent entry.
#[derive(Clone, Copy, Debug, PartialEq, Eq, Structural)]
pub struct InvestorRecord {
    /// Principal credited to the investor (absent reads as 0).
    pub contribution: Option<i128>,
    /// Effective yield chosen at the first deposit (absent falls back to the base yield).
    pub effective_yield: Option<i64>,
    /// Earliest claim timestamp (absent reads as 0).
    pub claim_not_before: Option<u64>,
    /// Whether the investor has claimed (absent reads as false).
    pub claimed: Option<bool>,
    /// Allowlist entry (absent reads as false).
    pub allowlisted: Option<bool>,
    /// Whether the investor's principal was refunded after cancellation.
    pub refunded: bool,
}

impl InvestorRecord {
    pub open spec fn spec_empty() -> InvestorRecord {
        InvestorRecord {
            contribution: None,
            effective_yield: None,
            claim_not_before: None,
            claimed: None,
            allowlisted: None,
            refunded: false,
        }
    }

    /// The record of an address that has no stored entry.
    pub fn empty() -> (r: InvestorRecord)
        ensures
            r == InvestorRecord::spec_empty(),
    {
        InvestorRecord {
            contribution: None,
            effective_yield: None,
            claim_not_before: None,
            claimed: None,
            allowlisted: None,
            refunded: false,
        }
    }

    pub open spec fn contribution_or_zero(self) -> i128 {
        match self.contribution {
            Some(c) => c,
            None => 0,
        }
    }

    pub open spec fn claim_not_before_or_zero(self) -> u64 {
        match self.claim_not_before {
            Some(t) => t,
            None => 0,
        }
    }

    pub open spec fn is_claimed(self) -> bool {
        self.claimed == Some(true)
    }

    pub open spec fn is_allowlisted(self) -> bool {
        self.allowlisted == Some(true)
    }
}

/// The record that `entries` holds for `a`: the last entry keyed by `a`, or the empty record.
pub open spec fn record_in(entries: Seq<(Addr, InvestorRecord)>, a: Addr) -> InvestorRecord
    decreases entries.len(),
{
    if entries.len() == 0 {
        InvestorRecord::spec_empty()
    } else if entries.last().0 == a {
        entries.last().1
    } else {
        record_in(entries.drop_last(), a)
    }
}

/// Keys from `from` on differ from `a`: the record of `a` is decided by the prefix.
proof fn lemma_record_in_prefix(entries: Seq<(Addr, InvestorRecord)>, a: Addr, from: int)
    requires
        0 <= from <= entries.len(),
        forall|k: int| from <= k < entries.len() ==> entries[k].0 != a,
    ensures
        record_in(entries, a) == record_in(entries.subrange(0, from), a),
    decreases entries.len() - from,
{
    if from < entries.len() {
        assert(entries.drop_last() =~= entries.subrange(0, entries.len() - 1));
        lemma_record_in_prefix(entries.drop_last(), a, from);
        assert(entries.drop_last().subrange(0, from) =~= entries.subrange(0, from));
    } else {
        assert(entries.subrange(0, from) =~= entries);
    }
}

/// Overwriting the last entry keyed by `a` changes the record of `a` only.
proof fn lemma_record_in_update(entries: Seq<(Addr, InvestorRecord)>, i: int, a: Addr, r: InvestorRecord, b: Addr)
    requires
        0 <= i < entries.len(),
        entries[i].0 == a,
        forall|k: int| i < k < entries.len() ==> entries[k].0 != a,
    ensures
        record_in(entries.update(i, (a, r)), b) == if b == a { r } else { record_in(entries, b) },
    decreases entries.len(),
{
    let u = entries.update(i, (a, r));
    if i == entries.len() - 1 {
        assert(u.drop_last() =~= entries.drop_last());
    } else {
        assert(u.drop_last() =~= entries.drop_last().update(i, (a, r)));
        lemma_record_in_update(entries.drop_last(), i, a, r, b);
    }
}

/// The investor entries loaded for an invocation, keyed by address.
pub struct InvestorBook {
    pub entries: Vec<(Addr, InvestorRecord)>,
}

impl InvestorBook {
    /// The record held for `a` (the empty record when none is held).
    pub open spec fn rec(&self, a: Addr) -> InvestorRecord {
        record_in(self.entries@, a)
    }

    pub fn new() -> (b: InvestorBook)
        ensures
            forall|a: Addr| b.rec(a) == InvestorRecord::spec_empty(),
    {
        InvestorBook { entries: Vec::new() }
    }

    /// Index of the last entry keyed by `a`, if any.
    fn find(&self, a: Addr) -> (r: Option<usize>)
        ensures
            match r {
                Some(i) => {
                    &&& i < self.entries@.len()
                    &&& self.entries@[i as int].0 == a
                    &&& forall|k: int| i < k < self.entries@.len() ==> self.entries@[k].0 != a
                },
                None => forall|k: int| 0 <= k < self.entries@.len() ==> self.entries@[k].0 != a,
            },
    {
        let mut j = self.entries.len();
        while j > 0
            invariant
                j <= self.entries@.len(),
                forall|k: int| j <= k < self.entries@.len() ==> self.entries@[k].0 != a,
            decreases j,
        {
            if self.entries[j - 1].0 == a {
                return Some(j - 1);
            }
            j = j - 1;
        }
        None
    }

    /// The record held for `a`.
    pub fn get(&self, a: Addr) -> (r: InvestorRecord)
        ensures
            r == self.rec(a),
    {
        match self.find(a) {
            Some(i) => {
                proof {
                    lemma_record_in_prefix(self.entries@, a, i + 1);
                    let p = self.entries@.subrange(0, i + 1);
                    assert(p.last() == self.entries@[i as int]);
                }
                self.entries[i].1
            },
            None => {
                proof {
                    lemma_record_in_prefix(self.entries@, a, 0);
                }
                InvestorRecord::empty()
            },
        }
    }

    /// Stores `r` as the record of `a`; the records of other addresses are unchanged.
    pub fn put(&mut self, a: Addr, r: InvestorRecord)
        ensures
            forall|b: Addr| #[trigger] final(self).rec(b) == if b == a { r } else { old(self).rec(b) },
    {
        match self.find(a) {
            Some(i) => {
                let ghost old_entries = self.entries@;
                self.entries.set(i, (a, r));
                proof {
                    assert forall|b: Addr| #[trigger] record_in(self.entries@, b) == if b == a { r } else { record_in(old_entries, b) } by {
                        lemma_record_in_update(old_entries, i as int, a, r, b);
                    }
                }
            },
            None => {
                let ghost old_entries = self.entries@;
                self.entries.push((a, r));
                proof {
                    assert(self.entries@.drop_last() =~= old_entries);
                }
            },
        }
    }
}

} // verus!
