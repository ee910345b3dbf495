//! A minimal token ledger for exercising the escrow in tests: every address that has never
//! been seen holds a large default balance.
use vstd::prelude::*;
use crate::types::Addr;

verus! {

/// Starting balance of an address the ledger has never seen.
pub const MOCK_TOKEN_DEFAULT_BALANCE: i128 = 100_000_000_000_000i128;

/// The balance `entries` holds for `a`: the last entry keyed by `a`, or the default.
pub open spec fn balance_in(entries: Seq<(Addr, i128)>, a: Addr) -> i128
    decreases entries.len(),
{
    if entries.len() == 0 {
        MOCK_TOKEN_DEFAULT_BALANCE
    } else if entries.last().0 == a {
        entries.last().1
    } else {
        balance_in(entries.drop_last(), a)
    }
}

proof fn lemma_balance_in_prefix(entries: Seq<(Addr, i128)>, a: Addr, from: int)
    requires
        0 <= from <= entries.len(),
        forall|j: int| from <= j < entries.len() ==> entries[j].0 != a,
    ensures
        balance_in(entries, a) == balance_in(entries.subrange(0, from), a),
    decreases entries.len() - from,
{
    if from < entries.len() {
        assert(entries.drop_last() =~= entries.subrange(0, entries.len() - 1));
        lemma_balance_in_prefix(entries.drop_last(), a, from);
        assert(entries.drop_last().subrange(0, from) =~= entries.subrange(0, from));
    } else {
        assert(entries.subrange(0, from) =~= entries);
    }
}

proof fn lemma_balance_in_update(entries: Seq<(Addr, i128)>, i: int, a: Addr, v: i128, b: Addr)
    requires
        0 <= i < entries.len(),
        entries[i].0 == a,
        forall|j: int| i < j < entries.len() ==> entries[j].0 != a,
    ensures
        balance_in(entries.update(i, (a, v)), b) == if b == a { v } else { balance_in(entries, b) },
    decreases entries.len(),
{
    let u = entries.update(i, (a, v));
    if i == entries.len() - 1 {
        assert(u.drop_last() =~= entries.drop_last());
    } else {
        assert(u.drop_last() =~= entries.drop_last().update(i, (a, v)));
        lemma_balance_in_update(entries.drop_last(), i, a, v, b);
    }
}

/// Balances keyed by address.
pub struct DefaultMockToken {
    pub entries: Vec<(Addr, i128)>,
}

impl DefaultMockToken {
    /// The balance of `a`.
    pub open spec fn bal(&self, a: Addr) -> i128 {
        balance_in(self.entries@, a)
    }

    /// A ledger where every address holds the default balance.
    pub fn new() -> (t: DefaultMockToken)
        ensures
            forall|a: Addr| t.bal(a) == MOCK_TOKEN_DEFAULT_BALANCE,
    {
        DefaultMockToken { entries: Vec::new() }
    }

    fn find(&self, a: Addr) -> (r: Option<usize>)
        ensures
            match r {
                Some(i) => {
                    &&& i < self.entries@.len()
                    &&& self.entries@[i as int].0 == a
                    &&& forall|j: int| i < j < self.entries@.len() ==> self.entries@[j].0 != a
                },
                None => forall|j: int| 0 <= j < self.entries@.len() ==> self.entries@[j].0 != a,
            },
    {
        let mut j = self.entries.len();
        while j > 0
            invariant
                j <= self.entries@.len(),
                forall|m: int| j <= m < self.entries@.len() ==> self.entries@[m].0 != a,
            decreases j,
        {
            if self.entries[j - 1].0 == a {
                return Some(j - 1);
            }
            j = j - 1;
        }
        None
    }

    /// The balance of `addr`.
    pub fn balance(&self, addr: Addr) -> (b: i128)
        ensures
            b == self.bal(addr),
    {
        match self.find(addr) {
            Some(i) => {
                proof {
                    lemma_balance_in_prefix(self.entries@, addr, i + 1);
                    let p = self.entries@.subrange(0, i + 1);
                    assert(p.last() == self.entries@[i as int]);
                }
                self.entries[i].1
            },
            None => {
                proof {
                    lemma_balance_in_prefix(self.entries@, addr, 0);
                }
                MOCK_TOKEN_DEFAULT_BALANCE
            },
        }
    }

    fn set(&mut self, a: Addr, v: i128)
        ensures
            forall|b: Addr| #[trigger] final(self).bal(b) == if b == a { v } else { old(self).bal(b) },
    {
        match self.find(a) {
            Some(i) => {
                let ghost old_entries = self.entries@;
                self.entries.set(i, (a, v));
                proof {
                    assert forall|b: Addr| #[trigger] balance_in(self.entries@, b) == if b == a { v } else { balance_in(old_entries, b) } by {
                        lemma_balance_in_update(old_entries, i as int, a, v, b);
                    }
                }
            },
            None => {
                let ghost old_entries = self.entries@;
                self.entries.push((a, v));
                proof {
                    assert(self.entries@.drop_last() =~= old_entries);
                }
            },
        }
    }

    /// Moves `amount` from `from` to `to`. Both balances are read first, so a transfer to
    /// oneself credits `amount`.
    pub fn transfer(&mut self, from: Addr, to: Addr, amount: i128)
        requires
            i128::MIN <= old(self).bal(from) - amount <= i128::MAX,
            i128::MIN <= old(self).bal(to) + amount <= i128::MAX,
        ensures
            forall|b: Addr| #[trigger] final(self).bal(b) as int == if b == to {
                old(self).bal(to) + amount
            } else if b == from {
                old(self).bal(from) - amount
            } else {
                old(self).bal(b) as int
            },
    {
        let from_bal = self.balance(from);
        let to_bal = self.balance(to);
        self.set(from, from_bal - amount);
        self.set(to, to_bal + amount);
    }
}

} // verus!
