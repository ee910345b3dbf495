//! Cross-contract callback binding: each registration gets the next invocation nonce and
//! binds an origin and a phase; execution consumes it once.
use vstd::prelude::*;
use crate::errors::{EscrowError, Failure};
use crate::state::{auth_gate, fail_if, first, StarfundEscrow, Store};
use crate::types::{Addr, CallContext, CallbackContext};

verus! {

/// The context `entries` holds for nonce `k`: the last entry keyed by `k`.
pub open spec fn ctx_in(entries: Seq<(u64, CallbackContext)>, k: u64) -> Option<CallbackContext>
    decreases entries.len(),
{
    if entries.len() == 0 {
        None
    } else if entries.last().0 == k {
        Some(entries.last().1)
    } else {
        ctx_in(entries.drop_last(), k)
    }
}

proof fn lemma_ctx_in_prefix(entries: Seq<(u64, CallbackContext)>, k: u64, from: int)
    requires
        0 <= from <= entries.len(),
        forall|j: int| from <= j < entries.len() ==> entries[j].0 != k,
    ensures
        ctx_in(entries, k) == ctx_in(entries.subrange(0, from), k),
    decreases entries.len() - from,
{
    if from < entries.len() {
        assert(entries.drop_last() =~= entries.subrange(0, entries.len() - 1));
        lemma_ctx_in_prefix(entries.drop_last(), k, from);
        assert(entries.drop_last().subrange(0, from) =~= entries.subrange(0, from));
    } else {
        assert(entries.subrange(0, from) =~= entries);
    }
}

proof fn lemma_ctx_in_update(entries: Seq<(u64, CallbackContext)>, i: int, k: u64, c: CallbackContext, m: u64)
    requires
        0 <= i < entries.len(),
        entries[i].0 == k,
        forall|j: int| i < j < entries.len() ==> entries[j].0 != k,
    ensures
        ctx_in(entries.update(i, (k, c)), m) == if m == k { Some(c) } else { ctx_in(entries, m) },
    decreases entries.len(),
{
    let u = entries.update(i, (k, c));
    if i == entries.len() - 1 {
        assert(u.drop_last() =~= entries.drop_last());
    } else {
        assert(u.drop_last() =~= entries.drop_last().update(i, (k, c)));
        lemma_ctx_in_update(entries.drop_last(), i, k, c, m);
    }
}

/// The registered callback contexts, keyed by nonce.
pub struct CallbackBook {
    pub entries: Vec<(u64, CallbackContext)>,
}

impl CallbackBook {
    /// The context registered under nonce `k`, if any.
    pub open spec fn ctx(&self, k: u64) -> Option<CallbackContext> {
        ctx_in(self.entries@, k)
    }

    pub fn new() -> (b: CallbackBook)
        ensures
            forall|k: u64| b.ctx(k) is None,
    {
        CallbackBook { entries: Vec::new() }
    }

    fn find(&self, k: u64) -> (r: Option<usize>)
        ensures
            match r {
                Some(i) => {
                    &&& i < self.entries@.len()
                    &&& self.entries@[i as int].0 == k
                    &&& forall|j: int| i < j < self.entries@.len() ==> self.entries@[j].0 != k
                },
                None => forall|j: int| 0 <= j < self.entries@.len() ==> self.entries@[j].0 != k,
            },
    {
        let mut j = self.entries.len();
        while j > 0
            invariant
                j <= self.entries@.len(),
                forall|m: int| j <= m < self.entries@.len() ==> self.entries@[m].0 != k,
            decreases j,
        {
            if self.entries[j - 1].0 == k {
                return Some(j - 1);
            }
            j = j - 1;
        }
        None
    }

    /// The context registered under nonce `k`, if any.
    pub fn get(&self, k: u64) -> (r: Option<CallbackContext>)
        ensures
            r == self.ctx(k),
    {
        match self.find(k) {
            Some(i) => {
                proof {
                    lemma_ctx_in_prefix(self.entries@, k, i + 1);
                    let p = self.entries@.subrange(0, i + 1);
                    assert(p.last() == self.entries@[i as int]);
                }
                Some(self.entries[i].1)
            },
            None => {
                proof {
                    lemma_ctx_in_prefix(self.entries@, k, 0);
                }
                None
            },
        }
    }

    /// Stores `c` under nonce `k`; other nonces are unchanged.
    pub fn put(&mut self, k: u64, c: CallbackContext)
        ensures
            forall|m: u64| #[trigger] final(self).ctx(m) == if m == k { Some(c) } else { old(self).ctx(m) },
    {
        match self.find(k) {
            Some(i) => {
                let ghost old_entries = self.entries@;
                self.entries.set(i, (k, c));
                proof {
                    assert forall|m: u64| #[trigger] ctx_in(self.entries@, m) == if m == k { Some(c) } else { ctx_in(old_entries, m) } by {
                        lemma_ctx_in_update(old_entries, i as int, k, c, m);
                    }
                }
            },
            None => {
                let ghost old_entries = self.entries@;
                self.entries.push((k, c));
                proof {
                    assert(self.entries@.drop_last() =~= old_entries);
                }
            },
        }
    }
}

impl Store {
    /// The store with the context of nonce `k` replaced by `c`.
    pub open spec fn with_callback(self, k: u64, c: CallbackContext) -> Store {
        Store { callbacks: |m: u64| if m == k { Some(c) } else { (self.callbacks)(m) }, ..self }
    }

    pub open spec fn register_callback_gate(self, call: CallContext) -> Option<Failure> {
        first(self.admin_gate(call),
        first(fail_if(self.esc().status == 4, EscrowError::CallbackAfterCancellation),
              fail_if(self.callback_nonce == u64::MAX, EscrowError::FundedAmountOverflow)))
    }

    /// The store after registering: the counter advances and the new nonce binds `origin`
    /// and `phase`, unconsumed.
    pub open spec fn register_callback_post(self, call: CallContext, origin: Addr, phase: u32) -> Store {
        let next = (self.callback_nonce + 1) as u64;
        Store { callback_nonce: next, ..self }.with_callback(next, CallbackContext {
            origin,
            nonce: next,
            phase,
            created_at: call.timestamp,
            consumed: false,
        })
    }

    pub open spec fn execute_callback_gate(self, call: CallContext, nonce: u64, origin: Addr, phase: u32) -> Option<Failure> {
        first(self.init_gate(),
        first(fail_if(self.esc().status == 4, EscrowError::CallbackAfterCancellation),
        first(auth_gate(call, origin),
              match (self.callbacks)(nonce) {
                  None => Some(Failure::Escrow(EscrowError::CallbackNotFound)),
                  Some(c) => first(fail_if(c.consumed, EscrowError::CallbackReplayed),
                             first(fail_if(c.origin != origin, EscrowError::CallbackWrongOrigin),
                             first(fail_if(c.nonce != nonce, EscrowError::CallbackWrongNonce),
                                   fail_if(c.phase != phase, EscrowError::CallbackWrongPhase)))),
              })))
    }

    /// The store after executing: the context is marked consumed.
    pub open spec fn execute_callback_post(self, nonce: u64) -> Store {
        self.with_callback(nonce, CallbackContext { consumed: true, ..(self.callbacks)(nonce).unwrap() })
    }
}

impl StarfundEscrow {
    /// Registers a callback for `origin` and `phase` under the next nonce (admin only, not
    /// after cancellation); returns the nonce.
    pub fn register_callback(&mut self, call: &CallContext, origin: Addr, phase: u32) -> (r: Result<u64, Failure>)
        ensures
            match old(self)@.register_callback_gate(*call) {
                Some(f) => r == Err::<u64, Failure>(f) && final(self)@ == old(self)@,
                None => r == Ok::<u64, Failure>((old(self)@.callback_nonce + 1) as u64)
                    && final(self)@ == old(self)@.register_callback_post(*call, origin, phase),
            },
    {
        let ghost st = self@;
        let escrow = self.load_escrow_require_admin(call)?;
        if escrow.status == 4 {
            return Err(Failure::Escrow(EscrowError::CallbackAfterCancellation));
        }
        let next = match self.callback_nonce.checked_add(1) {
            Some(n) => n,
            None => {
                return Err(Failure::Escrow(EscrowError::FundedAmountOverflow));
            },
        };
        self.callback_nonce = next;
        self.callbacks.put(next, CallbackContext { origin, nonce: next, phase, created_at: call.timestamp, consumed: false });
        proof {
            let post = st.register_callback_post(*call, origin, phase);
            assert(self@.callbacks =~= post.callbacks);
            assert(self@ =~= post);
        }
        Ok(next)
    }

    /// Executes and consumes the callback of `nonce`: the escrow must not be cancelled,
    /// `origin` must authorize and match, and nonce and phase must match the registration.
    /// Returns the consumed context.
    pub fn execute_callback(&mut self, call: &CallContext, nonce: u64, origin: Addr, phase: u32) -> (r: Result<CallbackContext, Failure>)
        ensures
            match old(self)@.execute_callback_gate(*call, nonce, origin, phase) {
                Some(f) => r == Err::<CallbackContext, Failure>(f) && final(self)@ == old(self)@,
                None => final(self)@ == old(self)@.execute_callback_post(nonce)
                    && r == Ok::<CallbackContext, Failure>((final(self)@.callbacks)(nonce).unwrap()),
            },
    {
        let ghost st = self@;
        let escrow = self.get_escrow()?;
        if escrow.status == 4 {
            return Err(Failure::Escrow(EscrowError::CallbackAfterCancellation));
        }
        StarfundEscrow::require_auth(call, origin)?;
        let mut context = match self.callbacks.get(nonce) {
            Some(c) => c,
            None => {
                return Err(Failure::Escrow(EscrowError::CallbackNotFound));
            },
        };
        if context.consumed {
            return Err(Failure::Escrow(EscrowError::CallbackReplayed));
        }
        if context.origin != origin {
            return Err(Failure::Escrow(EscrowError::CallbackWrongOrigin));
        }
        if context.nonce != nonce {
            return Err(Failure::Escrow(EscrowError::CallbackWrongNonce));
        }
        if context.phase != phase {
            return Err(Failure::Escrow(EscrowError::CallbackWrongPhase));
        }
        context.consumed = true;
        self.callbacks.put(nonce, context);
        proof {
            let post = st.execute_callback_post(nonce);
            assert(self@.callbacks =~= post.callbacks);
            assert(self@ =~= post);
        }
        Ok(context)
    }

    /// The context registered under `nonce`, if any.
    pub fn get_callback(&self, nonce: u64) -> (r: Option<CallbackContext>)
        ensures
            r == (self@.callbacks)(nonce),
    {
        self.callbacks.get(nonce)
    }

    /// The latest registered nonce (0 before any registration).
    pub fn get_callback_nonce(&self) -> (n: u64)
        ensures
            n == self.callback_nonce,
    {
        self.callback_nonce
    }

    /// Whether the callback of `nonce` exists and was consumed.
    pub fn is_callback_consumed(&self, nonce: u64) -> (b: bool)
        ensures
            b == ((self@.callbacks)(nonce) matches Some(c) && c.consumed),
    {
        match self.callbacks.get(nonce) {
            Some(c) => c.consumed,
            None => false,
        }
    }
}

/// A callback executes at most once: once an execution of `nonce` succeeds, every later
/// execution of the same nonce is rejected, whoever presents it.
pub proof fn law_callback_single_use(s: Store, call: CallContext, nonce: u64, origin: Addr, phase: u32, later: CallContext, origin2: Addr, phase2: u32)
    requires
        s.execute_callback_gate(call, nonce, origin, phase) is None,
    ensures
        s.execute_callback_post(nonce).execute_callback_gate(later, nonce, origin2, phase2) is Some,
{
}

/// Each registration binds a fresh nonce: the new nonce is greater than every nonce issued
/// before, and the contexts of all other nonces are unchanged.
pub proof fn law_callback_registration_is_fresh(s: Store, call: CallContext, origin: Addr, phase: u32, k: u64)
    requires
        s.register_callback_gate(call) is None,
        k != s.callback_nonce + 1,
    ensures
        s.register_callback_post(call, origin, phase).callback_nonce == s.callback_nonce + 1,
        (s.register_callback_post(call, origin, phase).callbacks)(k) == (s.callbacks)(k),
        (s.register_callback_post(call, origin, phase).callbacks)((s.callback_nonce + 1) as u64)
            == Some(CallbackContext { origin, nonce: (s.callback_nonce + 1) as u64, phase, created_at: call.timestamp, consumed: false }),
{
}

} // verus!
