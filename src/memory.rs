use vstd::prelude::*;
use crate::role::WorkerRole;

verus! {

/// Abstract state of a memory budget: bytes allowed, bytes in use, and
/// whether an allocation has been refused.
pub struct BudgetState {
    pub limit: nat,
    pub used: nat,
    pub exhausted: bool,
}

/// State after asking `s` for `n` more bytes, and whether they were granted.
pub open spec fn allocate_step(s: BudgetState, n: nat) -> (BudgetState, bool) {
    if s.used + n <= s.limit {
        (BudgetState { limit: s.limit, used: s.used + n, exhausted: s.exhausted }, true)
    } else {
        (BudgetState { limit: s.limit, used: s.used, exhausted: true }, false)
    }
}

/// The budget of buffer memory that a worker's isolate may allocate.
pub struct MemoryBudget {
    limit: u64,
    used: u64,
    exhausted: bool,
}

impl View for MemoryBudget {
    type V = BudgetState;

    closed spec fn view(&self) -> BudgetState {
        BudgetState { limit: self.limit as nat, used: self.used as nat, exhausted: self.exhausted }
    }
}

impl MemoryBudget {
    pub open spec fn wf(&self) -> bool {
        self@.used <= self@.limit
    }

    /// A fresh budget of `limit` bytes.
    pub fn new(limit: u64) -> (r: MemoryBudget)
        ensures
            r.wf(),
            r@ == (BudgetState { limit: limit as nat, used: 0, exhausted: false }),
    {
        MemoryBudget { limit, used: 0, exhausted: false }
    }

    /// The budget that an isolate of `role` starts with: only a user worker
    /// has a ceiling.
    pub fn for_role(role: &WorkerRole) -> (r: Option<MemoryBudget>)
        ensures
            match role.spec_heap_limit_bytes() {
                Some(limit) => r is Some && r->0.wf() && r->0@ == (BudgetState {
                    limit: limit as nat,
                    used: 0,
                    exhausted: false,
                }),
                None => r is None,
            },
    {
        match role.heap_limit_bytes() {
            Some(limit) => Some(MemoryBudget::new(limit)),
            None => None,
        }
    }

    /// Asks for `n` more bytes: granted exactly when they fit under the limit;
    /// a refusal marks the budget exhausted.
    pub fn try_allocate(&mut self, n: u64) -> (r: bool)
        requires
            old(self).wf(),
        ensures
            final(self).wf(),
            (final(self)@, r) == allocate_step(old(self)@, n as nat),
    {
        if n <= self.limit - self.used {
            self.used = self.used + n;
            true
        } else {
            self.exhausted = true;
            false
        }
    }

    /// Gives back `n` bytes that were granted before.
    pub fn release(&mut self, n: u64)
        requires
            old(self).wf(),
            n <= old(self)@.used,
        ensures
            final(self).wf(),
            final(self)@ == (BudgetState {
                limit: old(self)@.limit,
                used: (old(self)@.used - n) as nat,
                exhausted: old(self)@.exhausted,
            }),
    {
        self.used = self.used - n;
    }

    pub fn used(&self) -> (r: u64)
        ensures
            r as nat == self@.used,
    {
        self.used
    }

    pub fn limit(&self) -> (r: u64)
        ensures
            r as nat == self@.limit,
    {
        self.limit
    }

    /// Whether an allocation has been refused for want of room.
    pub fn is_exhausted(&self) -> (r: bool)
        ensures
            r == self@.exhausted,
    {
        self.exhausted
    }
}

} // verus!
