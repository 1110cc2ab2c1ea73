//! A bounded number of attempts, a fixed interval apart.
//!
//! The waits of this crate all have this shape: try, and on failure try
//! again after the interval, until the attempts are used up.

use vstd::prelude::*;

verus! {

/// A budget as a mathematical value.
pub struct BudgetModel {
    pub limit: nat,
    pub interval_ms: u64,
    pub used: nat,
}

impl BudgetModel {
    /// A budget of which nothing is used.
    pub open spec fn fresh(limit: nat, interval_ms: u64) -> BudgetModel {
        BudgetModel { limit, interval_ms, used: 0 }
    }

    /// Whether every attempt is used.
    pub open spec fn exhausted(self) -> bool {
        self.used >= self.limit
    }

    /// The budget after one more attempt, where one was left.
    pub open spec fn spent(self) -> BudgetModel {
        if self.used < self.limit {
            BudgetModel { used: self.used + 1, ..self }
        } else {
            self
        }
    }

    /// After how long to try again once one more attempt has failed; `None`
    /// where that attempt was the last.
    pub open spec fn pause_after_failure(self) -> Option<u64> {
        if self.used + 1 < self.limit {
            Some(self.interval_ms)
        } else {
            None
        }
    }
}

/// A budget of attempts.
pub struct AttemptBudget {
    limit: u32,
    interval_ms: u64,
    used: u32,
}

impl View for AttemptBudget {
    type V = BudgetModel;

    closed spec fn view(&self) -> BudgetModel {
        BudgetModel {
            limit: self.limit as nat,
            interval_ms: self.interval_ms,
            used: self.used as nat,
        }
    }
}

impl AttemptBudget {
    #[verifier::type_invariant]
    spec fn within_limit(&self) -> bool {
        self.used <= self.limit
    }

    /// A budget of `limit` attempts, `interval_ms` milliseconds apart.
    pub fn new(limit: u32, interval_ms: u64) -> (budget: AttemptBudget)
        ensures
            budget@ == BudgetModel::fresh(limit as nat, interval_ms),
    {
        AttemptBudget { limit, interval_ms, used: 0 }
    }

    /// The number of attempts used.
    pub fn used(&self) -> (used: u32)
        ensures
            used == self@.used,
            self@.used <= self@.limit,
            self@.limit <= u32::MAX,
    {
        proof {
            use_type_invariant(self);
        }
        self.used
    }

    /// The interval between two attempts, in milliseconds.
    pub fn interval_ms(&self) -> (interval_ms: u64)
        ensures
            interval_ms == self@.interval_ms,
    {
        self.interval_ms
    }

    /// Whether every attempt is used.
    pub fn exhausted(&self) -> (exhausted: bool)
        ensures
            exhausted == self@.exhausted(),
            self@.used <= self@.limit,
    {
        proof {
            use_type_invariant(self);
        }
        self.used >= self.limit
    }

    /// Counts one more attempt, which has failed, and says after how long to
    /// try again, or `None` where that attempt was the last.
    pub fn spend(&mut self) -> (pause: Option<u64>)
        ensures
            final(self)@ == old(self)@.spent(),
            pause == old(self)@.pause_after_failure(),
        no_unwind
    {
        proof {
            use_type_invariant(&*self);
        }
        if self.used < self.limit {
            self.used = self.used + 1;
            if self.used < self.limit {
                Some(self.interval_ms)
            } else {
                None
            }
        } else {
            None
        }
    }
}

} // verus!
