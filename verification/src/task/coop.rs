//! Cooperative scheduling: the budget of work a task gets between yields.
//!
//! The JavaScript event loop has no poll budget of its own, so each thread
//! keeps a counter instead: after a task burns through the counter with
//! budget-consuming calls, one call yields to the event loop and the
//! counter refills. That approximates how a budget-exhausted `tokio` task
//! gets rescheduled without ever blocking the browser.

use vstd::prelude::*;

verus! {

/// How many budget-consuming calls run between yields,
/// matching the budget that `tokio` assigns to each task poll.
pub const BUDGET: u32 = 128;

/// The cooperative budget of one thread: what is left of it, and whether
/// an unconstrained future is being polled, which turns consuming the
/// budget into a no-op.
pub struct CoopBudget {
    remaining: u32,
    unconstrained: bool,
}

/// The budget left after one budget-consuming call on a constrained
/// thread with `remaining` left: one less, or a refill when it ran out.
pub open spec fn spec_after_consume(remaining: u32) -> u32 {
    if remaining == 0 {
        BUDGET
    } else {
        (remaining - 1) as u32
    }
}

/// The budget left after `n` budget-consuming calls, starting full.
pub open spec fn spec_remaining_after(n: nat) -> u32
    decreases n,
{
    if n == 0 {
        BUDGET
    } else {
        spec_after_consume(spec_remaining_after((n - 1) as nat))
    }
}

impl CoopBudget {
    /// What is left of the budget.
    pub closed spec fn spec_remaining(&self) -> u32 {
        self.remaining
    }

    /// Whether an unconstrained future is being polled.
    pub closed spec fn spec_unconstrained(&self) -> bool {
        self.unconstrained
    }

    #[verifier::type_invariant]
    spec fn within_budget(&self) -> bool {
        self.remaining <= BUDGET
    }

    /// A full budget, with nothing unconstrained running.
    pub fn new() -> (budget: CoopBudget)
        ensures
            budget.spec_remaining() == BUDGET,
            !budget.spec_unconstrained(),
    {
        CoopBudget { remaining: BUDGET, unconstrained: false }
    }

    /// Consumes a unit of budget and returns whether the task has to yield
    /// to the JavaScript event loop because the budget was exhausted, in
    /// which case the budget refills. While an unconstrained future is
    /// being polled, nothing is consumed and nothing yields.
    pub fn consume(&mut self) -> (should_yield: bool)
        ensures
            final(self).spec_unconstrained() == old(self).spec_unconstrained(),
            old(self).spec_unconstrained() ==> !should_yield && final(self).spec_remaining()
                == old(self).spec_remaining(),
            !old(self).spec_unconstrained() ==> should_yield == (old(self).spec_remaining() == 0)
                && final(self).spec_remaining() == spec_after_consume(old(self).spec_remaining()),
            final(self).spec_remaining() <= BUDGET,
    {
        proof {
            use_type_invariant(&*self);
        }
        if self.unconstrained {
            return false;
        }
        if self.remaining == 0 {
            self.remaining = BUDGET;
            true
        } else {
            self.remaining = self.remaining - 1;
            false
        }
    }

    /// Marks the thread as polling an unconstrained future,
    /// handing back whether it already was.
    pub fn enter_unconstrained(&mut self) -> (previous: bool)
        ensures
            previous == old(self).spec_unconstrained(),
            final(self).spec_unconstrained(),
            final(self).spec_remaining() == old(self).spec_remaining(),
    {
        proof {
            use_type_invariant(&*self);
        }
        let previous = self.unconstrained;
        self.unconstrained = true;
        previous
    }

    /// Puts back what [`CoopBudget::enter_unconstrained`] handed back.
    pub fn leave_unconstrained(&mut self, previous: bool)
        ensures
            final(self).spec_unconstrained() == previous,
            final(self).spec_remaining() == old(self).spec_remaining(),
    {
        proof {
            use_type_invariant(&*self);
        }
        self.unconstrained = previous;
    }
}

/// Starting from a full budget, `n` budget-consuming calls leave
/// `BUDGET - n % (BUDGET + 1)`, and the call that finds nothing left is
/// every `(BUDGET + 1)`-th one: a task yields once per `BUDGET + 1` calls.
pub proof fn lemma_one_yield_per_budget(n: nat)
    ensures
        spec_remaining_after(n) == BUDGET - n % (BUDGET as nat + 1),
        (spec_remaining_after(n) == 0) <==> (n + 1) % (BUDGET as nat + 1) == 0,
    decreases n,
{
    if n > 0 {
        lemma_one_yield_per_budget((n - 1) as nat);
        let m = (n - 1) as nat;
        assert(m % 129 < 129);
        if m % 129 == 128 {
            assert(n % 129 == 0) by {
                vstd::arithmetic::div_mod::lemma_mod_add_multiples_vanish(m as int, 129);
                vstd::arithmetic::div_mod::lemma_add_mod_noop(m as int, 1, 129);
            }
        } else {
            assert(n % 129 == m % 129 + 1) by {
                vstd::arithmetic::div_mod::lemma_add_mod_noop(m as int, 1, 129);
            }
        }
    }
    assert((n + 1) % 129 == 0 <==> n % 129 == 128) by {
        vstd::arithmetic::div_mod::lemma_add_mod_noop(n as int, 1, 129);
    }
}

/// A future that is never forced to yield by the cooperative budget.
pub struct Unconstrained<F> {
    inner: F,
}

/// Turns off the cooperative scheduling for a future.
/// The future will never be forced to yield by the budget.
pub fn unconstrained<F>(inner: F) -> (wrapped: Unconstrained<F>)
    ensures
        wrapped.spec_inner() == inner,
{
    Unconstrained { inner }
}

impl<F> Unconstrained<F> {
    /// The wrapped future.
    pub closed spec fn spec_inner(&self) -> F {
        self.inner
    }

    /// Returns a mutable reference to the wrapped future, to poll it.
    pub fn get_mut(&mut self) -> (inner: &mut F)
        ensures
            *inner == old(self).spec_inner(),
            final(self).spec_inner() == *final(inner),
    {
        &mut self.inner
    }

    /// Consumes the wrapper, returning the wrapped future.
    pub fn into_inner(self) -> (inner: F)
        ensures
            inner == self.spec_inner(),
    {
        self.inner
    }
}

} // verus!
