use vstd::prelude::*;

verus! {

/// Answer of the call budget to one attempt to start a request.
#[derive(Clone, Copy, Debug, PartialEq, Eq, Structural)]
pub enum Grant {
    Granted,
    Denied,
}

/// Answer to one attempt on a budget with `remaining` calls left, and the
/// count left afterwards.
pub open spec fn acquire_step(remaining: nat) -> (Grant, nat) {
    if remaining > 0 {
        (Grant::Granted, (remaining - 1) as nat)
    } else {
        (Grant::Denied, 0)
    }
}

/// Number of grants among `attempts` successive attempts on a budget with
/// `remaining` calls left.
pub open spec fn grants_in(remaining: nat, attempts: nat) -> nat
    decreases attempts,
{
    if attempts == 0 {
        0
    } else {
        let (g, rest) = acquire_step(remaining);
        (if g == Grant::Granted {
            1nat
        } else {
            0nat
        }) + grants_in(rest, (attempts - 1) as nat)
    }
}

/// Budget conservation: however attempts on a budget of `total` calls are
/// serialized, `n` attempts yield exactly `min(n, total)` grants. A run that
/// goes on until some attempt is denied has therefore granted exactly
/// `total` calls, whatever the rate.
pub proof fn lemma_budget_conservation(total: nat, attempts: nat)
    ensures
        grants_in(total, attempts) == if attempts < total {
            attempts
        } else {
            total
        },
        attempts > total ==> grants_in(total, attempts) == total,
    decreases attempts,
{
    if attempts > 0 {
        lemma_budget_conservation(acquire_step(total).1, (attempts - 1) as nat);
    }
}

/// A counter of the calls still permitted in a run.
pub struct CallBudget {
    remaining: u32,
    total: u32,
}

impl CallBudget {
    pub closed spec fn spec_remaining(&self) -> nat {
        self.remaining as nat
    }

    pub closed spec fn spec_total(&self) -> nat {
        self.total as nat
    }

    /// The remaining count never exceeds the initial budget.
    pub open spec fn wf(&self) -> bool {
        self.spec_remaining() <= self.spec_total()
    }

    /// Number of calls granted so far.
    pub open spec fn spec_granted(&self) -> nat {
        (self.spec_total() - self.spec_remaining()) as nat
    }

    pub fn new(total: u32) -> (b: CallBudget)
        ensures
            b.wf(),
            b.spec_total() == total,
            b.spec_remaining() == total,
    {
        CallBudget { remaining: total, total }
    }

    pub fn remaining(&self) -> (r: u32)
        ensures
            r == self.spec_remaining(),
    {
        self.remaining
    }

    pub fn total(&self) -> (r: u32)
        ensures
            r == self.spec_total(),
    {
        self.total
    }

    pub fn granted(&self) -> (r: u32)
        requires
            self.wf(),
        ensures
            r == self.spec_granted(),
    {
        self.total - self.remaining
    }

    pub fn is_exhausted(&self) -> (r: bool)
        ensures
            r == (self.spec_remaining() == 0),
    {
        self.remaining == 0
    }

    /// Takes one call from the budget if any is left; the check and the
    /// decrement are one step.
    pub fn try_acquire(&mut self) -> (g: Grant)
        requires
            old(self).wf(),
        ensures
            final(self).wf(),
            final(self).spec_total() == old(self).spec_total(),
            (g, final(self).spec_remaining()) == acquire_step(old(self).spec_remaining()),
    {
        if self.remaining > 0 {
            self.remaining = self.remaining - 1;
            Grant::Granted
        } else {
            Grant::Denied
        }
    }
}

} // verus!
