use vstd::prelude::*;

use crate::budget::{acquire_step, CallBudget, Grant};
use crate::errors::LoadGenError;
use crate::signal::{delivered_after, is_first_delivery, ExhaustionSignal};

verus! {

/// Phases of the dispatch loop.
#[derive(Clone, Copy, Debug, PartialEq, Eq, Structural)]
pub enum DispatchState {
    /// Launching a wave on every tick.
    Running,
    /// Exhaustion has been observed: no new waves.
    Draining,
    /// Dispatch has ceased.
    Stopped,
}

/// What the loop does on one tick.
#[derive(Clone, Copy, Debug, PartialEq, Eq, Structural)]
pub enum WaveAction {
    /// Launch this many request tasks, then wait for the next tick.
    Launch(u32),
    /// Launch nothing and leave the loop.
    Halt,
}

/// State after a tick on which exhaustion was, or was not, observed.
pub open spec fn next_state(s: DispatchState, exhausted: bool) -> DispatchState {
    match s {
        DispatchState::Running => if exhausted {
            DispatchState::Draining
        } else {
            DispatchState::Running
        },
        _ => s,
    }
}

/// Action taken on a tick in state `s`.
pub open spec fn tick_action(s: DispatchState, rate: u32, exhausted: bool) -> WaveAction {
    if s == DispatchState::Running && !exhausted {
        WaveAction::Launch(rate)
    } else {
        WaveAction::Halt
    }
}

/// Idempotent exhaustion: delivering the signal again after it has been
/// delivered changes nothing and is not the first delivery, and the loop,
/// once it has seen exhaustion, stays out of `Running` and launches no
/// further wave however often it is told again.
pub proof fn lemma_exhaustion_idempotent(before: bool, s: DispatchState, rate: u32, again: bool)
    ensures
        delivered_after(delivered_after(before)) == delivered_after(before),
        !is_first_delivery(delivered_after(before)),
        next_state(next_state(s, delivered_after(before)), again) == next_state(
            s,
            delivered_after(before),
        ),
        next_state(s, delivered_after(before)) != DispatchState::Running,
        tick_action(next_state(s, delivered_after(before)), rate, again) == WaveAction::Halt,
{
}

/// The dispatch state machine: one wave of `rate` tasks per tick until the
/// exhaustion signal is seen.
pub struct DispatchLoop {
    state: DispatchState,
    rate: u32,
}

impl DispatchLoop {
    pub closed spec fn spec_state(&self) -> DispatchState {
        self.state
    }

    pub closed spec fn spec_rate(&self) -> u32 {
        self.rate
    }

    /// A loop that launches `rate` tasks per wave; a zero rate is a
    /// configuration error.
    pub fn new(rate: u32) -> (r: Result<DispatchLoop, LoadGenError>)
        ensures
            rate == 0 ==> r == Err::<DispatchLoop, LoadGenError>(LoadGenError::ZeroRateError),
            rate > 0 ==> (r matches Ok(l) && l.spec_state() == DispatchState::Running
                && l.spec_rate() == rate),
    {
        if rate == 0 {
            Err(LoadGenError::ZeroRateError)
        } else {
            Ok(DispatchLoop { state: DispatchState::Running, rate })
        }
    }

    /// One tick: `exhausted` is whether the exhaustion signal has arrived.
    pub fn step(&mut self, exhausted: bool) -> (a: WaveAction)
        ensures
            final(self).spec_state() == next_state(old(self).spec_state(), exhausted),
            final(self).spec_rate() == old(self).spec_rate(),
            a == tick_action(old(self).spec_state(), old(self).spec_rate(), exhausted),
    {
        match self.state {
            DispatchState::Running => {
                if exhausted {
                    self.state = DispatchState::Draining;
                    WaveAction::Halt
                } else {
                    WaveAction::Launch(self.rate)
                }
            },
            _ => WaveAction::Halt,
        }
    }

    /// Marks dispatch as ceased once the loop has been left.
    pub fn stop(&mut self)
        ensures
            final(self).spec_rate() == old(self).spec_rate(),
            old(self).spec_state() == DispatchState::Running ==> final(self).spec_state()
                == DispatchState::Running,
            old(self).spec_state() != DispatchState::Running ==> final(self).spec_state()
                == DispatchState::Stopped,
    {
        if self.state != DispatchState::Running {
            self.state = DispatchState::Stopped;
        }
    }

    pub fn state(&self) -> (s: DispatchState)
        ensures
            s == self.spec_state(),
    {
        self.state
    }

    pub fn rate(&self) -> (r: u32)
        ensures
            r == self.spec_rate(),
    {
        self.rate
    }
}

/// The first step of a request task: ask the budget for one call, and on a
/// denial deliver the exhaustion signal.
pub fn begin_request(budget: &mut CallBudget, signal: &mut ExhaustionSignal) -> (g: Grant)
    requires
        old(budget).wf(),
    ensures
        final(budget).wf(),
        final(budget).spec_total() == old(budget).spec_total(),
        (g, final(budget).spec_remaining()) == acquire_step(old(budget).spec_remaining()),
        g == Grant::Granted ==> final(signal)@ == old(signal)@,
        g == Grant::Denied ==> final(signal)@,
{
    let g = budget.try_acquire();
    if g == Grant::Denied {
        signal.deliver();
    }
    g
}

/// Runs the dispatch loop to its end with requests that complete at once,
/// one wave per tick, and returns how many calls were granted. A zero rate
/// is refused before any request is attempted.
pub fn simulate_dispatch(rate: u32, total: u32) -> (r: Result<u32, LoadGenError>)
    ensures
        rate == 0 ==> r == Err::<u32, LoadGenError>(LoadGenError::ZeroRateError),
        rate > 0 ==> r == Ok::<u32, LoadGenError>(total),
{
    let mut lp = match DispatchLoop::new(rate) {
        Ok(lp) => lp,
        Err(e) => {
            return Err(e);
        },
    };
    let mut budget = CallBudget::new(total);
    let mut signal = ExhaustionSignal::new();
    let mut granted: u32 = 0;
    loop
        invariant_except_break
            lp.spec_state() == DispatchState::Running,
        invariant
            budget.wf(),
            budget.spec_total() == total,
            granted == budget.spec_granted(),
            lp.spec_rate() == rate,
            rate > 0,
            signal@ ==> budget.spec_remaining() == 0,
        ensures
            granted == total,
        decreases budget.spec_remaining() + if signal@ { 0int } else { 1int },
    {
        match lp.step(signal.is_delivered()) {
            WaveAction::Halt => {
                break ;
            },
            WaveAction::Launch(n) => {
                assert(!signal@);
                let ghost start = budget.spec_remaining() + if signal@ { 0int } else { 1int };
                let mut i: u32 = 0;
                while i < n
                    invariant
                        budget.wf(),
                        budget.spec_total() == total,
                        granted == budget.spec_granted(),
                        signal@ ==> budget.spec_remaining() == 0,
                        0 <= i <= n,
                        n == rate,
                        rate > 0,
                        budget.spec_remaining() + (if signal@ { 0int } else { 1int }) + (if i > 0 {
                            1int
                        } else {
                            0int
                        }) <= start,
                        start >= 1,
                    decreases n - i,
                {
                    if begin_request(&mut budget, &mut signal) == Grant::Granted {
                        granted = granted + 1;
                    }
                    i = i + 1;
                }
            },
        }
    }
    lp.stop();
    Ok(granted)
}

} // verus!
