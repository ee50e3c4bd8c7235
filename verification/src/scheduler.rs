//! The tick schedule: fixed-interval deadlines computed by addition, so that
//! the time a tick's work takes never moves a later tick.

use vstd::prelude::*;

verus! {

/// Why the scheduler cannot go on.
#[derive(Debug, Clone, Copy, PartialEq, Eq, Structural)]
pub enum SchedulerError {
    /// The interval is not positive.
    NonPositiveInterval,
    /// The next deadline lies beyond what the clock can count.
    ClockExhausted,
}

/// Issues ticks at a fixed interval, in milliseconds.
#[derive(Debug, Clone, Copy, PartialEq, Eq, Structural)]
pub struct Scheduler {
    interval_ms: u64,
}

/// Where the schedule stands: the deadline of the tick to launch next, in
/// milliseconds on a monotonic clock.
#[derive(Debug, Clone, Copy, PartialEq, Eq, Structural)]
pub struct TickState {
    pub next_ms: u64,
}

/// One tick: launch its job at once, without waiting for it, then sleep until
/// `resume_at_ms`.
#[derive(Debug, Clone, Copy, PartialEq, Eq, Structural)]
pub struct Tick {
    /// The time the tick was due at.
    pub due_ms: u64,
    /// The time to sleep until before the next tick.
    pub resume_at_ms: u64,
}

/// The time at which tick number `n`, counted from 0, is due when the schedule
/// starts at `start_ms`.
pub open spec fn tick_due(start_ms: int, interval_ms: int, n: nat) -> int {
    start_ms + n * interval_ms
}

impl Scheduler {
    /// The interval between two ticks, in milliseconds.
    pub closed spec fn interval(&self) -> u64 {
        self.interval_ms
    }

    /// The scheduler's interval is positive.
    pub open spec fn wf(&self) -> bool {
        self.interval() > 0
    }

    /// A scheduler that ticks every `interval_ms` milliseconds; an interval of
    /// zero is refused.
    pub fn new(interval_ms: u64) -> (r: Result<Scheduler, SchedulerError>)
        ensures
            interval_ms > 0 ==> r is Ok && r->Ok_0.interval() == interval_ms && r->Ok_0.wf(),
            interval_ms == 0 ==> r == Err::<Scheduler, SchedulerError>(
                SchedulerError::NonPositiveInterval,
            ),
    {
        if interval_ms == 0 {
            Err(SchedulerError::NonPositiveInterval)
        } else {
            Ok(Scheduler { interval_ms })
        }
    }

    /// The interval between two ticks, in milliseconds.
    pub fn interval_ms(&self) -> (ms: u64)
        ensures
            ms == self.interval(),
    {
        self.interval_ms
    }

    /// The schedule at its start: the first tick is due at `now_ms`.
    pub fn start(&self, now_ms: u64) -> (state: TickState)
        ensures
            state.next_ms == now_ms,
    {
        TickState { next_ms: now_ms }
    }

    /// The schedule after one more tick: the deadline moves on by exactly one
    /// interval, whatever the time is and however long any job runs. A
    /// deadline beyond the clock leaves the schedule where it is.
    pub open spec fn step(&self, state: TickState) -> TickState {
        if state.next_ms + self.interval() <= u64::MAX {
            TickState { next_ms: (state.next_ms + self.interval()) as u64 }
        } else {
            state
        }
    }

    /// The schedule after `n` ticks.
    pub open spec fn after(&self, state: TickState, n: nat) -> TickState
        decreases n,
    {
        if n == 0 {
            state
        } else {
            self.step(self.after(state, (n - 1) as nat))
        }
    }

    /// Issues the tick that is due: moves the deadline on by one interval and
    /// says when the tick was due and until when to sleep. Fails, and leaves
    /// the schedule as it is, where the new deadline is beyond the clock.
    pub fn advance(&self, state: &mut TickState) -> (r: Result<Tick, SchedulerError>)
        ensures
            *final(state) == self.step(*old(state)),
            old(state).next_ms + self.interval() <= u64::MAX ==> r == Ok::<Tick, SchedulerError>(
                Tick {
                    due_ms: old(state).next_ms,
                    resume_at_ms: (old(state).next_ms + self.interval()) as u64,
                },
            ),
            old(state).next_ms + self.interval() > u64::MAX ==> r == Err::<Tick, SchedulerError>(
                SchedulerError::ClockExhausted,
            ),
    {
        match state.next_ms.checked_add(self.interval_ms) {
            Some(next_ms) => {
                let due_ms = state.next_ms;
                state.next_ms = next_ms;
                Ok(Tick { due_ms, resume_at_ms: next_ms })
            },
            None => Err(SchedulerError::ClockExhausted),
        }
    }
}

/// Ticks are evenly spaced: from a start at `start_ms`, tick number `n` is due
/// at `start_ms + n * interval`, for every `n` whose deadline the clock can
/// count. Nothing but the start and the interval enters the schedule.
pub proof fn lemma_ticks_evenly_spaced(scheduler: Scheduler, start_ms: u64, n: nat)
    requires
        scheduler.wf(),
        tick_due(start_ms as int, scheduler.interval() as int, n) <= u64::MAX,
    ensures
        scheduler.after(TickState { next_ms: start_ms }, n).next_ms == tick_due(
            start_ms as int,
            scheduler.interval() as int,
            n,
        ),
    decreases n,
{
    let i = scheduler.interval() as int;
    if n == 0 {
        assert(0 * i == 0) by (nonlinear_arith);
    } else {
        assert((n - 1) * i + i == n * i) by (nonlinear_arith);
        lemma_ticks_evenly_spaced(scheduler, start_ms, (n - 1) as nat);
    }
}

/// Two successive ticks are exactly one interval apart.
pub proof fn lemma_tick_spacing(scheduler: Scheduler, start_ms: u64, n: nat)
    requires
        scheduler.wf(),
        tick_due(start_ms as int, scheduler.interval() as int, n + 1) <= u64::MAX,
    ensures
        scheduler.after(TickState { next_ms: start_ms }, n + 1).next_ms - scheduler.after(
            TickState { next_ms: start_ms },
            n,
        ).next_ms == scheduler.interval(),
{
    let i = scheduler.interval() as int;
    assert(n * i + i == (n + 1) * i) by (nonlinear_arith);
    lemma_ticks_evenly_spaced(scheduler, start_ms, n);
    lemma_ticks_evenly_spaced(scheduler, start_ms, n + 1);
}

} // verus!
