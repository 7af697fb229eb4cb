use vstd::prelude::*;

use crate::options::RunPeriod;

verus! {

/// Passes of the loop between two recyclings of the native memory pool.
pub const POOL_RECYCLE_PASSES: u64 = 100;

/// Milliseconds the host sleeps between two passes of the loop.
pub const PASS_SLEEP_MS: u64 = 50;

/// The whole duration in nanoseconds, as `Duration::as_nanos` gives it.
pub uninterp spec fn duration_nanos(d: std::time::Duration) -> u128;

/// Relies on `std::time::Duration::as_nanos`: the total number of whole
/// nanoseconds in the duration.
#[verifier::external_body]
fn as_nanos(d: &std::time::Duration) -> (r: u128)
    ensures
        r == duration_nanos(*d),
{
    d.as_nanos()
}

/// What the host does on the native side during one pass.
#[derive(Debug, Clone, Copy, PartialEq, Eq)]
pub struct PumpStep {
    /// First pass ever: install the delegate and finish launching first.
    pub finish_launching: bool,
    /// Allocate a fresh memory pool before pumping.
    pub new_pool: bool,
    /// Drain the previous memory pool before allocating the fresh one.
    pub drain_old_pool: bool,
}

/// Where a run of the loop stands, and with what period.
#[derive(Debug, Clone, Copy, PartialEq, Eq)]
pub enum Phase {
    /// No run in progress.
    Idle,
    /// Waiting for the result of a non-blocking look at the stop channel.
    Checking(RunPeriod),
    /// Waiting for the host to pump one native event.
    Pumping(RunPeriod),
    /// Waiting for the host to sleep between passes.
    Sleeping(RunPeriod),
}

/// What the host reports to the loop.
#[derive(Debug, Clone, Copy, PartialEq, Eq)]
pub enum LoopEvent {
    /// A call to run the loop for this period begins.
    Start(RunPeriod),
    /// The stop channel was looked at: `true` when a stop was pending.
    StopChecked(bool),
    /// One native event was dequeued and dispatched, and windows updated.
    Pumped,
    /// The sleep between passes is over; nanoseconds since the run began.
    Slept(u128),
}

/// What the loop asks the host to do next.
#[derive(Debug, Clone, Copy, PartialEq, Eq)]
pub enum LoopAction {
    /// Look at the stop channel without blocking.
    CheckStop,
    /// Pump one native event, with the given pool and launch work first.
    Pump(PumpStep),
    /// Sleep for `PASS_SLEEP_MS` milliseconds.
    Sleep,
    /// The run is over: `true` when a stop ended it, `false` when its period
    /// ran out.
    Finish(bool),
}

/// A `RunLoop` as values.
pub struct RunLoopView {
    pub launched: bool,
    pub pool_age: u64,
    pub phase: Phase,
}

/// Paces the native event loop. The host runs a call of the loop by sending
/// `Start` and then, for each action, doing it and sending the matching
/// event, until the action is `Finish`.
pub struct RunLoop {
    launched: bool,
    pool_age: u64,
    phase: Phase,
}

/// The native work of the next pass.
pub open spec fn pump_step(s: RunLoopView) -> PumpStep {
    PumpStep {
        finish_launching: !s.launched,
        new_pool: s.pool_age == 0,
        drain_old_pool: s.pool_age == 0 && s.launched,
    }
}

/// Passes since the memory pool was last recycled, after one more pass.
pub open spec fn next_pool_age(age: u64) -> u64 {
    if age >= POOL_RECYCLE_PASSES - 1 {
        0
    } else {
        (age + 1) as u64
    }
}

/// Whether a run with period `p` is over once `elapsed` nanoseconds have
/// passed since it began.
pub open spec fn period_over(p: RunPeriod, elapsed: u128) -> bool {
    match p {
        RunPeriod::Once => true,
        RunPeriod::Forever => false,
        RunPeriod::Time(d) => elapsed >= duration_nanos(d),
    }
}

/// Whether the loop in state `s` takes event `e`.
pub open spec fn accepts(s: RunLoopView, e: LoopEvent) -> bool {
    match e {
        LoopEvent::Start(_) => true,
        LoopEvent::StopChecked(_) => s.phase is Checking,
        LoopEvent::Pumped => s.phase is Pumping,
        LoopEvent::Slept(_) => s.phase is Sleeping,
    }
}

/// The next state and action of the loop in state `s` on event `e`.
pub open spec fn transition(s: RunLoopView, e: LoopEvent) -> (RunLoopView, LoopAction) {
    match (e, s.phase) {
        (LoopEvent::Start(p), _) => (RunLoopView { phase: Phase::Checking(p), ..s }, LoopAction::CheckStop),
        (LoopEvent::StopChecked(true), _) => (RunLoopView { phase: Phase::Idle, ..s }, LoopAction::Finish(true)),
        (LoopEvent::StopChecked(false), Phase::Checking(p)) => (
            RunLoopView { launched: true, pool_age: next_pool_age(s.pool_age), phase: Phase::Pumping(p) },
            LoopAction::Pump(pump_step(s)),
        ),
        (LoopEvent::Pumped, Phase::Pumping(p)) => if p is Once {
            (RunLoopView { phase: Phase::Idle, ..s }, LoopAction::Finish(false))
        } else {
            (RunLoopView { phase: Phase::Sleeping(p), ..s }, LoopAction::Sleep)
        },
        (LoopEvent::Slept(t), Phase::Sleeping(p)) => if period_over(p, t) {
            (RunLoopView { phase: Phase::Idle, ..s }, LoopAction::Finish(false))
        } else {
            (RunLoopView { phase: Phase::Checking(p), ..s }, LoopAction::CheckStop)
        },
        _ => (s, LoopAction::Finish(false)),
    }
}

/// A run with period `Once` makes exactly one pass and never sleeps: after
/// the start and a stop check that finds nothing pending, the loop pumps one
/// event and then finishes, naturally, and is idle again.
pub proof fn lemma_once_single_pass(s: RunLoopView)
    ensures
        transition(s, LoopEvent::Start(RunPeriod::Once)).1 == LoopAction::CheckStop,
        transition(transition(s, LoopEvent::Start(RunPeriod::Once)).0, LoopEvent::StopChecked(false)).1
            == LoopAction::Pump(pump_step(s)),
        transition(
            transition(transition(s, LoopEvent::Start(RunPeriod::Once)).0, LoopEvent::StopChecked(false)).0,
            LoopEvent::Pumped,
        ).1 == LoopAction::Finish(false),
        transition(
            transition(transition(s, LoopEvent::Start(RunPeriod::Once)).0, LoopEvent::StopChecked(false)).0,
            LoopEvent::Pumped,
        ).0.phase == Phase::Idle,
{
}

/// A pending stop ends a run at its next stop check, whatever the period,
/// with the "stopped" result. A run with period `Forever` ends no other way:
/// each pass is one pump and one sleep followed by the next stop check.
pub proof fn lemma_stop_ends_run(s: RunLoopView, p: RunPeriod, t: u128)
    requires
        s.phase == Phase::Checking(p),
    ensures
        transition(s, LoopEvent::StopChecked(true)) == (RunLoopView { phase: Phase::Idle, ..s }, LoopAction::Finish(true)),
        transition(s, LoopEvent::StopChecked(false)).1 is Pump,
        transition(RunLoopView { phase: Phase::Pumping(RunPeriod::Forever), ..s }, LoopEvent::Pumped).1
            == LoopAction::Sleep,
        transition(RunLoopView { phase: Phase::Sleeping(RunPeriod::Forever), ..s }, LoopEvent::Slept(t))
            == (RunLoopView { phase: Phase::Checking(RunPeriod::Forever), ..s }, LoopAction::CheckStop),
{
}

/// A run with period `Time(d)` finishes naturally only after a sleep, and
/// exactly when at least `d` has passed since it began: never earlier, and at
/// the first check after `d`, so at most one pass and one sleep late.
pub proof fn lemma_timed_run_ends_after_period(s: RunLoopView, d: std::time::Duration, t: u128)
    ensures
        transition(RunLoopView { phase: Phase::Pumping(RunPeriod::Time(d)), ..s }, LoopEvent::Pumped).1
            == LoopAction::Sleep,
        transition(RunLoopView { phase: Phase::Checking(RunPeriod::Time(d)), ..s }, LoopEvent::StopChecked(false)).1 is Pump,
        transition(RunLoopView { phase: Phase::Sleeping(RunPeriod::Time(d)), ..s }, LoopEvent::Slept(t)).1
            == if t >= duration_nanos(d) {
            LoopAction::Finish(false)
        } else {
            LoopAction::CheckStop
        },
{
}

impl View for RunLoop {
    type V = RunLoopView;

    closed spec fn view(&self) -> RunLoopView {
        RunLoopView { launched: self.launched, pool_age: self.pool_age, phase: self.phase }
    }
}

impl RunPeriod {
    /// Whether a run with this period is over once `elapsed_nanos`
    /// nanoseconds have passed since it began.
    pub fn is_over(&self, elapsed_nanos: u128) -> (r: bool)
        ensures
            r == period_over(*self, elapsed_nanos),
    {
        match self {
            RunPeriod::Once => true,
            RunPeriod::Forever => false,
            RunPeriod::Time(d) => time_is_up(as_nanos(d), elapsed_nanos),
        }
    }
}

/// Whether a limit of `limit_nanos` nanoseconds is reached after
/// `elapsed_nanos`.
pub fn time_is_up(limit_nanos: u128, elapsed_nanos: u128) -> (r: bool)
    ensures
        r == (elapsed_nanos >= limit_nanos),
{
    elapsed_nanos >= limit_nanos
}

impl RunLoop {
    /// A loop that has never run: the first pass will finish launching and
    /// allocate the first memory pool.
    pub fn new() -> (r: RunLoop)
        ensures
            r@ == (RunLoopView { launched: false, pool_age: 0, phase: Phase::Idle }),
    {
        RunLoop { launched: false, pool_age: 0, phase: Phase::Idle }
    }

    /// Whether the loop takes event `e` now.
    pub fn accepts(&self, e: &LoopEvent) -> (r: bool)
        ensures
            r == accepts(self@, *e),
    {
        match e {
            LoopEvent::Start(_) => true,
            LoopEvent::StopChecked(_) => match self.phase {
                Phase::Checking(_) => true,
                _ => false,
            },
            LoopEvent::Pumped => match self.phase {
                Phase::Pumping(_) => true,
                _ => false,
            },
            LoopEvent::Slept(_) => match self.phase {
                Phase::Sleeping(_) => true,
                _ => false,
            },
        }
    }

    /// Takes the host's report `e` and says what to do next.
    pub fn step(&mut self, e: LoopEvent) -> (r: LoopAction)
        requires
            accepts(old(self)@, e),
        ensures
            (final(self)@, r) == transition(old(self)@, e),
    {
        match e {
            LoopEvent::Start(p) => {
                self.phase = Phase::Checking(p);
                LoopAction::CheckStop
            },
            LoopEvent::StopChecked(stop) => {
                if stop {
                    self.phase = Phase::Idle;
                    return LoopAction::Finish(true);
                }
                let p = match self.phase {
                    Phase::Checking(p) => p,
                    _ => RunPeriod::Once,
                };
                let step = PumpStep {
                    finish_launching: !self.launched,
                    new_pool: self.pool_age == 0,
                    drain_old_pool: self.pool_age == 0 && self.launched,
                };
                self.launched = true;
                self.pool_age = if self.pool_age >= POOL_RECYCLE_PASSES - 1 {
                    0
                } else {
                    self.pool_age + 1
                };
                self.phase = Phase::Pumping(p);
                LoopAction::Pump(step)
            },
            LoopEvent::Pumped => {
                let p = match self.phase {
                    Phase::Pumping(p) => p,
                    _ => RunPeriod::Once,
                };
                match p {
                    RunPeriod::Once => {
                        self.phase = Phase::Idle;
                        LoopAction::Finish(false)
                    },
                    _ => {
                        self.phase = Phase::Sleeping(p);
                        LoopAction::Sleep
                    },
                }
            },
            LoopEvent::Slept(t) => {
                let p = match self.phase {
                    Phase::Sleeping(p) => p,
                    _ => RunPeriod::Once,
                };
                if p.is_over(t) {
                    self.phase = Phase::Idle;
                    LoopAction::Finish(false)
                } else {
                    self.phase = Phase::Checking(p);
                    LoopAction::CheckStop
                }
            },
        }
    }
}

} // verus!
