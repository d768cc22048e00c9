//! The timer engine: the countdown state and the rules by which commands and
//! ticks of the background task change it.
//!
//! The engine never sleeps or spawns anything itself. `start` answers with the
//! identifier of a tick task that the caller must run; that task calls `tick`
//! with its identifier once per elapsed second. A tick whose identifier is not
//! the current one, or that arrives while the engine is not running, changes
//! nothing: this is how a paused, reset or restarted timer is protected from a
//! stale task that had already passed its sleep.
use vstd::prelude::*;

verus! {

/// The lifecycle of a countdown.
#[derive(Clone, Copy, Debug, PartialEq, Eq, Structural)]
pub enum Phase {
    Idle,
    Running,
    Paused,
    Completed,
}

/// The countdown state as plain values.
///
/// `ticker` is the identifier of the one tick task that may advance the
/// countdown; `next_ticker` is the identifier the next spawned task receives.
#[derive(Clone, Copy, Debug, PartialEq, Eq, Structural)]
pub struct EngineState {
    pub total: u32,
    pub remaining: u32,
    pub phase: Phase,
    pub ticker: Option<u64>,
    pub next_ticker: u64,
}

impl EngineState {
    /// The invariant of every reachable state.
    pub open spec fn wf(self) -> bool {
        &&& self.remaining <= self.total
        &&& (self.ticker is Some <==> self.phase == Phase::Running)
        &&& (self.phase == Phase::Running ==> self.remaining > 0)
        &&& (self.phase == Phase::Completed ==> self.remaining == 0)
        &&& (self.ticker matches Some(t) ==> t != self.next_ticker)
    }

    /// The number of tick tasks this state accepts ticks from.
    pub open spec fn active_tickers(self) -> nat {
        if self.ticker is Some {
            1
        } else {
            0
        }
    }
}

/// The identifier after `id`, wrapping at the end of the range.
pub open spec fn following_ticker(id: u64) -> u64 {
    if id == u64::MAX {
        0
    } else {
        (id + 1) as u64
    }
}

/// A fresh engine counting down `total` seconds, not yet started.
pub open spec fn initial_state(total: u32) -> EngineState {
    EngineState { total, remaining: total, phase: Phase::Idle, ticker: None, next_ticker: 0 }
}

/// Whether `start` spawns a tick task from state `s`: only when no task runs
/// and there is time left to count down.
pub open spec fn start_spawns(s: EngineState) -> bool {
    s.phase != Phase::Running && s.remaining > 0
}

/// The state after `start`. Starting a running timer changes nothing, and so
/// does starting one with no time left: such a start is a no-op and signals
/// nothing.
pub open spec fn started(s: EngineState) -> EngineState {
    if start_spawns(s) {
        EngineState {
            phase: Phase::Running,
            ticker: Some(s.next_ticker),
            next_ticker: following_ticker(s.next_ticker),
            ..s
        }
    } else {
        s
    }
}

/// The state after `pause`: a running countdown stops where it is.
pub open spec fn paused(s: EngineState) -> EngineState {
    if s.phase == Phase::Running {
        EngineState { phase: Phase::Paused, ticker: None, ..s }
    } else {
        s
    }
}

/// The state after `reset`: the full duration again, not running.
pub open spec fn reset_state(s: EngineState) -> EngineState {
    EngineState { remaining: s.total, phase: Phase::Idle, ticker: None, ..s }
}

/// The state after `configure(seconds)`: a new duration, not running.
pub open spec fn configured(s: EngineState, seconds: u32) -> EngineState {
    EngineState { total: seconds, remaining: seconds, phase: Phase::Idle, ticker: None, ..s }
}

/// Whether a tick from task `id` is applied in state `s`.
pub open spec fn tick_applies(s: EngineState, id: u64) -> bool {
    s.phase == Phase::Running && s.ticker == Some(id) && s.remaining > 0
}

/// The state after a tick of task `id`: one second less, and completion when
/// the countdown reaches zero.
pub open spec fn ticked(s: EngineState, id: u64) -> EngineState {
    if tick_applies(s, id) {
        if s.remaining == 1 {
            EngineState { remaining: 0, phase: Phase::Completed, ticker: None, ..s }
        } else {
            EngineState { remaining: (s.remaining - 1) as u32, ..s }
        }
    } else {
        s
    }
}

/// A command issued to the engine from outside.
#[derive(Clone, Copy, Debug, PartialEq, Eq, Structural)]
pub enum Command {
    Start,
    Pause,
    Reset,
    Configure(u32),
}

/// The state after command `c`.
pub open spec fn commanded(s: EngineState, c: Command) -> EngineState {
    match c {
        Command::Start => started(s),
        Command::Pause => paused(s),
        Command::Reset => reset_state(s),
        Command::Configure(seconds) => configured(s, seconds),
    }
}

/// Anything that changes the engine: a command, or a tick of a task.
#[derive(Clone, Copy, Debug, PartialEq, Eq, Structural)]
pub enum Input {
    Command(Command),
    Tick(u64),
}

/// The state after input `i`.
pub open spec fn after_input(s: EngineState, i: Input) -> EngineState {
    match i {
        Input::Command(c) => commanded(s, c),
        Input::Tick(id) => ticked(s, id),
    }
}

/// The state after the inputs, in order.
pub open spec fn run_inputs(s: EngineState, inputs: Seq<Input>) -> EngineState
    decreases inputs.len(),
{
    if inputs.len() == 0 {
        s
    } else {
        run_inputs(after_input(s, inputs[0]), inputs.drop_first())
    }
}

/// Whether every one of the inputs is a tick.
pub open spec fn ticks_only(inputs: Seq<Input>) -> bool {
    forall|i: int| 0 <= i < inputs.len() ==> inputs[i] is Tick
}

/// What one tick did.
#[derive(Clone, Copy, Debug, PartialEq, Eq, Structural)]
pub enum TickOutcome {
    /// The task is not the current one or the engine is not running: nothing
    /// changed and the task must end.
    Stale,
    /// One second was counted; the new remaining time is carried. The task
    /// sleeps and ticks again.
    Counted(u32),
    /// The last second was counted: the countdown is complete and the task
    /// must end.
    Finished,
}

/// The outcome of a tick of task `id` in state `s`.
pub open spec fn tick_outcome(s: EngineState, id: u64) -> TickOutcome {
    if !tick_applies(s, id) {
        TickOutcome::Stale
    } else if s.remaining == 1 {
        TickOutcome::Finished
    } else {
        TickOutcome::Counted((s.remaining - 1) as u32)
    }
}

/// The countdown engine. Its state changes only through its operations.
pub struct TimerEngine {
    state: EngineState,
}

impl View for TimerEngine {
    type V = EngineState;

    closed spec fn view(&self) -> EngineState {
        self.state
    }
}

impl TimerEngine {
    /// The invariant of the engine.
    pub open spec fn wf(&self) -> bool {
        self@.wf()
    }

    /// An engine for a countdown of `total` seconds, idle.
    pub fn new(total: u32) -> (r: TimerEngine)
        ensures
            r@ == initial_state(total),
            r.wf(),
    {
        TimerEngine {
            state: EngineState {
                total,
                remaining: total,
                phase: Phase::Idle,
                ticker: None,
                next_ticker: 0,
            },
        }
    }

    /// The current state, for an observer that wants a snapshot rather than
    /// waiting for the next signal.
    pub fn snapshot(&self) -> (r: EngineState)
        ensures
            r == self@,
    {
        self.state
    }

    /// The configured full duration in seconds.
    pub fn total(&self) -> (r: u32)
        ensures
            r == self@.total,
    {
        self.state.total
    }

    /// The seconds left to count down.
    pub fn remaining(&self) -> (r: u32)
        ensures
            r == self@.remaining,
    {
        self.state.remaining
    }

    /// The current phase.
    pub fn phase(&self) -> (r: Phase)
        ensures
            r == self@.phase,
    {
        self.state.phase
    }

    /// Starts the countdown. Returns the identifier of the tick task to spawn,
    /// or `None` when no task is to be spawned: the timer already runs, or
    /// has no time left.
    pub fn start(&mut self) -> (r: Option<u64>)
        requires
            old(self).wf(),
        ensures
            final(self)@ == started(old(self)@),
            final(self).wf(),
            r == (if start_spawns(old(self)@) {
                Some(old(self)@.next_ticker)
            } else {
                None
            }),
    {
        if self.state.phase == Phase::Running || self.state.remaining == 0 {
            return None;
        }
        let id = self.state.next_ticker;
        let next = if id == u64::MAX {
            0
        } else {
            id + 1
        };
        self.state.phase = Phase::Running;
        self.state.ticker = Some(id);
        self.state.next_ticker = next;
        Some(id)
    }

    /// Pauses a running countdown. Returns the tick task that is cancelled,
    /// if one ran.
    pub fn pause(&mut self) -> (r: Option<u64>)
        requires
            old(self).wf(),
        ensures
            final(self)@ == paused(old(self)@),
            final(self).wf(),
            r == old(self)@.ticker,
    {
        let cancelled = self.state.ticker;
        if self.state.phase == Phase::Running {
            self.state.phase = Phase::Paused;
            self.state.ticker = None;
        }
        cancelled
    }

    /// Restores the full duration and stops the countdown. Returns the tick
    /// task that is cancelled, if one ran.
    pub fn reset(&mut self) -> (r: Option<u64>)
        requires
            old(self).wf(),
        ensures
            final(self)@ == reset_state(old(self)@),
            final(self).wf(),
            r == old(self)@.ticker,
    {
        let cancelled = self.state.ticker;
        self.state.remaining = self.state.total;
        self.state.phase = Phase::Idle;
        self.state.ticker = None;
        cancelled
    }

    /// Sets a new duration of `seconds`, which also becomes the remaining
    /// time, and stops the countdown. Returns the tick task that is
    /// cancelled, if one ran.
    pub fn configure(&mut self, seconds: u32) -> (r: Option<u64>)
        requires
            old(self).wf(),
        ensures
            final(self)@ == configured(old(self)@, seconds),
            final(self).wf(),
            r == old(self)@.ticker,
    {
        let cancelled = self.state.ticker;
        self.state.total = seconds;
        self.state.remaining = seconds;
        self.state.phase = Phase::Idle;
        self.state.ticker = None;
        cancelled
    }

    /// One elapsed second, reported by tick task `id`. Re-checks under the
    /// caller's exclusive access that the task is the current one and the
    /// engine still runs before it counts.
    pub fn tick(&mut self, id: u64) -> (r: TickOutcome)
        requires
            old(self).wf(),
        ensures
            final(self)@ == ticked(old(self)@, id),
            final(self).wf(),
            r == tick_outcome(old(self)@, id),
    {
        if self.state.phase != Phase::Running || self.state.ticker != Some(id) {
            return TickOutcome::Stale;
        }
        let left = self.state.remaining - 1;
        self.state.remaining = left;
        if left == 0 {
            self.state.phase = Phase::Completed;
            self.state.ticker = None;
            TickOutcome::Finished
        } else {
            TickOutcome::Counted(left)
        }
    }
}

/// Every input keeps the engine's invariant.
pub proof fn lemma_input_keeps_wf(s: EngineState, i: Input)
    requires
        s.wf(),
    ensures
        after_input(s, i).wf(),
{
}

/// Configuring a duration of `n` seconds and then resetting leaves `n`
/// seconds remaining and the engine idle, whatever state it was in.
pub proof fn lemma_configure_then_reset(s: EngineState, n: u32)
    requires
        s.wf(),
    ensures
        reset_state(configured(s, n)).remaining == n,
        reset_state(configured(s, n)).total == n,
        reset_state(configured(s, n)).phase == Phase::Idle,
        reset_state(configured(s, n)).wf(),
{
}

/// Starting twice in a row gives the same state as starting once, and the
/// second start spawns no task.
pub proof fn lemma_start_idempotent(s: EngineState)
    requires
        s.wf(),
    ensures
        started(started(s)) == started(s),
        !start_spawns(started(s)),
{
}

/// While the engine runs, each input leaves the remaining time as it was or
/// one second lower, and exactly one lower for a tick that is applied.
pub proof fn lemma_running_step(s: EngineState, i: Input)
    requires
        s.wf(),
        s.phase == Phase::Running,
        after_input(s, i).phase == Phase::Running,
    ensures
        after_input(s, i).remaining <= s.remaining,
        after_input(s, i).remaining == s.remaining - (if i matches Input::Tick(id) && tick_applies(s, id) {
            1int
        } else {
            0int
        }),
{
}

/// Running one more input after a run is applying it to the run's result.
proof fn lemma_run_push(s: EngineState, inputs: Seq<Input>, i: Input)
    ensures
        run_inputs(s, inputs.push(i)) == after_input(run_inputs(s, inputs), i),
    decreases inputs.len(),
{
    if inputs.len() > 0 {
        assert(inputs.push(i)[0] == inputs[0]);
        assert(inputs.push(i).drop_first() =~= inputs.drop_first().push(i));
        lemma_run_push(after_input(s, inputs[0]), inputs.drop_first(), i);
    } else {
        assert(inputs.push(i)[0] == i);
        assert(inputs.push(i).drop_first() =~= Seq::<Input>::empty());
        assert(run_inputs(after_input(s, i), Seq::<Input>::empty()) == after_input(s, i));
        assert(run_inputs(s, inputs) == s);
    }
}

/// When only ticks follow, the remaining time never goes up: of any two
/// observations, the later one shows no more time than the earlier one, and
/// neither shows more than the total, which stays as it was.
pub proof fn lemma_ticks_never_raise(s: EngineState, inputs: Seq<Input>, a: int, b: int)
    requires
        s.wf(),
        ticks_only(inputs),
        0 <= a <= b <= inputs.len(),
    ensures
        run_inputs(s, inputs.take(b)).remaining <= run_inputs(s, inputs.take(a)).remaining,
        run_inputs(s, inputs.take(b)).remaining <= run_inputs(s, inputs.take(b)).total,
        run_inputs(s, inputs.take(b)).total == s.total,
    decreases b,
{
    lemma_single_ticker(s, inputs.take(b));
    if b > 0 {
        let before = inputs.take(b - 1);
        assert(inputs.take(b) =~= before.push(inputs[b - 1]));
        lemma_run_push(s, before, inputs[b - 1]);
        assert(inputs[b - 1] is Tick);
        lemma_ticks_never_raise(s, inputs, 0, b - 1);
        if a < b {
            lemma_ticks_never_raise(s, inputs, a, b - 1);
        }
    }
}

/// Ticks of a task that is no longer the current one change nothing.
proof fn lemma_no_ticker_ticks(s: EngineState, inputs: Seq<Input>)
    requires
        s.ticker is None,
        ticks_only(inputs),
    ensures
        run_inputs(s, inputs) == s,
    decreases inputs.len(),
{
    if inputs.len() > 0 {
        assert(inputs[0] is Tick);
        lemma_no_ticker_ticks(after_input(s, inputs[0]), inputs.drop_first());
    }
}

/// When only ticks of the running task follow a start, the countdown goes
/// down by exactly one per tick: after `k` ticks `remaining - k` seconds are
/// left, until it reaches zero, and it is complete exactly when there were
/// at least as many ticks as seconds.
pub proof fn lemma_ticks_count_down(s: EngineState, t: u64, inputs: Seq<Input>)
    requires
        s.wf(),
        s.ticker == Some(t),
        forall|i: int| 0 <= i < inputs.len() ==> inputs[i] == Input::Tick(t),
    ensures
        run_inputs(s, inputs).remaining == s.remaining - (if inputs.len() < s.remaining {
            inputs.len() as int
        } else {
            s.remaining as int
        }),
        (run_inputs(s, inputs).phase == Phase::Completed) == (inputs.len() >= s.remaining),
        run_inputs(s, inputs).total == s.total,
    decreases inputs.len(),
{
    if inputs.len() > 0 {
        let rest = inputs.drop_first();
        let next = ticked(s, t);
        assert(inputs[0] == Input::Tick(t));
        if s.remaining == 1 {
            assert(ticks_only(rest)) by {
                assert forall|i: int| 0 <= i < rest.len() implies rest[i] is Tick by {
                    assert(rest[i] == inputs[i + 1]);
                }
            }
            lemma_no_ticker_ticks(next, rest);
        } else {
            assert forall|i: int| 0 <= i < rest.len() implies rest[i] == Input::Tick(t) by {
                assert(rest[i] == inputs[i + 1]);
            }
            lemma_ticks_count_down(next, t, rest);
        }
    }
}

/// Pausing a running countdown and starting it again resumes from the
/// remaining time at the pause, under a new tick task; a tick from the task
/// that ran before the pause then changes nothing.
pub proof fn lemma_pause_then_start(s: EngineState)
    requires
        s.wf(),
        s.phase == Phase::Running,
    ensures
        started(paused(s)).remaining == s.remaining,
        started(paused(s)).total == s.total,
        started(paused(s)).phase == Phase::Running,
        started(paused(s)).ticker != s.ticker,
        ticked(started(paused(s)), s.ticker->Some_0) == started(paused(s)),
{
}

/// At most one tick task is ever active: from any valid state, after any
/// inputs, at most one task's ticks are accepted, a task is spawned only
/// when none is active, and of two starts in a row, however they were
/// issued, at most one spawns a task.
pub proof fn lemma_single_ticker(s: EngineState, inputs: Seq<Input>)
    requires
        s.wf(),
    ensures
        run_inputs(s, inputs).wf(),
        run_inputs(s, inputs).active_tickers() <= 1,
        forall|id: u64|
            tick_applies(run_inputs(s, inputs), id) ==> run_inputs(s, inputs).ticker == Some(id),
        start_spawns(run_inputs(s, inputs)) ==> run_inputs(s, inputs).ticker is None,
        !(start_spawns(run_inputs(s, inputs)) && start_spawns(started(run_inputs(s, inputs)))),
    decreases inputs.len(),
{
    if inputs.len() > 0 {
        lemma_input_keeps_wf(s, inputs[0]);
        lemma_single_ticker(after_input(s, inputs[0]), inputs.drop_first());
    }
}

} // verus!
