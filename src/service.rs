//! The timer service: one engine and its observers behind one owner.
//!
//! Each command or tick is one step: the engine changes, the signals of the
//! step are published to every subscriber, and the step answers with what
//! the caller must do about the background tick task. The caller holds the
//! service under one exclusive lock, so steps from the command side and from
//! the tick task are serialized.
use vstd::prelude::*;
use crate::bridge::{delivered, has_subscriber, ids_ordered_below, ObserverBridge, TimerEvent};
use crate::command::{decode_command, decoded, TimerError};
use crate::host::JsValue;
use crate::engine::{
    commanded, initial_state, start_spawns, tick_outcome, ticked, Command, EngineState, Phase,
    TickOutcome, TimerEngine,
};

verus! {

/// What the caller must do about the background tick task after a command.
#[derive(Clone, Copy, Debug, PartialEq, Eq, Structural)]
pub enum Directive {
    /// Nothing to do.
    Nothing,
    /// Spawn a tick task with this identifier.
    Spawn(u64),
    /// Cancel the tick task with this identifier.
    Cancel(u64),
}

/// The directive of command `c` in state `s`.
pub open spec fn command_directive(s: EngineState, c: Command) -> Directive {
    match c {
        Command::Start => if start_spawns(s) {
            Directive::Spawn(s.next_ticker)
        } else {
            Directive::Nothing
        },
        _ => match s.ticker {
            Some(t) => Directive::Cancel(t),
            None => Directive::Nothing,
        },
    }
}

/// The signals published by command `c` in state `s`: a reset announces the
/// restored remaining time; other commands announce nothing.
pub open spec fn command_signals(s: EngineState, c: Command) -> Seq<TimerEvent> {
    match c {
        Command::Reset => seq![TimerEvent::Update(s.total)],
        _ => Seq::empty(),
    }
}

/// The signals published by a tick of task `id` in state `s`: the new
/// remaining time, followed by completion when it is zero.
pub open spec fn tick_signals(s: EngineState, id: u64) -> Seq<TimerEvent> {
    match tick_outcome(s, id) {
        TickOutcome::Stale => Seq::empty(),
        TickOutcome::Counted(n) => seq![TimerEvent::Update(n)],
        TickOutcome::Finished => seq![TimerEvent::Update(0), TimerEvent::Completed],
    }
}

/// A timer engine together with the observers of its signals.
pub struct TimerService {
    engine: TimerEngine,
    observers: ObserverBridge,
}

impl TimerService {
    /// The engine's state.
    pub closed spec fn engine_state(&self) -> EngineState {
        self.engine@
    }

    /// The subscribers with their inboxes.
    pub closed spec fn subscribers(&self) -> Seq<(u64, Seq<TimerEvent>)> {
        self.observers@
    }

    /// The identifier the next subscriber receives.
    pub closed spec fn next_subscriber(&self) -> u64 {
        self.observers.next_id()
    }

    /// The invariant of the service.
    pub open spec fn wf(&self) -> bool {
        &&& self.engine_state().wf()
        &&& ids_ordered_below(self.subscribers(), self.next_subscriber())
    }

    /// A service for a countdown of `total` seconds, idle, without
    /// subscribers.
    pub fn new(total: u32) -> (r: TimerService)
        ensures
            r.engine_state() == initial_state(total),
            r.subscribers() == Seq::<(u64, Seq<TimerEvent>)>::empty(),
            r.next_subscriber() == 0,
            r.wf(),
    {
        TimerService { engine: TimerEngine::new(total), observers: ObserverBridge::new() }
    }

    /// The engine's current state.
    pub fn snapshot(&self) -> (r: EngineState)
        ensures
            r == self.engine_state(),
    {
        self.engine.snapshot()
    }

    /// Applies command `c` to the engine and publishes its signals.
    pub fn execute(&mut self, c: Command) -> (r: Directive)
        requires
            old(self).wf(),
        ensures
            final(self).wf(),
            final(self).engine_state() == commanded(old(self).engine_state(), c),
            final(self).subscribers() == delivered(
                old(self).subscribers(),
                command_signals(old(self).engine_state(), c),
            ),
            final(self).next_subscriber() == old(self).next_subscriber(),
            r == command_directive(old(self).engine_state(), c),
    {
        let ghost before = self.observers@;
        match c {
            Command::Start => {
                let spawned = self.engine.start();
                proof {
                    lemma_nothing_delivered(before);
                }
                match spawned {
                    Some(id) => Directive::Spawn(id),
                    None => Directive::Nothing,
                }
            },
            Command::Reset => {
                let cancelled = self.engine.reset();
                self.observers.publish(TimerEvent::Update(self.engine.remaining()));
                cancel_of(cancelled)
            },
            Command::Pause => {
                let cancelled = self.engine.pause();
                proof {
                    lemma_nothing_delivered(before);
                }
                cancel_of(cancelled)
            },
            Command::Configure(seconds) => {
                let cancelled = self.engine.configure(seconds);
                proof {
                    lemma_nothing_delivered(before);
                }
                cancel_of(cancelled)
            },
        }
    }

    /// Handles command `name` with argument `args` as a presentation layer
    /// sends it: a call that does not decode is refused with its error and
    /// changes nothing; any other is executed.
    pub fn handle_call(&mut self, name: &str, args: &JsValue) -> (r: Result<Directive, TimerError>)
        requires
            old(self).wf(),
        ensures
            final(self).wf(),
            final(self).next_subscriber() == old(self).next_subscriber(),
            match decoded(name@, *args) {
                Ok(c) => r == Ok::<Directive, TimerError>(
                    command_directive(old(self).engine_state(), c),
                ) && final(self).engine_state() == commanded(old(self).engine_state(), c)
                    && final(self).subscribers() == delivered(
                    old(self).subscribers(),
                    command_signals(old(self).engine_state(), c),
                ),
                Err(e) => r == Err::<Directive, TimerError>(e) && final(self).engine_state()
                    == old(self).engine_state() && final(self).subscribers() == old(
                    self,
                ).subscribers(),
            },
    {
        match decode_command(name, args) {
            Ok(c) => Ok(self.execute(c)),
            Err(e) => Err(e),
        }
    }

    /// One elapsed second, reported by tick task `id`: counts it and
    /// publishes the signals of the tick.
    pub fn tick(&mut self, id: u64) -> (r: TickOutcome)
        requires
            old(self).wf(),
        ensures
            final(self).wf(),
            final(self).engine_state() == ticked(old(self).engine_state(), id),
            final(self).subscribers() == delivered(
                old(self).subscribers(),
                tick_signals(old(self).engine_state(), id),
            ),
            final(self).next_subscriber() == old(self).next_subscriber(),
            r == tick_outcome(old(self).engine_state(), id),
    {
        let ghost before = self.observers@;
        let outcome = self.engine.tick(id);
        match outcome {
            TickOutcome::Stale => {
                proof {
                    lemma_nothing_delivered(before);
                }
            },
            TickOutcome::Counted(n) => {
                self.observers.publish(TimerEvent::Update(n));
            },
            TickOutcome::Finished => {
                self.observers.publish(TimerEvent::Update(0));
                self.observers.publish(TimerEvent::Completed);
                proof {
                    lemma_delivered_twice(before, TimerEvent::Update(0), TimerEvent::Completed);
                }
            },
        }
        outcome
    }

    /// Adds a subscriber; see `ObserverBridge::subscribe`.
    pub fn subscribe(&mut self) -> (r: Option<u64>)
        requires
            old(self).wf(),
        ensures
            final(self).wf(),
            final(self).engine_state() == old(self).engine_state(),
            old(self).next_subscriber() == u64::MAX ==> r is None && final(self).subscribers()
                == old(self).subscribers(),
            old(self).next_subscriber() < u64::MAX ==> r == Some(old(self).next_subscriber())
                && final(self).subscribers() == old(self).subscribers().push(
                (old(self).next_subscriber(), Seq::<TimerEvent>::empty()),
            ),
    {
        self.observers.subscribe()
    }

    /// Removes subscriber `id`; see `ObserverBridge::unsubscribe`.
    pub fn unsubscribe(&mut self, id: u64) -> (r: bool)
        requires
            old(self).wf(),
        ensures
            final(self).wf(),
            final(self).engine_state() == old(self).engine_state(),
            final(self).next_subscriber() == old(self).next_subscriber(),
            r == has_subscriber(old(self).subscribers(), id),
            r ==> exists|k: int|
                0 <= k < old(self).subscribers().len() && old(self).subscribers()[k].0 == id
                    && final(self).subscribers() == old(self).subscribers().remove(k),
            !r ==> final(self).subscribers() == old(self).subscribers(),
    {
        self.observers.unsubscribe(id)
    }

    /// Takes the signals waiting for subscriber `id`; see
    /// `ObserverBridge::take_events`.
    pub fn take_events(&mut self, id: u64) -> (r: Vec<TimerEvent>)
        requires
            old(self).wf(),
        ensures
            final(self).wf(),
            final(self).engine_state() == old(self).engine_state(),
            final(self).next_subscriber() == old(self).next_subscriber(),
            !has_subscriber(old(self).subscribers(), id) ==> r@ == Seq::<TimerEvent>::empty()
                && final(self).subscribers() == old(self).subscribers(),
            has_subscriber(old(self).subscribers(), id) ==> exists|k: int|
                0 <= k < old(self).subscribers().len() && old(self).subscribers()[k].0 == id && r@
                    == old(self).subscribers()[k].1 && final(self).subscribers() == old(
                    self,
                ).subscribers().update(k, (id, Seq::<TimerEvent>::empty())),
    {
        self.observers.take_events(id)
    }
}

/// The tick that completes a countdown signals the final update and then
/// completion, once; after it no tick of any task changes the engine or
/// signals anything until a command starts a new countdown.
pub proof fn lemma_completion_signals_once(s: EngineState, id: u64, later: u64)
    requires
        s.wf(),
        tick_outcome(s, id) == TickOutcome::Finished,
    ensures
        tick_signals(s, id) == seq![TimerEvent::Update(0), TimerEvent::Completed],
        ticked(s, id).phase == Phase::Completed,
        ticked(ticked(s, id), later) == ticked(s, id),
        tick_signals(ticked(s, id), later) == Seq::<TimerEvent>::empty(),
{
}

/// The directive that cancels `ticker`, if there is one.
fn cancel_of(ticker: Option<u64>) -> (r: Directive)
    ensures
        r == (match ticker {
            Some(t) => Directive::Cancel(t),
            None => Directive::Nothing,
        }),
{
    match ticker {
        Some(t) => Directive::Cancel(t),
        None => Directive::Nothing,
    }
}

/// Delivering no signals leaves every inbox as it was.
proof fn lemma_nothing_delivered(entries: Seq<(u64, Seq<TimerEvent>)>)
    ensures
        delivered(entries, Seq::empty()) == entries,
{
    assert forall|j: int| 0 <= j < entries.len() implies delivered(entries, Seq::empty())[j]
        == entries[j] by {
        assert(entries[j].1 + Seq::empty() =~= entries[j].1);
    }
    assert(delivered(entries, Seq::empty()) =~= entries);
}

/// Delivering two signals one after the other is delivering both at once.
proof fn lemma_delivered_twice(
    entries: Seq<(u64, Seq<TimerEvent>)>,
    first: TimerEvent,
    second: TimerEvent,
)
    ensures
        delivered(delivered(entries, seq![first]), seq![second]) == delivered(
            entries,
            seq![first, second],
        ),
{
    let lhs = delivered(delivered(entries, seq![first]), seq![second]);
    let rhs = delivered(entries, seq![first, second]);
    assert forall|j: int| 0 <= j < entries.len() implies lhs[j] == rhs[j] by {
        assert(entries[j].1 + seq![first] + seq![second] =~= entries[j].1 + seq![first, second]);
    }
    assert(lhs =~= rhs);
}

} // verus!
