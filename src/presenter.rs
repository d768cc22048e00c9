//! The presentation layer's model of the timer: what it shows, how it
//! changes on the user's actions and on the engine's signals, and the
//! command each action sends to the engine.
use vstd::prelude::*;
use crate::bridge::TimerEvent;
use crate::command::{decoded, parse_seconds, parsed_seconds};
use crate::engine::Command;
use crate::host::{Event, JsValue};
use vstd::utf8::encode_utf8;

verus! {

/// The duration a new timer starts with, in seconds.
pub const TOTAL_SECONDS: u32 = 60;

/// A command for the engine, as the presentation layer sends it: a command
/// name and an argument.
pub struct BackendCall {
    pub cmd: String,
    pub args: JsValue,
}

/// What the presentation layer shows of the timer.
pub struct TimerState {
    pub remaining_seconds: u32,
    pub is_running: bool,
    pub total_seconds: u32,
}

impl TimerState {
    /// A timer of `TOTAL_SECONDS`, not running.
    pub fn new() -> (r: TimerState)
        ensures
            r.remaining_seconds == TOTAL_SECONDS,
            r.total_seconds == TOTAL_SECONDS,
            !r.is_running,
    {
        TimerState {
            remaining_seconds: TOTAL_SECONDS,
            is_running: false,
            total_seconds: TOTAL_SECONDS,
        }
    }

    /// The user starts the timer: it shows as running when there is time
    /// left to count down (a start with none left changes nothing in the
    /// engine), and the start command is sent with the total duration.
    pub fn start(&mut self) -> (r: BackendCall)
        ensures
            final(self).is_running == (old(self).remaining_seconds > 0),
            final(self).remaining_seconds == old(self).remaining_seconds,
            final(self).total_seconds == old(self).total_seconds,
            r.cmd@ == "start_timer"@,
            r.args.number_of() == Some(old(self).total_seconds),
            r.args.wf(),
            decoded(r.cmd@, r.args) == Ok::<Command, crate::command::TimerError>(Command::Start),
    {
        self.is_running = self.remaining_seconds > 0;
        BackendCall { cmd: "start_timer".to_owned(), args: JsValue::from(self.total_seconds) }
    }

    /// The user pauses the timer: it shows as stopped, and the pause command
    /// is sent.
    pub fn pause(&mut self) -> (r: BackendCall)
        ensures
            !final(self).is_running,
            final(self).remaining_seconds == old(self).remaining_seconds,
            final(self).total_seconds == old(self).total_seconds,
            r.cmd@ == "pause_timer"@,
            r.args.holds_nothing(),
            decoded(r.cmd@, r.args) == Ok::<Command, crate::command::TimerError>(Command::Pause),
    {
        self.is_running = false;
        proof {
            lemma_command_names_differ();
        }
        BackendCall { cmd: "pause_timer".to_owned(), args: JsValue::undefined() }
    }

    /// The user resets the timer: it shows the full duration, stopped, and
    /// the reset command is sent.
    pub fn reset(&mut self) -> (r: BackendCall)
        ensures
            !final(self).is_running,
            final(self).remaining_seconds == old(self).total_seconds,
            final(self).total_seconds == old(self).total_seconds,
            r.cmd@ == "reset_timer"@,
            r.args.holds_nothing(),
            decoded(r.cmd@, r.args) == Ok::<Command, crate::command::TimerError>(Command::Reset),
    {
        self.remaining_seconds = self.total_seconds;
        self.is_running = false;
        proof {
            lemma_command_names_differ();
        }
        BackendCall { cmd: "reset_timer".to_owned(), args: JsValue::undefined() }
    }

    /// The user sets a new duration: it shows as total and remaining time,
    /// the countdown shows as stopped, and the configuration command is sent
    /// with it.
    pub fn update_total_time(&mut self, new_total: u32) -> (r: BackendCall)
        ensures
            final(self).total_seconds == new_total,
            final(self).remaining_seconds == new_total,
            !final(self).is_running,
            r.cmd@ == "set_total_seconds"@,
            r.args.number_of() == Some(new_total),
            r.args.wf(),
            decoded(r.cmd@, r.args) == Ok::<Command, crate::command::TimerError>(
                Command::Configure(new_total),
            ),
    {
        self.total_seconds = new_total;
        self.remaining_seconds = new_total;
        self.is_running = false;
        proof {
            lemma_command_names_differ();
        }
        BackendCall { cmd: "set_total_seconds".to_owned(), args: JsValue::from(new_total) }
    }

    /// Applies a signal of the engine: an update shows the new remaining
    /// time, and shows the timer stopped when it is zero; completion shows
    /// it stopped.
    pub fn apply_event(&mut self, event: TimerEvent)
        ensures
            final(self).total_seconds == old(self).total_seconds,
            final(self).remaining_seconds == (match event {
                TimerEvent::Update(n) => n,
                TimerEvent::Completed => old(self).remaining_seconds,
            }),
            final(self).is_running == (match event {
                TimerEvent::Update(n) => old(self).is_running && n != 0,
                TimerEvent::Completed => false,
            }),
    {
        match event {
            TimerEvent::Update(n) => {
                self.remaining_seconds = n;
                if n == 0 {
                    self.is_running = false;
                }
            },
            TimerEvent::Completed => {
                self.is_running = false;
            },
        }
    }
}

/// The four command names are distinct.
proof fn lemma_command_names_differ()
    ensures
        "pause_timer"@ != "start_timer"@,
        "reset_timer"@ != "start_timer"@,
        "reset_timer"@ != "pause_timer"@,
        "set_total_seconds"@ != "start_timer"@,
        "set_total_seconds"@ != "pause_timer"@,
        "set_total_seconds"@ != "reset_timer"@,
{
    reveal_strlit("start_timer");
    reveal_strlit("pause_timer");
    reveal_strlit("reset_timer");
    reveal_strlit("set_total_seconds");
    assert("start_timer"@[0] == 's');
    assert("start_timer"@[1] == 't');
    assert("pause_timer"@[0] == 'p');
    assert("reset_timer"@[0] == 'r');
    assert("set_total_seconds"@[1] == 'e');
    assert("set_total_seconds"@.len() == 17);
}

/// The number of seconds written in the input field that `event` was
/// dispatched to, if it was dispatched to one and its text is a number.
pub open spec fn field_seconds(event: Event) -> Option<u32> {
    match event.input_value_of() {
        Some(t) => parsed_seconds(encode_utf8(t)),
        None => None,
    }
}

/// Handles a change of the duration field: when the event comes from an
/// input field whose text is a number of seconds, the new duration is taken,
/// the countdown shows as stopped, and the configuration command is
/// returned; otherwise nothing changes.
pub fn handle_update_total_time(event: &Event, timer_state: &mut TimerState) -> (r: Option<
    BackendCall,
>)
    ensures
        r is Some <==> field_seconds(*event) is Some,
        field_seconds(*event) is None ==> *final(timer_state) == *old(timer_state),
        field_seconds(*event) matches Some(n) ==> final(timer_state).total_seconds == n
            && final(timer_state).remaining_seconds == n && !final(timer_state).is_running,
        r matches Some(call) ==> decoded(call.cmd@, call.args) == Ok::<
            Command,
            crate::command::TimerError,
        >(Command::Configure(field_seconds(*event)->Some_0)),
{
    match event.target() {
        Some(target) => match target.as_input() {
            Some(input) => {
                let text = input.value();
                match parse_seconds(text.as_str()) {
                    Some(n) => Some(timer_state.update_total_time(n)),
                    None => None,
                }
            },
            None => None,
        },
        None => None,
    }
}

/// Handles a timer update event carrying the remaining seconds as its
/// detail: applies it as an update signal. Returns whether the detail was a
/// number; an event without one changes nothing.
pub fn handle_timer_update(event: &Event, timer_state: &mut TimerState) -> (r: bool)
    ensures
        r == event.detail_of().number_of() is Some,
        event.detail_of().number_of() matches Some(n) ==> final(timer_state).remaining_seconds
            == n && final(timer_state).total_seconds == old(timer_state).total_seconds
            && final(timer_state).is_running == (old(timer_state).is_running && n != 0),
        event.detail_of().number_of() is None ==> *final(timer_state) == *old(timer_state),
{
    match event.detail().as_number() {
        Some(n) => {
            timer_state.apply_event(TimerEvent::Update(n));
            true
        },
        None => false,
    }
}

} // verus!
