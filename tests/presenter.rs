use countdown::bridge::TimerEvent;
use countdown::command::decode_command;
use countdown::engine::Command;
use countdown::host::{Event, EventTarget, HtmlInputElement, JsValue};
use countdown::presenter::{handle_timer_update, handle_update_total_time, TimerState, TOTAL_SECONDS};

#[test]
fn new_view_shows_default_duration() {
    let v = TimerState::new();
    assert_eq!(TOTAL_SECONDS, 60);
    assert_eq!(v.remaining_seconds, 60);
    assert_eq!(v.total_seconds, 60);
    assert!(!v.is_running);
}

#[test]
fn view_actions_send_matching_commands() {
    let mut v = TimerState::new();
    let call = v.start();
    assert!(v.is_running);
    assert_eq!(call.cmd, "start_timer");
    assert_eq!(call.args.as_number(), Some(60));
    assert_eq!(decode_command(&call.cmd, &call.args), Ok(Command::Start));

    let call = v.pause();
    assert!(!v.is_running);
    assert!(call.args.is_undefined());
    assert_eq!(decode_command(&call.cmd, &call.args), Ok(Command::Pause));

    let call = v.update_total_time(25);
    assert_eq!((v.total_seconds, v.remaining_seconds), (25, 25));
    assert_eq!(decode_command(&call.cmd, &call.args), Ok(Command::Configure(25)));

    v.remaining_seconds = 3;
    let call = v.reset();
    assert_eq!(v.remaining_seconds, 25);
    assert!(!v.is_running);
    assert_eq!(decode_command(&call.cmd, &call.args), Ok(Command::Reset));
}

#[test]
fn view_follows_engine_signals() {
    let mut v = TimerState::new();
    v.start();
    v.apply_event(TimerEvent::Update(2));
    assert_eq!(v.remaining_seconds, 2);
    assert!(v.is_running);
    v.apply_event(TimerEvent::Update(0));
    assert_eq!(v.remaining_seconds, 0);
    assert!(!v.is_running);
    v.start();
    v.apply_event(TimerEvent::Completed);
    assert!(!v.is_running);
    assert_eq!(v.total_seconds, 60);
}

#[test]
fn duration_field_change_updates_view() {
    let mut v = TimerState::new();
    let ev = Event::new(
        Some(EventTarget::from_input(HtmlInputElement::new("90"))),
        JsValue::undefined(),
    );
    let call = handle_update_total_time(&ev, &mut v).unwrap();
    assert_eq!((v.total_seconds, v.remaining_seconds), (90, 90));
    assert_eq!(decode_command(&call.cmd, &call.args), Ok(Command::Configure(90)));
}

#[test]
fn duration_field_change_ignores_bad_input() {
    let mut v = TimerState::new();
    for text in ["abc", "-3", "", "4294967296"] {
        let ev = Event::new(
            Some(EventTarget::from_input(HtmlInputElement::new(text))),
            JsValue::undefined(),
        );
        assert!(handle_update_total_time(&ev, &mut v).is_none());
        assert_eq!((v.total_seconds, v.remaining_seconds), (60, 60));
    }
    let not_input = Event::new(Some(EventTarget::other()), JsValue::undefined());
    assert!(handle_update_total_time(&not_input, &mut v).is_none());
    let no_target = Event::new(None, JsValue::undefined());
    assert!(handle_update_total_time(&no_target, &mut v).is_none());
    assert_eq!((v.total_seconds, v.remaining_seconds), (60, 60));
}

#[test]
fn timer_update_event_sets_remaining() {
    let mut v = TimerState::new();
    v.start();
    assert!(handle_timer_update(&Event::new(None, JsValue::from(41)), &mut v));
    assert_eq!(v.remaining_seconds, 41);
    assert!(v.is_running);
    assert!(!handle_timer_update(&Event::new(None, JsValue::from_str("7")), &mut v));
    assert_eq!(v.remaining_seconds, 41);
    assert!(handle_timer_update(&Event::new(None, JsValue::from(0)), &mut v));
    assert_eq!(v.remaining_seconds, 0);
    assert!(!v.is_running);
}

#[test]
fn new_duration_while_running_stops_view() {
    let mut v = TimerState::new();
    v.start();
    assert!(v.is_running);
    let call = v.update_total_time(5);
    assert!(!v.is_running);
    assert_eq!((v.total_seconds, v.remaining_seconds), (5, 5));
    assert_eq!(decode_command(&call.cmd, &call.args), Ok(Command::Configure(5)));
}

#[test]
fn duration_field_change_while_running_stops_view() {
    let mut v = TimerState::new();
    v.start();
    let ev = Event::new(
        Some(EventTarget::from_input(HtmlInputElement::new("30"))),
        JsValue::undefined(),
    );
    assert!(handle_update_total_time(&ev, &mut v).is_some());
    assert!(!v.is_running);
    assert_eq!((v.total_seconds, v.remaining_seconds), (30, 30));
}

#[test]
fn start_with_no_time_left_stays_stopped() {
    let mut v = TimerState::new();
    v.update_total_time(0);
    let call = v.start();
    assert!(!v.is_running);
    assert_eq!(decode_command(&call.cmd, &call.args), Ok(Command::Start));
}
