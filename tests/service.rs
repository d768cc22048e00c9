use countdown::bridge::{ObserverBridge, TimerEvent};
use countdown::command::TimerError;
use countdown::engine::{Command, Phase, TickOutcome};
use countdown::host::JsValue;
use countdown::service::{Directive, TimerService};

#[test]
fn completion_signals_arrive_in_order_once() {
    let mut s = TimerService::new(60);
    let watcher = s.subscribe().unwrap();
    assert_eq!(s.execute(Command::Configure(3)), Directive::Nothing);
    let id = match s.execute(Command::Start) {
        Directive::Spawn(id) => id,
        other => panic!("expected a spawn, got {:?}", other),
    };
    assert_eq!(s.tick(id), TickOutcome::Counted(2));
    assert_eq!(s.tick(id), TickOutcome::Counted(1));
    assert_eq!(s.tick(id), TickOutcome::Finished);
    assert_eq!(s.tick(id), TickOutcome::Stale);
    assert_eq!(
        s.take_events(watcher),
        vec![
            TimerEvent::Update(2),
            TimerEvent::Update(1),
            TimerEvent::Update(0),
            TimerEvent::Completed
        ]
    );
    assert_eq!(s.take_events(watcher), vec![]);
    assert_eq!(s.snapshot().phase, Phase::Completed);
}

#[test]
fn configure_zero_then_start_signals_nothing() {
    let mut s = TimerService::new(60);
    let watcher = s.subscribe().unwrap();
    s.execute(Command::Configure(0));
    assert_eq!(s.execute(Command::Start), Directive::Nothing);
    assert_eq!(s.snapshot().phase, Phase::Idle);
    assert_eq!(s.take_events(watcher), vec![]);
}

#[test]
fn reset_announces_full_duration() {
    let mut s = TimerService::new(5);
    let watcher = s.subscribe().unwrap();
    let id = match s.execute(Command::Start) {
        Directive::Spawn(id) => id,
        other => panic!("expected a spawn, got {:?}", other),
    };
    s.tick(id);
    assert_eq!(s.execute(Command::Reset), Directive::Cancel(id));
    assert_eq!(
        s.take_events(watcher),
        vec![TimerEvent::Update(4), TimerEvent::Update(5)]
    );
    assert_eq!(s.snapshot().remaining, 5);
}

#[test]
fn pause_cancels_and_restart_spawns_new_ticker() {
    let mut s = TimerService::new(5);
    assert_eq!(s.execute(Command::Start), Directive::Spawn(0));
    assert_eq!(s.execute(Command::Start), Directive::Nothing);
    assert_eq!(s.execute(Command::Pause), Directive::Cancel(0));
    assert_eq!(s.execute(Command::Pause), Directive::Nothing);
    assert_eq!(s.execute(Command::Start), Directive::Spawn(1));
    assert_eq!(s.tick(0), TickOutcome::Stale);
    assert_eq!(s.tick(1), TickOutcome::Counted(4));
}

#[test]
fn late_subscriber_sees_only_later_signals() {
    let mut s = TimerService::new(4);
    let early = s.subscribe().unwrap();
    s.execute(Command::Start);
    s.tick(0);
    let late = s.subscribe().unwrap();
    assert_ne!(early, late);
    assert_eq!(s.snapshot().remaining, 3);
    s.tick(0);
    assert_eq!(
        s.take_events(early),
        vec![TimerEvent::Update(3), TimerEvent::Update(2)]
    );
    assert_eq!(s.take_events(late), vec![TimerEvent::Update(2)]);
}

#[test]
fn unsubscribed_observer_receives_nothing() {
    let mut s = TimerService::new(4);
    let a = s.subscribe().unwrap();
    let b = s.subscribe().unwrap();
    s.execute(Command::Start);
    s.tick(0);
    assert!(s.unsubscribe(a));
    assert!(!s.unsubscribe(a));
    s.tick(0);
    assert_eq!(s.take_events(a), vec![]);
    assert_eq!(
        s.take_events(b),
        vec![TimerEvent::Update(3), TimerEvent::Update(2)]
    );
}

#[test]
fn absent_subscriber_does_not_hold_up_ticks() {
    let mut s = TimerService::new(3);
    let _idle = s.subscribe().unwrap();
    s.execute(Command::Start);
    assert_eq!(s.tick(0), TickOutcome::Counted(2));
    assert_eq!(s.tick(0), TickOutcome::Counted(1));
    assert_eq!(s.tick(0), TickOutcome::Finished);
}

#[test]
fn handle_call_configures_from_number_and_text() {
    let mut s = TimerService::new(60);
    assert_eq!(
        s.handle_call("set_total_seconds", &JsValue::from(90)),
        Ok(Directive::Nothing)
    );
    assert_eq!((s.snapshot().total, s.snapshot().remaining), (90, 90));
    assert_eq!(
        s.handle_call("set_total_seconds", &JsValue::from_str("120")),
        Ok(Directive::Nothing)
    );
    assert_eq!((s.snapshot().total, s.snapshot().remaining), (120, 120));
    assert_eq!(
        s.handle_call("start_timer", &JsValue::from(120)),
        Ok(Directive::Spawn(0))
    );
    assert_eq!(
        s.handle_call("pause_timer", &JsValue::undefined()),
        Ok(Directive::Cancel(0))
    );
    assert_eq!(
        s.handle_call("reset_timer", &JsValue::undefined()),
        Ok(Directive::Nothing)
    );
}

#[test]
fn handle_call_rejects_negative_duration_untouched() {
    let mut s = TimerService::new(60);
    let watcher = s.subscribe().unwrap();
    s.execute(Command::Start);
    let before = s.snapshot();
    assert_eq!(
        s.handle_call("set_total_seconds", &JsValue::from_str("-5")),
        Err(TimerError::InvalidConfiguration)
    );
    assert_eq!(
        s.handle_call("set_total_seconds", &JsValue::undefined()),
        Err(TimerError::InvalidConfiguration)
    );
    assert_eq!(
        s.handle_call("set_total_seconds", &JsValue::from_str("4294967296")),
        Err(TimerError::InvalidConfiguration)
    );
    assert_eq!(s.snapshot(), before);
    assert_eq!(s.take_events(watcher), vec![]);
}

#[test]
fn handle_call_rejects_unknown_command() {
    let mut s = TimerService::new(60);
    let before = s.snapshot();
    assert_eq!(
        s.handle_call("trigger_notification", &JsValue::undefined()),
        Err(TimerError::UnknownCommand)
    );
    assert_eq!(s.snapshot(), before);
}

#[test]
fn bridge_publishes_to_every_inbox() {
    let mut b = ObserverBridge::new();
    let x = b.subscribe().unwrap();
    let y = b.subscribe().unwrap();
    assert_eq!(b.len(), 2);
    b.publish(TimerEvent::Update(9));
    b.publish(TimerEvent::Completed);
    assert_eq!(
        b.take_events(x),
        vec![TimerEvent::Update(9), TimerEvent::Completed]
    );
    assert_eq!(b.take_events(x), vec![]);
    assert_eq!(
        b.take_events(y),
        vec![TimerEvent::Update(9), TimerEvent::Completed]
    );
    assert_eq!(b.take_events(y + 100), vec![]);
}
