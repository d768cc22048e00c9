use countdown::command::{decode_command, parse_seconds, seconds_from, TimerError};
use countdown::engine::Command;
use countdown::host::{Event, EventTarget, HtmlInputElement, JsValue};

#[test]
fn parse_seconds_reads_plain_numbers() {
    assert_eq!(parse_seconds("0"), Some(0));
    assert_eq!(parse_seconds("42"), Some(42));
    assert_eq!(parse_seconds("+7"), Some(7));
    assert_eq!(parse_seconds("007"), Some(7));
    assert_eq!(parse_seconds("4294967295"), Some(u32::MAX));
}

#[test]
fn parse_seconds_rejects_other_text() {
    assert_eq!(parse_seconds(""), None);
    assert_eq!(parse_seconds("+"), None);
    assert_eq!(parse_seconds("-1"), None);
    assert_eq!(parse_seconds("12a"), None);
    assert_eq!(parse_seconds(" 1"), None);
    assert_eq!(parse_seconds("1.5"), None);
    assert_eq!(parse_seconds("4294967296"), None);
    assert_eq!(parse_seconds("99999999999999999999"), None);
    assert_eq!(parse_seconds("٣"), None);
}

#[test]
fn js_values_hold_what_they_were_made_from() {
    let n = JsValue::from(12);
    assert_eq!(n.as_number(), Some(12));
    assert_eq!(n.as_string(), None);
    assert!(!n.is_undefined());
    let t = JsValue::from_str("detail");
    assert_eq!(t.as_number(), None);
    assert_eq!(t.as_string(), Some("detail".to_string()));
    assert!(!t.is_undefined());
    let u = JsValue::undefined();
    assert!(u.is_undefined());
    assert_eq!(u.as_number(), None);
    assert_eq!(u.as_string(), None);
}

#[test]
fn seconds_from_reads_numbers_and_text() {
    assert_eq!(seconds_from(&JsValue::from(5)), Some(5));
    assert_eq!(seconds_from(&JsValue::from_str("15")), Some(15));
    assert_eq!(seconds_from(&JsValue::from_str("x")), None);
    assert_eq!(seconds_from(&JsValue::undefined()), None);
}

#[test]
fn decode_command_maps_each_name() {
    let none = JsValue::undefined();
    assert_eq!(decode_command("start_timer", &none), Ok(Command::Start));
    assert_eq!(decode_command("pause_timer", &none), Ok(Command::Pause));
    assert_eq!(decode_command("reset_timer", &none), Ok(Command::Reset));
    assert_eq!(
        decode_command("set_total_seconds", &JsValue::from(30)),
        Ok(Command::Configure(30))
    );
    assert_eq!(
        decode_command("set_total_seconds", &JsValue::from_str("-30")),
        Err(TimerError::InvalidConfiguration)
    );
    assert_eq!(
        decode_command("Start_timer", &none),
        Err(TimerError::UnknownCommand)
    );
    assert_eq!(decode_command("", &none), Err(TimerError::UnknownCommand));
}

#[test]
fn event_target_exposes_input_field() {
    let ev = Event::new(
        Some(EventTarget::from_input(HtmlInputElement::new("75"))),
        JsValue::undefined(),
    );
    let target = ev.target().unwrap();
    let input = target.as_input().unwrap();
    assert_eq!(input.value(), "75".to_string());
    let other = Event::new(Some(EventTarget::other()), JsValue::undefined());
    assert!(other.target().unwrap().as_input().is_none());
    let bare = Event::new(None, JsValue::from(4));
    assert!(bare.target().is_none());
    assert_eq!(bare.detail().as_number(), Some(4));
}
