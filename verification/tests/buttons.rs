//! Tests for the button listener's decoding: configured assignments round
//! trip through raw key releases, unknown names are rejected, and presses
//! or unconfigured codes are dropped.

use verbleiber::buttons::{KeyCodeToButtonMapping, MappingError};
use verbleiber::keycodenames::KeyCodeNameMapping;
use verbleiber::model::{Button, Event, RawKeyEvent, EV_KEY, KEY_RELEASED};

fn release(code: u16) -> RawKeyEvent {
    RawKeyEvent { event_type: EV_KEY, code, value: KEY_RELEASED }
}

fn press(code: u16) -> RawKeyEvent {
    RawKeyEvent { event_type: EV_KEY, code, value: 1 }
}

#[test]
fn configured_buttons_round_trip() {
    let names = KeyCodeNameMapping::new();
    let assignments = vec![
        (Button::Button1, "left".to_string()),
        (Button::Button2, "right".to_string()),
        (Button::Button3, "trigger".to_string()),
        (Button::Button4, "dpad_up".to_string()),
        (Button::Button5, "a".to_string()),
        (Button::Button6, "b".to_string()),
        (Button::Button7, "trigger_happy1".to_string()),
        (Button::Button8, "trigger_happy8".to_string()),
    ];
    let mapping = KeyCodeToButtonMapping::new(&names, &assignments).unwrap();
    for (button, name) in &assignments {
        let code = names.find_code_for_name(name).unwrap();
        match mapping.decode_key_event(release(code)) {
            Some(Event::ButtonPressed { button: decoded }) => assert_eq!(decoded, *button),
            other => panic!("expected a button press for {}, got {:?}", name, other),
        }
    }
}

#[test]
fn key_press_transitions_are_ignored() {
    let names = KeyCodeNameMapping::new();
    let assignments = vec![(Button::Button1, "left".to_string())];
    let mapping = KeyCodeToButtonMapping::new(&names, &assignments).unwrap();
    assert!(mapping.decode_key_event(press(0x110)).is_none());
    assert!(mapping
        .decode_key_event(RawKeyEvent { event_type: 0, code: 0x110, value: KEY_RELEASED })
        .is_none());
}

#[test]
fn unconfigured_codes_are_dropped() {
    let names = KeyCodeNameMapping::new();
    let assignments = vec![(Button::Button1, "left".to_string())];
    let mapping = KeyCodeToButtonMapping::new(&names, &assignments).unwrap();
    assert!(mapping.decode_key_event(release(0x111)).is_none());
    assert_eq!(mapping.find_button_for_key_code(0x110), Some(Button::Button1));
    assert_eq!(mapping.find_button_for_key_code(0x112), None);
}

#[test]
fn unknown_key_name_is_an_error() {
    let names = KeyCodeNameMapping::new();
    let assignments = vec![
        (Button::Button1, "left".to_string()),
        (Button::Button2, "no_such_key".to_string()),
    ];
    let result = KeyCodeToButtonMapping::new(&names, &assignments);
    assert_eq!(
        result.err(),
        Some(MappingError::UnknownKeyName("no_such_key".to_string()))
    );
}
