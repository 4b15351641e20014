//! Tests for the key-code translator: concrete lookups in the built-in
//! table, bijection behaviour, and the overwrite semantics of repeated
//! entries.

use verbleiber::keycodenames::KeyCodeNameMapping;

#[test]
fn builtin_table_known_names() {
    let mapping = KeyCodeNameMapping::new();
    assert_eq!(mapping.find_code_for_name("left"), Some(0x110));
    assert_eq!(mapping.find_code_for_name("right"), Some(0x111));
    assert_eq!(mapping.find_code_for_name("task"), Some(0x117));
    assert_eq!(mapping.find_code_for_name("trigger"), Some(0x120));
    assert_eq!(mapping.find_code_for_name("dead"), Some(0x12f));
    assert_eq!(mapping.find_code_for_name("a"), Some(0x130));
    assert_eq!(mapping.find_code_for_name("thumbr"), Some(0x13e));
    assert_eq!(mapping.find_code_for_name("dpad_up"), Some(0x220));
    assert_eq!(mapping.find_code_for_name("dpad_right"), Some(0x223));
    assert_eq!(mapping.find_code_for_name("trigger_happy1"), Some(0x2c0));
    assert_eq!(mapping.find_code_for_name("trigger_happy8"), Some(0x2c7));
}

#[test]
fn builtin_table_known_codes() {
    let mapping = KeyCodeNameMapping::new();
    assert_eq!(mapping.find_name_for_code(0x110).as_deref(), Some("left"));
    assert_eq!(mapping.find_name_for_code(0x12f).as_deref(), Some("dead"));
    assert_eq!(mapping.find_name_for_code(0x134).as_deref(), Some("y"));
    assert_eq!(
        mapping.find_name_for_code(0x2c7).as_deref(),
        Some("trigger_happy8")
    );
}

#[test]
fn builtin_table_round_trip_is_bijective() {
    let mapping = KeyCodeNameMapping::new();
    let names = [
        "left", "right", "middle", "side", "extra", "forward", "back", "task", "trigger", "thumb",
        "thumb2", "top", "top2", "pinkie", "base", "base2", "base3", "base4", "base5", "base6",
        "dead", "a", "b", "c", "x", "y", "z", "tl", "tr", "tl2", "tr2", "select", "start", "mode",
        "thumbl", "thumbr", "dpad_up", "dpad_down", "dpad_left", "dpad_right", "trigger_happy1",
        "trigger_happy2", "trigger_happy3", "trigger_happy4", "trigger_happy5", "trigger_happy6",
        "trigger_happy7", "trigger_happy8",
    ];
    for name in names {
        let code = mapping
            .find_code_for_name(name)
            .unwrap_or_else(|| panic!("name {} missing", name));
        assert_eq!(mapping.find_name_for_code(code).as_deref(), Some(name));
    }
}

#[test]
fn builtin_table_unknown_lookups_yield_none() {
    let mapping = KeyCodeNameMapping::new();
    assert_eq!(mapping.find_code_for_name("no_such_key"), None);
    assert_eq!(mapping.find_code_for_name(""), None);
    assert_eq!(mapping.find_name_for_code(0), None);
    assert_eq!(mapping.find_name_for_code(0x2c8), None);
}

#[test]
fn from_entries_later_code_steals_earlier_name() {
    let entries = vec![("first", 7u16), ("second", 7u16)];
    let mapping = KeyCodeNameMapping::from_entries(&entries);
    assert_eq!(mapping.find_code_for_name("first"), None);
    assert_eq!(mapping.find_code_for_name("second"), Some(7));
    assert_eq!(mapping.find_name_for_code(7).as_deref(), Some("second"));
}

#[test]
fn from_entries_later_name_replaces_earlier_code() {
    let entries = vec![("key", 1u16), ("key", 2u16)];
    let mapping = KeyCodeNameMapping::from_entries(&entries);
    assert_eq!(mapping.find_code_for_name("key"), Some(2));
    assert_eq!(mapping.find_name_for_code(1), None);
    assert_eq!(mapping.find_name_for_code(2).as_deref(), Some("key"));
}
