use buffered_event_flags::event_flag::{EventFlag, EventFlagValue, Timestamp};

#[test]
fn state_record_renders_with_padded_flag() {
    let t = Timestamp::new(2023, 1, 1, 0, 0, 0, 123);
    let record = EventFlag::from_state(t, 7, true);
    assert_eq!(
        record.to_display_string(),
        "2023-01-01 00:00:00.123 -          7 - true"
    );
}

#[test]
fn quantity_record_round_trip() {
    let t = Timestamp::new(2023, 1, 1, 0, 0, 0, 123);
    let record = EventFlag::from_quantity(t, 42, -5);
    assert!(matches!(record.value, EventFlagValue::Quantity(-5)));
    assert!(record.to_display_string().ends_with("- -5"));
}

#[test]
fn state_value_renders_lowercase_literals() {
    assert_eq!(EventFlagValue::State(true).to_display_string(), "true");
    assert_eq!(EventFlagValue::State(false).to_display_string(), "false");
}

#[test]
fn quantity_value_renders_plain_decimal() {
    assert_eq!(EventFlagValue::Quantity(0).to_display_string(), "0");
    assert_eq!(EventFlagValue::Quantity(12345).to_display_string(), "12345");
    assert_eq!(EventFlagValue::Quantity(-1).to_display_string(), "-1");
    assert_eq!(
        EventFlagValue::Quantity(i32::MAX).to_display_string(),
        "2147483647"
    );
    assert_eq!(
        EventFlagValue::Quantity(i32::MIN).to_display_string(),
        "-2147483648"
    );
}

#[test]
fn wide_flag_is_not_truncated() {
    let t = Timestamp::new(2023, 1, 1, 0, 0, 0, 0);
    let record = EventFlag::from_state(t, u32::MAX, false);
    assert_eq!(
        record.to_display_string(),
        "2023-01-01 00:00:00.000 - 4294967295 - false"
    );
}

#[test]
fn zero_flag_is_right_aligned() {
    let t = Timestamp::new(2023, 1, 1, 0, 0, 0, 0);
    let record = EventFlag::from_state(t, 0, true);
    assert_eq!(
        record.to_display_string(),
        "2023-01-01 00:00:00.000 -          0 - true"
    );
}

#[test]
fn timestamp_fields_are_zero_padded() {
    let t = Timestamp::new(33, 2, 3, 4, 5, 6, 7);
    let record = EventFlag::from_quantity(t, 9, 10);
    assert_eq!(
        record.to_display_string(),
        "0033-02-03 04:05:06.007 -          9 - 10"
    );
}

#[test]
fn timestamp_at_upper_field_values() {
    let t = Timestamp::new(9999, 12, 31, 23, 59, 59, 999);
    let record = EventFlag::from_state(t, 10, true);
    assert_eq!(
        record.to_display_string(),
        "9999-12-31 23:59:59.999 -         10 - true"
    );
}

#[test]
fn constructors_capture_given_fields() {
    let t = Timestamp::new(2024, 6, 15, 12, 30, 45, 500);
    let s = EventFlag::from_state(t, 11, false);
    assert_eq!(s.time, t);
    assert_eq!(s.flag, 11);
    assert!(matches!(s.value, EventFlagValue::State(false)));

    let q = EventFlag::from_quantity(t, 0, 77);
    assert_eq!(q.time, t);
    assert_eq!(q.flag, 0);
    assert!(matches!(q.value, EventFlagValue::Quantity(77)));
}
