use sc_log_analyzer::timestamp::{
    clock_text_from, parse_timestamp, timestamp_from, Timestamp,
};

#[test]
fn parses_utc_timestamp() {
    let ts = parse_timestamp("2024-01-01T00:00:00Z");
    assert_eq!(ts, Some(Timestamp { secs: 1704067200, nanos: 0 }));
}

#[test]
fn parses_fraction_and_offset() {
    let ts = parse_timestamp("2024-01-01T02:00:00.250+02:00");
    assert_eq!(ts, Some(Timestamp { secs: 1704067200, nanos: 250_000_000 }));
    let epoch = parse_timestamp("1970-01-01T00:00:00.000000001Z");
    assert_eq!(epoch, Some(Timestamp { secs: 0, nanos: 1 }));
    let before = parse_timestamp("1969-12-31T23:59:59Z");
    assert_eq!(before, Some(Timestamp { secs: -1, nanos: 0 }));
}

#[test]
fn rejects_what_is_no_timestamp() {
    assert_eq!(parse_timestamp(""), None);
    assert_eq!(parse_timestamp("2024-01-01"), None);
    assert_eq!(parse_timestamp("2024-01-01 00:00:00"), None);
    assert_eq!(parse_timestamp("2024-13-01T00:00:00Z"), None);
    assert_eq!(parse_timestamp("yesterday"), None);
    assert_eq!(parse_timestamp("2024-01-01T00:00:00"), None);
}

#[test]
fn clock_text_is_utc_date_and_time() {
    assert_eq!(Timestamp::new(1704067200, 0).clock_text(), "2024-01-01 00:00:00");
    assert_eq!(Timestamp::new(0, 999_999_999).clock_text(), "1970-01-01 00:00:00");
    assert_eq!(Timestamp::new(-1, 0).clock_text(), "1969-12-31 23:59:59");
    let shifted = parse_timestamp("2024-06-30T23:30:15-01:00");
    match shifted {
        Some(ts) => assert_eq!(ts.clock_text(), "2024-07-01 00:30:15"),
        None => panic!("not parsed"),
    }
}

#[test]
fn clock_text_of_no_instant_is_empty() {
    assert_eq!(Timestamp::new(i64::MAX, 0).clock_text(), "");
    assert_eq!(Timestamp::new(0, 2_000_000_000).clock_text(), "");
    assert_eq!(clock_text_from(None), "");
    assert_eq!(clock_text_from(Some(String::from("x"))), "x");
}

#[test]
fn before_orders_by_seconds_then_nanoseconds() {
    let a = Timestamp::new(10, 5);
    let b = Timestamp::new(10, 6);
    let c = Timestamp::new(11, 0);
    let d = Timestamp::new(-3, 999);
    assert!(a.is_before(&b));
    assert!(b.is_before(&c));
    assert!(a.is_before(&c));
    assert!(d.is_before(&a));
    assert!(!b.is_before(&a));
    assert!(!a.is_before(&a));
    assert!(!c.is_before(&d));
}

#[test]
fn timestamp_from_pairs() {
    assert_eq!(timestamp_from(Some((5, 6))), Some(Timestamp { secs: 5, nanos: 6 }));
    assert_eq!(timestamp_from(None), None);
}

#[test]
fn offset_after_the_epoch() {
    assert_eq!(Timestamp::from_epoch_offset(false, 0, 0), Timestamp { secs: 0, nanos: 0 });
    assert_eq!(Timestamp::from_epoch_offset(false, 5, 7), Timestamp { secs: 5, nanos: 7 });
    assert_eq!(
        Timestamp::from_epoch_offset(false, 5, 2_500_000_000),
        Timestamp { secs: 7, nanos: 500_000_000 }
    );
    assert_eq!(
        Timestamp::from_epoch_offset(false, i64::MAX as u64, 999_999_999),
        Timestamp { secs: i64::MAX, nanos: 999_999_999 }
    );
    assert_eq!(
        Timestamp::from_epoch_offset(false, i64::MAX as u64 + 1, 0),
        Timestamp { secs: i64::MAX, nanos: 999_999_999 }
    );
    assert_eq!(
        Timestamp::from_epoch_offset(false, u64::MAX, u32::MAX),
        Timestamp { secs: i64::MAX, nanos: 999_999_999 }
    );
}

#[test]
fn offset_before_the_epoch() {
    assert_eq!(Timestamp::from_epoch_offset(true, 0, 0), Timestamp { secs: 0, nanos: 0 });
    assert_eq!(Timestamp::from_epoch_offset(true, 5, 0), Timestamp { secs: -5, nanos: 0 });
    assert_eq!(
        Timestamp::from_epoch_offset(true, 0, 1),
        Timestamp { secs: -1, nanos: 999_999_999 }
    );
    assert_eq!(
        Timestamp::from_epoch_offset(true, 5, 250_000_000),
        Timestamp { secs: -6, nanos: 750_000_000 }
    );
    assert_eq!(
        Timestamp::from_epoch_offset(true, 1 << 63, 0),
        Timestamp { secs: i64::MIN, nanos: 0 }
    );
    assert_eq!(
        Timestamp::from_epoch_offset(true, (1 << 63) - 1, 1),
        Timestamp { secs: i64::MIN, nanos: 999_999_999 }
    );
    assert_eq!(
        Timestamp::from_epoch_offset(true, 1 << 63, 1),
        Timestamp { secs: i64::MIN, nanos: 0 }
    );
    assert_eq!(
        Timestamp::from_epoch_offset(true, u64::MAX, 5),
        Timestamp { secs: i64::MIN, nanos: 0 }
    );
}

#[test]
fn offsets_keep_the_order_of_time() {
    let earlier = Timestamp::from_epoch_offset(true, 0, 1);
    let epoch = Timestamp::from_epoch_offset(false, 0, 0);
    let later = Timestamp::from_epoch_offset(false, 0, 1);
    assert!(earlier.is_before(&epoch));
    assert!(epoch.is_before(&later));
    assert!(Timestamp::from_epoch_offset(true, 2, 0).is_before(&Timestamp::from_epoch_offset(true, 1, 999_999_999)));
    assert_eq!(Timestamp::from_epoch_offset(false, 1704067200, 0).clock_text(), "2024-01-01 00:00:00");
}
