use wakezilla::access_log::{service_key, timestamp_of, AccessLog};

#[test]
fn record_appends_timestamps() {
    let mut log = AccessLog::new(2000);
    log.record("aa-80", 1);
    log.record("aa-80", 2);
    assert_eq!(log.get("aa-80"), vec![1, 2]);
}

#[test]
fn record_caps_at_1000_dropping_oldest() {
    let mut log = AccessLog::new(1000);
    for i in 0..1100 {
        log.record("aa-80", i);
    }
    let got = log.get("aa-80");
    assert_eq!(got.len(), 1000);
    assert_eq!(got.first(), Some(&100));
    assert_eq!(got.last(), Some(&1099));
}

#[test]
fn record_respects_configured_cap() {
    let mut log = AccessLog::new(3);
    for i in 0..10 {
        log.record("k", i);
    }
    let got = log.get("k");
    assert_eq!(got.len(), 3);
    assert_eq!(got, vec![7, 8, 9]);
}

#[test]
fn get_missing_key_is_empty() {
    let log = AccessLog::new(2000);
    assert!(log.get("nope").is_empty());
}

#[test]
fn record_disabled_when_cap_zero() {
    let mut log = AccessLog::new(0);
    log.record("k", 1);
    log.record("k", 2);
    assert!(log.get("k").is_empty());
}

#[test]
fn service_key_format() {
    assert_eq!(service_key("AA:BB", 1234), "AA:BB-1234");
}

#[test]
fn service_key_renders_port_zero_and_max() {
    assert_eq!(service_key("m", 0), "m-0");
    assert_eq!(service_key("", 65535), "-65535");
}

#[test]
fn record_keeps_keys_apart() {
    let mut log = AccessLog::new(2);
    log.record("a", 1);
    log.record("b", 10);
    log.record("a", 2);
    log.record("a", 3);
    assert_eq!(log.get("a"), vec![2, 3]);
    assert_eq!(log.get("b"), vec![10]);
}

#[test]
fn record_then_get_ends_with_new_timestamp() {
    let mut log = AccessLog::new(5);
    log.record("k", 42);
    assert_eq!(log.get("k").last(), Some(&42));
}

#[test]
fn restore_keeps_histories_and_later_duplicate_wins() {
    let log = AccessLog::restore(
        vec![
            ("a".to_string(), vec![1, 2, 3, 4]),
            ("b".to_string(), vec![5]),
            ("a".to_string(), vec![9]),
        ],
        2,
    );
    assert_eq!(log.max_records(), 2);
    assert_eq!(log.get("a"), vec![9]);
    assert_eq!(log.get("b"), vec![5]);
}

#[test]
fn restore_does_not_trim_until_next_record() {
    let mut log = AccessLog::restore(vec![("a".to_string(), vec![1, 2, 3, 4])], 2);
    assert_eq!(log.get("a"), vec![1, 2, 3, 4]);
    log.record("a", 5);
    assert_eq!(log.get("a"), vec![4, 5]);
}

#[test]
fn histories_then_restore_round_trips() {
    let mut log = AccessLog::new(3);
    log.record("x", 1);
    log.record("y", 2);
    log.record("x", 3);
    let saved = log.histories();
    assert_eq!(saved.len(), 2);
    let back = AccessLog::restore(saved, 3);
    assert_eq!(back.get("x"), vec![1, 3]);
    assert_eq!(back.get("y"), vec![2]);
}

#[test]
fn set_history_replaces() {
    let mut log = AccessLog::new(3);
    log.record("x", 1);
    log.set_history("x".to_string(), vec![7, 8]);
    assert_eq!(log.get("x"), vec![7, 8]);
}

#[test]
fn timestamp_of_truncates_and_defaults() {
    assert_eq!(timestamp_of(None), 0);
    assert_eq!(timestamp_of(Some(1_700_000_000_123)), 1_700_000_000_123);
    assert_eq!(timestamp_of(Some(u128::from(u64::MAX) + 1)), 0);
}

#[test]
fn now_millis_is_after_2020() {
    assert!(wakezilla::access_log::now_millis() > 1_577_836_800_000);
}
