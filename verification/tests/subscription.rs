use solidgate_connector::subscription::webhook::{parse_solidgate_datetime, UtcDateTime};

#[test]
fn solidgate_datetime_is_naive_utc() {
    let parsed = parse_solidgate_datetime(Some("2026-06-09 11:22:15".to_string())).unwrap();
    assert_eq!(parsed, Some(UtcDateTime { seconds: 1781004135, nanos: 0 }));
    let parsed = parse_solidgate_datetime(Some("2026-09-07 11:22:15".to_string())).unwrap();
    assert_eq!(parsed, Some(UtcDateTime { seconds: 1788780135, nanos: 0 }));
}

#[test]
fn absent_or_empty_datetime_is_none() {
    assert_eq!(parse_solidgate_datetime(None).unwrap(), None);
    assert_eq!(parse_solidgate_datetime(Some(String::new())).unwrap(), None);
}

#[test]
fn rfc3339_datetime_is_rejected() {
    assert!(parse_solidgate_datetime(Some("2026-06-09T11:22:15Z".to_string())).is_err());
    assert!(parse_solidgate_datetime(Some("2026-06-09".to_string())).is_err());
    assert!(parse_solidgate_datetime(Some("2026-13-09 11:22:15".to_string())).is_err());
}
