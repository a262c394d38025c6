use feed_poster::dates::parse_feed_date;
use feed_poster::feed::RunConfig;
use feed_poster::pipeline::plan_report;

#[test]
fn rfc3339_and_rfc2822_agree_on_the_same_instant() {
    // The same instant written in both accepted forms parses to one epoch.
    let a = parse_feed_date("2024-01-01T12:00:00Z").unwrap();
    let b = parse_feed_date("Mon, 01 Jan 2024 12:00:00 +0000").unwrap();
    assert_eq!(a, b);
    assert_eq!(a, 1704110400);
}

#[test]
fn formats_round_trip_through_the_parser() {
    // Format one instant both ways with chrono, then confirm the parser
    // recovers the same epoch seconds from each.
    let t: i64 = 1700000000;
    let dt = chrono::DateTime::from_timestamp(t, 0).unwrap();
    let rfc3339 = dt.to_rfc3339_opts(chrono::SecondsFormat::Secs, true);
    let rfc2822 = dt.to_rfc2822();
    assert!(rfc3339.contains('Z'));
    assert!(!rfc2822.contains('Z'));
    assert_eq!(parse_feed_date(&rfc3339), Some(t));
    assert_eq!(parse_feed_date(&rfc2822), Some(t));
}

#[test]
fn offsets_are_respected() {
    let a = parse_feed_date("Mon, 01 Jan 2024 13:00:00 +0100").unwrap();
    assert_eq!(a, 1704110400);
}

#[test]
fn unreadable_date_yields_nothing() {
    assert!(parse_feed_date("not a date").is_none());
    assert!(parse_feed_date("").is_none());
    // Holds a 'Z', so it is tried as RFC 3339 and fails.
    assert!(parse_feed_date("Zebra").is_none());
}

#[test]
fn epoch_renders_as_utc_calendar_time() {
    let cfg = RunConfig {
        posting_enabled: true,
        notify_on_error: false,
        operator_id: 0,
        poll_interval: 3600,
    };
    let report = plan_report("f", 0, "e", &cfg);
    assert_eq!(report.log_line, "Feed: f at 1970-01-01 00:00:00 UTC\ne");
    let report = plan_report("f", 1704110400, "e", &cfg);
    assert_eq!(report.log_line, "Feed: f at 2024-01-01 12:00:00 UTC\ne");
}
