use service::instant::{Instant, MAX_NANOS, MAX_SPAN_DAYS, MIN_NANOS, NANOS_PER_DAY};

#[test]
fn supported_range_is_that_of_jiff() {
    assert_eq!(MIN_NANOS, jiff::Timestamp::MIN.as_nanosecond());
    assert_eq!(MAX_NANOS, jiff::Timestamp::MAX.as_nanosecond());
    assert_eq!(Instant::earliest().nanos(), MIN_NANOS);
    assert_eq!(Instant::latest().nanos(), MAX_NANOS);
}

#[test]
fn from_nanos_accepts_exactly_the_supported_range() {
    assert_eq!(Instant::from_nanos(0).unwrap().nanos(), 0);
    assert_eq!(Instant::from_nanos(MIN_NANOS).unwrap().nanos(), MIN_NANOS);
    assert_eq!(Instant::from_nanos(MAX_NANOS).unwrap().nanos(), MAX_NANOS);
    assert!(Instant::from_nanos(MIN_NANOS - 1).is_none());
    assert!(Instant::from_nanos(MAX_NANOS + 1).is_none());
    assert!(jiff::Timestamp::from_nanosecond(MIN_NANOS - 1).is_err());
    assert!(jiff::Timestamp::from_nanosecond(MAX_NANOS + 1).is_err());
}

#[test]
fn parse_reads_the_instant() {
    assert_eq!(Instant::parse("1970-01-01T00:00:00Z").unwrap().nanos(), 0);
    assert_eq!(Instant::parse("1970-01-01T00:00:01Z").unwrap().nanos(), 1_000_000_000);
    assert_eq!(
        Instant::parse("2024-06-19 15:22:45-04").unwrap().nanos(),
        Instant::parse("2024-06-19T19:22:45Z").unwrap().nanos()
    );
    assert_eq!(
        Instant::parse("2024-06-19T15:22:45-04[America/New_York]").unwrap().nanos(),
        Instant::parse("2024-06-19T19:22:45Z").unwrap().nanos()
    );
    assert_eq!(Instant::parse("1970-01-02T00:00:00Z").unwrap().nanos(), NANOS_PER_DAY);
}

#[test]
fn parse_rejects_what_is_no_instant() {
    assert!(Instant::parse("").is_err());
    assert!(Instant::parse("yesterday").is_err());
    assert!(Instant::parse("2024-06-30 08:30").is_err());
    assert!(Instant::parse("2024-06-30 08:30[America/New_York]").is_err());
    assert!(Instant::parse("2024-13-01T00:00:00Z").is_err());
}

#[test]
fn to_text_is_rfc_3339_in_utc() {
    assert_eq!(Instant::from_nanos(0).unwrap().to_text(), "1970-01-01T00:00:00Z");
    assert_eq!(Instant::from_nanos(1).unwrap().to_text(), "1970-01-01T00:00:00.000000001Z");
    assert_eq!(Instant::from_nanos(-1).unwrap().to_text(), "1969-12-31T23:59:59.999999999Z");
    assert_eq!(
        Instant::parse("2024-06-19 15:22:45-04").unwrap().to_text(),
        "2024-06-19T19:22:45Z"
    );
}

#[test]
fn text_reads_back_to_the_same_instant() {
    let samples = [
        MIN_NANOS,
        MIN_NANOS + 1,
        -NANOS_PER_DAY - 1,
        -1,
        0,
        1,
        999_999_999,
        1_000_000_000,
        1_718_824_965_123_456_789,
        MAX_NANOS - 1,
        MAX_NANOS,
    ];
    for nanos in samples {
        let instant = Instant::from_nanos(nanos).unwrap();
        assert_eq!(Instant::parse(&instant.to_text()).unwrap().nanos(), nanos);
    }
}

#[test]
fn text_is_the_same_on_every_call() {
    let instant = Instant::from_nanos(1_718_824_965_123_000_000).unwrap();
    assert_eq!(instant.to_text(), instant.to_text());
    assert_eq!(instant.to_text(), "2024-06-19T19:22:45.123Z");
}

#[test]
fn nanos_since_is_the_signed_difference() {
    let early = Instant::from_nanos(5).unwrap();
    let late = Instant::from_nanos(12).unwrap();
    assert_eq!(late.nanos_since(&early), 7);
    assert_eq!(early.nanos_since(&late), -7);
    assert_eq!(
        Instant::latest().nanos_since(&Instant::earliest()),
        MAX_NANOS - MIN_NANOS
    );
}

#[test]
fn now_follows_the_system_clock() {
    let before = std::time::SystemTime::now()
        .duration_since(std::time::UNIX_EPOCH)
        .unwrap()
        .as_nanos() as i128;
    let now = Instant::now().unwrap().nanos();
    let after = std::time::SystemTime::now()
        .duration_since(std::time::UNIX_EPOCH)
        .unwrap()
        .as_nanos() as i128;
    assert!(before <= now && now <= after);
}

#[test]
fn days_before_now_goes_back_by_calendar_days() {
    let slack = NANOS_PER_DAY / 8;
    for days in [0u32, 1, 14, 60, 365] {
        let now = Instant::now().unwrap();
        let earlier = Instant::days_before_now(days).unwrap();
        let gone = now.nanos_since(&earlier);
        let asked = days as i128 * NANOS_PER_DAY;
        assert!(asked - slack <= gone && gone <= asked + slack);
    }
}

#[test]
fn days_before_now_refuses_spans_that_jiff_cannot_hold() {
    assert!(Instant::days_before_now(MAX_SPAN_DAYS + 1).is_err());
    assert!(Instant::days_before_now(u32::MAX).is_err());
    assert!(jiff::Span::new().try_days(MAX_SPAN_DAYS).is_ok());
    assert!(jiff::Span::new().try_days(MAX_SPAN_DAYS + 1).is_err());
}
