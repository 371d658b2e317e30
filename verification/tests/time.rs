use studibudget::time::{Date, Timestamp, MAX_SECS, MAX_YEAR, MIN_YEAR};

#[test]
fn dates_that_exist() {
    let d = Date::new(2024, 2, 29).unwrap();
    assert_eq!((d.year(), d.month(), d.day()), (2024, 2, 29));
    assert!(Date::new(2000, 2, 29).is_some());
    assert!(Date::new(-4, 2, 29).is_some());
    assert!(Date::new(2023, 12, 31).is_some());
    assert!(Date::new(MIN_YEAR, 1, 1).is_some());
    assert!(Date::new(MAX_YEAR, 12, 31).is_some());
}

#[test]
fn dates_that_do_not_exist() {
    assert!(Date::new(2023, 2, 29).is_none());
    assert!(Date::new(1900, 2, 29).is_none());
    assert!(Date::new(2023, 4, 31).is_none());
    assert!(Date::new(2023, 0, 10).is_none());
    assert!(Date::new(2023, 13, 10).is_none());
    assert!(Date::new(2023, 5, 0).is_none());
    assert!(Date::new(2023, 5, 32).is_none());
    assert!(Date::new(MIN_YEAR - 1, 1, 1).is_none());
    assert!(Date::new(MAX_YEAR + 1, 1, 1).is_none());
}

#[test]
fn dates_exist_exactly_where_chrono_has_them() {
    for year in [MIN_YEAR - 1, MIN_YEAR, -401, -400, -100, -4, -1, 0, 1, 1900, 2000, 2023, 2024, 2100, MAX_YEAR, MAX_YEAR + 1] {
        for month in 0..14u32 {
            for day in 0..33u32 {
                let ours = Date::new(year, month, day).is_some();
                let theirs = chrono::NaiveDate::from_ymd_opt(year, month, day).is_some();
                assert_eq!(ours, theirs, "{}-{}-{}", year, month, day);
            }
        }
    }
}

#[test]
fn date_text_has_year_month_day() {
    assert_eq!(Date::new(2024, 1, 1).unwrap().text(), "2024-01-01");
    assert_eq!(Date::new(2015, 9, 5).unwrap().text(), "2015-09-05");
    assert_eq!(Date::new(0, 1, 1).unwrap().text(), "0000-01-01");
    assert_eq!(Date::new(9999, 12, 31).unwrap().text(), "9999-12-31");
    assert_eq!(Date::new(987, 6, 5).unwrap().text(), "0987-06-05");
}

#[test]
fn date_text_signs_years_out_of_four_digits() {
    assert_eq!(Date::new(-1, 1, 1).unwrap().text(), "-0001-01-01");
    assert_eq!(Date::new(-9999, 3, 4).unwrap().text(), "-9999-03-04");
    assert_eq!(Date::new(-10000, 3, 4).unwrap().text(), "-10000-03-04");
    assert_eq!(Date::new(10000, 12, 31).unwrap().text(), "+10000-12-31");
    assert_eq!(Date::new(MAX_YEAR, 12, 31).unwrap().text(), "+262142-12-31");
    assert_eq!(Date::new(MIN_YEAR, 1, 1).unwrap().text(), "-262143-01-01");
}

#[test]
fn instants_that_can_be_rendered() {
    let t = Timestamp::new(1_709_284_500, 250, 3600).unwrap();
    assert_eq!((t.secs(), t.nanos(), t.offset()), (1_709_284_500, 250, 3600));
    assert!(Timestamp::new(0, 0, 0).is_some());
    assert!(Timestamp::new(MAX_SECS, 999_999_999, 86_399).is_some());
    assert!(Timestamp::new(-MAX_SECS, 0, -86_399).is_some());
    // a leap second: the last second of a minute, one second more in nanoseconds
    assert!(Timestamp::new(59, 1_500_000_000, 0).is_some());
    assert!(Timestamp::new(-1, 1_999_999_999, 0).is_some());
}

#[test]
fn instants_that_cannot_be_rendered() {
    assert!(Timestamp::new(MAX_SECS + 1, 0, 0).is_none());
    assert!(Timestamp::new(-MAX_SECS - 1, 0, 0).is_none());
    assert!(Timestamp::new(0, 0, 86_400).is_none());
    assert!(Timestamp::new(0, 0, -86_400).is_none());
    assert!(Timestamp::new(0, 1_000_000_000, 0).is_none());
    assert!(Timestamp::new(58, 1_000_000_000, 0).is_none());
    assert!(Timestamp::new(59, 2_000_000_000, 0).is_none());
    assert!(Timestamp::new(i64::MAX, 0, 0).is_none());
    assert!(Timestamp::new(i64::MIN, 0, 0).is_none());
}

#[test]
fn rfc3339_shows_the_local_time_and_the_offset() {
    let t = Timestamp::new(1_709_284_500, 0, 3600).unwrap();
    assert_eq!(t.rfc3339(), "2024-03-01T10:15:00+01:00");
    let utc = Timestamp::new(1_709_284_500, 0, 0).unwrap();
    assert_eq!(utc.rfc3339(), "2024-03-01T09:15:00+00:00");
    let west = Timestamp::new(851_042_397, 0, -8 * 3600).unwrap();
    assert_eq!(west.rfc3339(), "1996-12-19T16:39:57-08:00");
    let fine = Timestamp::new(1_709_284_500, 123_456_789, 3600).unwrap();
    assert_eq!(fine.rfc3339(), "2024-03-01T10:15:00.123456789+01:00");
    let milli = Timestamp::new(1_709_284_500, 120_000_000, 3600).unwrap();
    assert_eq!(milli.rfc3339(), "2024-03-01T10:15:00.120+01:00");
}

#[test]
fn rfc3339_is_what_chrono_reads_back() {
    for text in ["2024-03-01T10:15:00+01:00", "1969-12-31T23:59:59.5-05:30", "2001-02-03T04:05:06.007+00:00"] {
        let parsed = chrono::DateTime::parse_from_rfc3339(text).unwrap();
        let t = Timestamp::new(
            parsed.timestamp(),
            parsed.timestamp_subsec_nanos(),
            parsed.offset().local_minus_utc(),
        )
        .unwrap();
        assert_eq!(chrono::DateTime::parse_from_rfc3339(&t.rfc3339()).unwrap(), parsed);
        assert_eq!(t.rfc3339(), parsed.to_rfc3339());
    }
}

#[test]
fn rfc3339_at_the_ends_of_the_range() {
    let late = Timestamp::new(MAX_SECS, 0, 86_399).unwrap();
    assert!(late.rfc3339().starts_with("+25"));
    let early = Timestamp::new(-MAX_SECS, 0, -86_399).unwrap();
    assert!(early.rfc3339().starts_with("-25"));
    assert!(late.local_date().year() > 250_000);
    assert!(early.local_date().year() < -250_000);
}

#[test]
fn local_date_depends_on_the_offset() {
    // one second before 2024-03-01T00:00:00Z
    let secs = 1_709_251_199;
    let utc = Timestamp::new(secs, 0, 0).unwrap().local_date();
    assert_eq!((utc.year(), utc.month(), utc.day()), (2024, 2, 29));
    let east = Timestamp::new(secs, 0, 3600).unwrap().local_date();
    assert_eq!((east.year(), east.month(), east.day()), (2024, 3, 1));
    let west = Timestamp::new(secs + 1, 0, -3600).unwrap().local_date();
    assert_eq!((west.year(), west.month(), west.day()), (2024, 2, 29));
    let epoch = Timestamp::new(0, 0, 0).unwrap().local_date();
    assert_eq!(epoch.text(), "1970-01-01");
}
