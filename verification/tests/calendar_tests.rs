use emm_server::{instant_text, session_expiry, Date, SESSION_LIFETIME_SECS};

#[test]
fn dates_exist_only_on_the_calendar() {
    assert!(Date::from_ymd(2024, 2, 29).is_some());
    assert!(Date::from_ymd(2023, 2, 29).is_none());
    assert!(Date::from_ymd(2000, 2, 29).is_some());
    assert!(Date::from_ymd(1900, 2, 29).is_none());
    assert!(Date::from_ymd(2024, 13, 1).is_none());
    assert!(Date::from_ymd(2024, 4, 31).is_none());
    assert!(Date::from_ymd(2024, 1, 0).is_none());
    assert!(Date::from_ymd(262142, 12, 31).is_some());
    assert!(Date::from_ymd(262143, 1, 1).is_none());
    assert!(Date::from_ymd(-262143, 1, 1).is_some());
    assert!(Date::from_ymd(-262144, 12, 31).is_none());
}

#[test]
fn date_text_is_iso() {
    let d = Date::from_ymd(2024, 2, 9).unwrap();
    assert_eq!(d.text(), "2024-02-09");
    assert_eq!((d.year(), d.month(), d.day()), (2024, 2, 9));
    assert_eq!(Date::from_ymd(5, 1, 2).unwrap().text(), "0005-01-02");
    assert_eq!(Date::from_ymd(-5, 1, 1).unwrap().text(), "-0005-01-01");
    assert_eq!(Date::from_ymd(12345, 6, 7).unwrap().text(), "+12345-06-07");
}

#[test]
fn date_text_parses_back() {
    let d = Date::parse("2015-09-18").unwrap();
    assert_eq!((d.year(), d.month(), d.day()), (2015, 9, 18));
    assert_eq!(Date::parse(&d.text()), Some(d));
    assert!(Date::parse("foo").is_none());
    assert!(Date::parse("2015-02-30").is_none());
    assert!(Date::parse("").is_none());
}

#[test]
fn instants_in_rfc3339() {
    assert_eq!(instant_text(0, 0).unwrap(), "1970-01-01T00:00:00+00:00");
    assert_eq!(instant_text(1431648000, 500_000_000).unwrap(), "2015-05-15T00:00:00.500+00:00");
    assert!(instant_text(i64::MAX, 0).is_none());
}

#[test]
fn sessions_last_ten_days() {
    assert_eq!(SESSION_LIFETIME_SECS, 10 * 24 * 60 * 60);
    assert_eq!(session_expiry(0, 0).unwrap(), "1970-01-11T00:00:00+00:00");
    assert_eq!(session_expiry(1431648000, 0).unwrap(), "2015-05-25T00:00:00+00:00");
    assert!(session_expiry(i64::MAX, 0).is_none());
    assert!(session_expiry(i64::MAX - SESSION_LIFETIME_SECS + 1, 0).is_none());
}
