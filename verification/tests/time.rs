use dandidav::dav::time::decimal_string;
use dandidav::dav::Timestamp;

#[test]
fn timestamps_are_checked() {
    assert!(Timestamp::new(2024, 2, 29, 0, 0, 0).is_some());
    assert!(Timestamp::new(2023, 2, 29, 0, 0, 0).is_none());
    assert!(Timestamp::new(1900, 2, 29, 0, 0, 0).is_none());
    assert!(Timestamp::new(2000, 2, 29, 0, 0, 0).is_some());
    assert!(Timestamp::new(2024, 4, 31, 0, 0, 0).is_none());
    assert!(Timestamp::new(2024, 4, 30, 23, 59, 60).is_some());
    assert!(Timestamp::new(2024, 0, 1, 0, 0, 0).is_none());
    assert!(Timestamp::new(2024, 13, 1, 0, 0, 0).is_none());
    assert!(Timestamp::new(2024, 1, 0, 0, 0, 0).is_none());
    assert!(Timestamp::new(2024, 1, 32, 0, 0, 0).is_none());
    assert!(Timestamp::new(2024, 1, 1, 24, 0, 0).is_none());
    assert!(Timestamp::new(2024, 1, 1, 0, 60, 0).is_none());
    assert!(Timestamp::new(2024, 1, 1, 0, 0, 61).is_none());
    assert!(Timestamp::new(10000, 1, 1, 0, 0, 0).is_none());
    assert!(Timestamp::new(0, 1, 1, 0, 0, 0).is_some());
    assert!(Timestamp::new(9999, 12, 31, 23, 59, 59).is_some());
}

#[test]
fn rfc3339_text() {
    let t = Timestamp::new(1997, 12, 1, 17, 42, 21).unwrap();
    assert_eq!(t.to_rfc3339(), "1997-12-01T17:42:21Z");
    assert_eq!(Timestamp::new(7, 1, 2, 3, 4, 5).unwrap().to_rfc3339(), "0007-01-02T03:04:05Z");
    assert_eq!(
        Timestamp::new(9999, 12, 31, 23, 59, 59).unwrap().to_rfc3339(),
        "9999-12-31T23:59:59Z"
    );
}

#[test]
fn http_date_text() {
    let cases = [
        ((1994, 11, 6, 8, 49, 37), "Sun, 06 Nov 1994 08:49:37 GMT"),
        ((1998, 1, 12, 9, 25, 56), "Mon, 12 Jan 1998 09:25:56 GMT"),
        ((1970, 1, 1, 0, 0, 0), "Thu, 01 Jan 1970 00:00:00 GMT"),
        ((2000, 2, 29, 12, 0, 0), "Tue, 29 Feb 2000 12:00:00 GMT"),
        ((2024, 2, 29, 23, 59, 59), "Thu, 29 Feb 2024 23:59:59 GMT"),
        ((2024, 3, 1, 0, 0, 0), "Fri, 01 Mar 2024 00:00:00 GMT"),
        ((2026, 10, 28, 1, 2, 3), "Wed, 28 Oct 2026 01:02:03 GMT"),
        ((2023, 12, 30, 1, 2, 3), "Sat, 30 Dec 2023 01:02:03 GMT"),
        ((2021, 4, 5, 6, 7, 8), "Mon, 05 Apr 2021 06:07:08 GMT"),
        ((2021, 5, 4, 6, 7, 8), "Tue, 04 May 2021 06:07:08 GMT"),
        ((2021, 6, 3, 6, 7, 8), "Thu, 03 Jun 2021 06:07:08 GMT"),
        ((2021, 7, 2, 6, 7, 8), "Fri, 02 Jul 2021 06:07:08 GMT"),
        ((2021, 8, 1, 6, 7, 8), "Sun, 01 Aug 2021 06:07:08 GMT"),
        ((2021, 9, 8, 6, 7, 8), "Wed, 08 Sep 2021 06:07:08 GMT"),
    ];
    for ((y, mo, d, h, mi, s), text) in cases {
        assert_eq!(Timestamp::new(y, mo, d, h, mi, s).unwrap().to_http_date(), text);
    }
}

#[test]
fn weekday_counts_from_saturday() {
    assert_eq!(Timestamp::new(2024, 1, 6, 0, 0, 0).unwrap().weekday(), 0);
    assert_eq!(Timestamp::new(2024, 1, 7, 0, 0, 0).unwrap().weekday(), 1);
    assert_eq!(Timestamp::new(2024, 1, 12, 0, 0, 0).unwrap().weekday(), 6);
}

#[test]
fn decimal_text() {
    assert_eq!(decimal_string(0), "0");
    assert_eq!(decimal_string(7), "7");
    assert_eq!(decimal_string(10), "10");
    assert_eq!(decimal_string(1050), "1050");
    assert_eq!(decimal_string(-1), "-1");
    assert_eq!(decimal_string(-120), "-120");
    assert_eq!(decimal_string(i64::MAX), "9223372036854775807");
    assert_eq!(decimal_string(i64::MIN), "-9223372036854775808");
}
