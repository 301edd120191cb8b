use etw_eventheader_log::time::CivilTime;
use etw_eventheader_log::time::Timestamp;
use etw_eventheader_log::time::Win32SystemTime;

#[test]
fn the_epoch_has_its_calendar_fields() {
    let civil = Timestamp { secs: 0, nanos: 0 }.civil();
    assert_eq!(
        civil,
        Some(CivilTime { year: 1970, month: 1, day: 1, hour: 0, minute: 0, second: 0, nanosecond: 0 })
    );
}

#[test]
fn a_later_time_has_its_calendar_fields() {
    let civil = Timestamp { secs: 1_700_000_000, nanos: 123_456_789 }.civil();
    assert_eq!(
        civil,
        Some(CivilTime {
            year: 2023,
            month: 11,
            day: 14,
            hour: 22,
            minute: 13,
            second: 20,
            nanosecond: 123_456_789,
        })
    );
}

#[test]
fn a_time_before_the_epoch_has_its_calendar_fields() {
    let civil = Timestamp { secs: -1, nanos: 500_000_000 }.civil();
    assert_eq!(
        civil,
        Some(CivilTime {
            year: 1969,
            month: 12,
            day: 31,
            hour: 23,
            minute: 59,
            second: 59,
            nanosecond: 500_000_000,
        })
    );
}

#[test]
fn a_time_out_of_range_has_no_calendar_fields() {
    assert_eq!(Timestamp { secs: i64::MAX, nanos: 0 }.civil(), None);
    assert_eq!(Timestamp { secs: 0, nanos: 2_000_000_000 }.civil(), None);
    assert_eq!(Timestamp { secs: i64::MAX, nanos: 0 }.rfc3339(), None);
    assert!(Win32SystemTime::from_timestamp(&Timestamp { secs: i64::MIN, nanos: 0 }).is_none());
}

#[test]
fn rfc3339_text_of_the_epoch() {
    assert_eq!(
        Timestamp { secs: 0, nanos: 0 }.rfc3339(),
        Some("1970-01-01T00:00:00+00:00".to_string())
    );
}

#[test]
fn rfc3339_text_with_a_fraction() {
    assert_eq!(
        Timestamp { secs: 1_700_000_000, nanos: 250_000_000 }.rfc3339(),
        Some("2023-11-14T22:13:20.250+00:00".to_string())
    );
}

#[test]
fn system_time_words_of_a_calendar_time() {
    let civil = CivilTime {
        year: 2023,
        month: 11,
        day: 14,
        hour: 22,
        minute: 13,
        second: 20,
        nanosecond: 123_456_789,
    };
    assert_eq!(Win32SystemTime::from_civil(&civil).st, [2023, 11, 0, 14, 22, 13, 20, 123]);
}

#[test]
fn system_time_words_of_a_timestamp() {
    let time = Win32SystemTime::from_timestamp(&Timestamp { secs: 86_400 + 3_661, nanos: 999_999_999 });
    assert_eq!(time.map(|t| t.st), Some([1970, 1, 0, 2, 1, 1, 1, 999]));
}

#[test]
fn system_time_cuts_a_large_year_to_16_bits() {
    let civil = CivilTime { year: 65_536 + 7, month: 1, day: 2, hour: 3, minute: 4, second: 5, nanosecond: 0 };
    assert_eq!(Win32SystemTime::from_civil(&civil).st, [7, 1, 0, 2, 3, 4, 5, 0]);
}

#[test]
fn a_timestamp_from_a_time_after_the_epoch() {
    assert_eq!(Timestamp::from_epoch_offset(false, 0, 0), Some(Timestamp { secs: 0, nanos: 0 }));
    assert_eq!(
        Timestamp::from_epoch_offset(false, 1_700_000_000, 5),
        Some(Timestamp { secs: 1_700_000_000, nanos: 5 })
    );
    assert_eq!(
        Timestamp::from_epoch_offset(false, i64::MAX as u64, 999_999_999),
        Some(Timestamp { secs: i64::MAX, nanos: 999_999_999 })
    );
    assert_eq!(Timestamp::from_epoch_offset(false, i64::MAX as u64 + 1, 0), None);
    assert_eq!(Timestamp::from_epoch_offset(false, u64::MAX, 0), None);
    assert_eq!(Timestamp::from_epoch_offset(false, 0, 1_000_000_000), None);
}

#[test]
fn a_timestamp_from_a_time_before_the_epoch_rounds_down() {
    assert_eq!(Timestamp::from_epoch_offset(true, 0, 0), Some(Timestamp { secs: 0, nanos: 0 }));
    assert_eq!(Timestamp::from_epoch_offset(true, 5, 0), Some(Timestamp { secs: -5, nanos: 0 }));
    assert_eq!(
        Timestamp::from_epoch_offset(true, 0, 1),
        Some(Timestamp { secs: -1, nanos: 999_999_999 })
    );
    assert_eq!(
        Timestamp::from_epoch_offset(true, 5, 250_000_000),
        Some(Timestamp { secs: -6, nanos: 750_000_000 })
    );
    assert_eq!(
        Timestamp::from_epoch_offset(true, i64::MAX as u64 + 1, 0),
        Some(Timestamp { secs: i64::MIN, nanos: 0 })
    );
    assert_eq!(Timestamp::from_epoch_offset(true, i64::MAX as u64 + 1, 1), None);
    assert_eq!(
        Timestamp::from_epoch_offset(true, i64::MAX as u64, 1),
        Some(Timestamp { secs: i64::MIN, nanos: 999_999_999 })
    );
    assert_eq!(Timestamp::from_epoch_offset(true, u64::MAX, 0), None);
    assert_eq!(Timestamp::from_epoch_offset(true, 1, 1_000_000_000), None);
}

#[test]
fn the_calendar_keeps_the_nanoseconds() {
    let civil = Timestamp { secs: 1_700_000_000, nanos: 999_999_999 }.civil().expect("in range");
    assert_eq!(civil.nanosecond, 999_999_999);
    let time = Win32SystemTime::from_timestamp(&Timestamp { secs: 1_700_000_000, nanos: 999_999_999 });
    assert_eq!(time.map(|t| t.st[7]), Some(999));
    let leap = Timestamp { secs: 59, nanos: 1_500_000_000 }.civil().expect("a leap second");
    assert_eq!(leap.nanosecond, 1_500_000_000);
}
