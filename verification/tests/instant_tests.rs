use time_duration_api::calendar::{
    check_format_limits, format_names_iso_year, text_has_long_number,
};
use time_duration_api::time::{common_format, COMMON_FORMAT_COUNT};
use time_duration_api::{CustomDuration, Time, TimeError, UtcDateTime};

const PLAIN: &str = "%Y-%m-%d %H:%M:%S";

#[test]
fn epoch_seconds_come_back_as_the_timestamp() {
    for secs in [0u64, 1, 59, 1_698_393_600, i64::MAX as u64, u64::MAX] {
        assert_eq!(Time::from_epoch_seconds(secs).timestamp().unwrap(), secs);
    }
}

#[test]
fn timestamp_drops_the_nanoseconds() {
    assert_eq!(Time::from_timestamp_parts(10, 999_999_999).timestamp().unwrap(), 10);
    assert_eq!(Time::from_timestamp_parts(10, 1_000_000_000).timestamp().unwrap(), 11);
    assert_eq!(Time::from_timestamp_parts(-1, 1_000_000_000).timestamp().unwrap(), 0);
}

#[test]
fn timestamp_before_the_epoch_is_invalid() {
    assert!(matches!(Time::from_timestamp_parts(-1, 0).timestamp(), Err(TimeError::InvalidTime)));
    assert!(matches!(
        Time::from_timestamp_parts(-1, 999_999_999).timestamp(),
        Err(TimeError::InvalidTime)
    ));
    let t = Time::from_epoch_seconds(10).sub_duration(&CustomDuration::from_nanos(10_000_000_001));
    assert!(matches!(t.timestamp(), Err(TimeError::InvalidTime)));
}

#[test]
fn add_then_sub_restores_the_timestamp() {
    let t = Time::from_timestamp_parts(1_698_393_600, 250);
    let span = CustomDuration::from_nanos(86_400_999_999_999);
    let moved = t.add_duration(&span);
    assert_eq!(moved.timestamp().unwrap(), 1_698_393_600 + 86_400 + 1);
    let short = CustomDuration::from_nanos(86_400_999_999_749);
    assert_eq!(t.add_duration(&short).timestamp().unwrap(), 1_698_393_600 + 86_400);
    assert_eq!(moved.sub_duration(&span).timestamp().unwrap(), t.timestamp().unwrap());
    let far = CustomDuration::from_secs(u64::MAX);
    assert_eq!(t.add_duration(&far).sub_duration(&far).timestamp().unwrap(), 1_698_393_600);
}

#[test]
fn sub_then_add_crosses_the_epoch_and_back() {
    let t = Time::from_epoch_seconds(10);
    let hour = CustomDuration::from_secs(3600);
    let mut before = t.sub_duration(&hour);
    assert!(matches!(before.timestamp(), Err(TimeError::InvalidTime)));
    assert!(matches!(before.format(PLAIN), Err(TimeError::InvalidTime)));
    assert!(matches!(before.format_with_timezone(PLAIN, "+05:30"), Err(TimeError::InvalidTime)));
    assert!(matches!(before.to_timezone("+05:30"), Err(TimeError::InvalidTime)));
    assert!(matches!(before.display(), Err(TimeError::InvalidTime)));
    assert!(matches!(before.get_utc_datetime(), Err(TimeError::InvalidTime)));
    assert_eq!(before.add_duration(&hour).timestamp().unwrap(), 10);
}

#[test]
fn invalid_time_comes_before_invalid_timezone() {
    let mut before = Time::from_timestamp_parts(-5, 0);
    assert!(matches!(
        before.format_with_timezone(PLAIN, "not-a-tz"),
        Err(TimeError::InvalidTime)
    ));
    assert!(matches!(before.to_timezone("not-a-tz"), Err(TimeError::InvalidTime)));
}

#[test]
fn format_renders_in_utc() {
    let mut t = Time::from_epoch_seconds(1_698_393_600);
    assert_eq!(t.format(PLAIN).unwrap(), "2023-10-27 08:00:00");
    assert_eq!(t.format("%d/%m/%Y %H:%M").unwrap(), "27/10/2023 08:00");
    assert_eq!(t.format("%Y-%m-%dT%H:%M:%S%z").unwrap(), "2023-10-27T08:00:00+0000");
    assert_eq!(t.format("%Z").unwrap(), "UTC");
    assert_eq!(Time::from_epoch_seconds(0).format(PLAIN).unwrap(), "1970-01-01 00:00:00");
}

#[test]
fn format_renders_the_nanoseconds() {
    let mut t = Time::from_timestamp_parts(1_698_393_600, 123_456_789);
    assert_eq!(t.format("%H:%M:%S%.9f").unwrap(), "08:00:00.123456789");
    assert_eq!(t.format("%S.%f").unwrap(), "00.123456789");
}

#[test]
fn format_rejects_a_bad_format() {
    let mut t = Time::from_epoch_seconds(1_698_393_600);
    match t.format("%Y-%Q") {
        Err(TimeError::InvalidTimeFormat(msg)) => {
            assert_eq!(msg, "Failed to render with format '%Y-%Q'")
        }
        other => panic!("unexpected: {:?}", other),
    }
    assert!(matches!(
        t.format_with_timezone("%", "+05:30"),
        Err(TimeError::InvalidTimeFormat(_))
    ));
}

#[test]
fn format_beyond_the_calendar_is_invalid() {
    assert!(matches!(Time::from_epoch_seconds(u64::MAX).format(PLAIN), Err(TimeError::InvalidTime)));
    assert!(matches!(
        Time::from_epoch_seconds(i64::MAX as u64).format(PLAIN),
        Err(TimeError::InvalidTime)
    ));
    assert_eq!(
        Time::from_epoch_seconds(8_210_266_876_799).format(PLAIN).unwrap(),
        "+262142-12-31 23:59:59"
    );
    assert!(matches!(
        Time::from_epoch_seconds(8_210_266_876_800).format(PLAIN),
        Err(TimeError::InvalidTime)
    ));
}

#[test]
fn offset_rendering_is_ahead_of_utc() {
    let mut t = Time::from_epoch_seconds(1_698_393_600);
    assert_eq!(t.format(PLAIN).unwrap(), "2023-10-27 08:00:00");
    assert_eq!(t.format_with_timezone(PLAIN, "+05:30").unwrap(), "2023-10-27 13:30:00");
    assert_eq!(t.format_with_timezone(PLAIN, "-08:00").unwrap(), "2023-10-27 00:00:00");
    assert_eq!(t.format_with_timezone(PLAIN, "+00:00").unwrap(), "2023-10-27 08:00:00");
    assert_eq!(
        t.format_with_timezone("%Y-%m-%d %H:%M:%S %:z", "+05:30").unwrap(),
        "2023-10-27 13:30:00 +05:30"
    );
    assert_eq!(t.format_with_timezone(PLAIN, "+16:00").unwrap(), "2023-10-28 00:00:00");
}

#[test]
fn to_timezone_renders_with_the_offset() {
    let mut t = Time::from_epoch_seconds(1_698_393_600);
    assert_eq!(t.to_timezone("+05:30").unwrap(), "2023-10-27 13:30:00 +05:30");
    assert_eq!(t.to_timezone("-03:00").unwrap(), "2023-10-27 05:00:00 -03:00");
    let mut fine = Time::from_timestamp_parts(1_698_393_600, 500_000_000);
    assert_eq!(fine.to_timezone("+00:00").unwrap(), "2023-10-27 08:00:00.500 +00:00");
}

#[test]
fn invalid_timezone_is_reported() {
    let mut t = Time::from_epoch_seconds(1_698_393_600);
    match t.format_with_timezone(PLAIN, "not-a-tz") {
        Err(TimeError::InvalidTimezoneFormat(msg)) => assert_eq!(msg, "not-a-tz"),
        other => panic!("unexpected: {:?}", other),
    }
    match t.to_timezone("not-a-tz") {
        Err(TimeError::InvalidTimezoneFormat(msg)) => assert_eq!(msg, "not-a-tz"),
        other => panic!("unexpected: {:?}", other),
    }
    assert!(matches!(t.to_timezone(""), Err(TimeError::InvalidTimezoneFormat(_))));
    assert!(matches!(t.to_timezone("Europe/Paris"), Err(TimeError::InvalidTimezoneFormat(_))));
    assert!(matches!(t.to_timezone("+25:00"), Err(TimeError::InvalidTimezoneFormat(_))));
}

#[test]
fn calendar_reading_has_the_fields() {
    let mut t = Time::from_timestamp_parts(1_698_393_600 + 3_723, 42);
    let expected = UtcDateTime {
        year: 2023,
        month: 10,
        day: 27,
        hour: 9,
        minute: 2,
        second: 3,
        nanosecond: 42,
    };
    assert_eq!(t.get_utc_datetime().unwrap(), expected);
    assert_eq!(t.get_utc_datetime().unwrap(), expected);
    assert_eq!(t.timestamp().unwrap(), 1_698_393_600 + 3_723);
}

#[test]
fn moved_instant_is_read_anew() {
    let mut t = Time::from_epoch_seconds(1_698_393_600);
    assert_eq!(t.format(PLAIN).unwrap(), "2023-10-27 08:00:00");
    let mut later = t.add_duration(&CustomDuration::from_secs(3600));
    assert_eq!(later.format(PLAIN).unwrap(), "2023-10-27 09:00:00");
    let mut earlier = t.sub_duration(&CustomDuration::from_secs(3600));
    assert_eq!(earlier.format(PLAIN).unwrap(), "2023-10-27 07:00:00");
    assert_eq!(t.format(PLAIN).unwrap(), "2023-10-27 08:00:00");
    let mut copy = t.clone();
    assert_eq!(copy.format(PLAIN).unwrap(), "2023-10-27 08:00:00");
}

#[test]
fn display_is_the_plain_form() {
    assert_eq!(Time::from_epoch_seconds(1_698_393_600).display().unwrap(), "2023-10-27 08:00:00");
    assert_eq!(
        Time::from_timestamp_parts(1_698_393_600, 999_999_999).display().unwrap(),
        "2023-10-27 08:00:00"
    );
}

#[test]
fn parse_with_a_format_reads_the_offset() {
    let t = Time::from_str("2023-10-27 12:00:00+05:30", "%Y-%m-%d %H:%M:%S%z").unwrap();
    assert_eq!(t.timestamp().unwrap(), 1_698_388_200);
    let u = Time::from_str("2023-10-27 06:30:00 +0000", "%Y-%m-%d %H:%M:%S %z").unwrap();
    assert_eq!(u.timestamp().unwrap(), 1_698_388_200);
    let mut n = Time::from_str("2023-10-27 06:30:00.25 +0000", "%Y-%m-%d %H:%M:%S%.f %z").unwrap();
    assert_eq!(n.get_utc_datetime().unwrap().nanosecond, 250_000_000);
}

#[test]
fn parse_with_a_format_reports_the_mismatch() {
    match Time::from_str("2023-10-27 12:00:00", PLAIN) {
        Err(TimeError::InvalidTimeFormat(msg)) => assert_eq!(
            msg,
            "Failed to parse '2023-10-27 12:00:00' with format '%Y-%m-%d %H:%M:%S': \
             input is not enough for unique date and time"
        ),
        other => panic!("unexpected: {:?}", other),
    }
    match Time::from_str("yesterday", "%Y-%m-%d %H:%M:%S%z") {
        Err(TimeError::InvalidTimeFormat(msg)) => assert_eq!(
            msg,
            "Failed to parse 'yesterday' with format '%Y-%m-%d %H:%M:%S%z': \
             input contains invalid characters"
        ),
        other => panic!("unexpected: {:?}", other),
    }
    assert!(matches!(
        Time::from_str("2023-10-27 12:00:00+05:30", "%Q"),
        Err(TimeError::InvalidTimeFormat(_))
    ));
}

#[test]
fn parse_takes_a_leap_second_into_the_next_second() {
    let t = Time::from_str("2016-12-31 23:59:60+0000", "%Y-%m-%d %H:%M:%S%z").unwrap();
    assert_eq!(t.timestamp().unwrap(), 1_483_228_800);
}

#[test]
fn parse_before_the_epoch_gives_an_instant_without_timestamp() {
    let t = Time::from_str("1969-12-31 23:59:59+0000", "%Y-%m-%d %H:%M:%S%z").unwrap();
    assert!(matches!(t.timestamp(), Err(TimeError::InvalidTime)));
    assert_eq!(t.add_duration(&CustomDuration::from_secs(1)).timestamp().unwrap(), 0);
}

#[test]
fn round_trip_through_a_format_keeps_the_second() {
    let format = "%Y-%m-%d %H:%M:%S%z";
    let mut now = Time::now();
    let text = now.format(format).unwrap();
    let back = Time::from_str(&text, format).unwrap();
    assert_eq!(back.timestamp().unwrap(), now.timestamp().unwrap());
    let mut fixed = Time::from_timestamp_parts(1_698_393_600, 987_654_321);
    let text = fixed.format(format).unwrap();
    assert_eq!(text, "2023-10-27 08:00:00+0000");
    assert_eq!(Time::from_str(&text, format).unwrap().timestamp().unwrap(), 1_698_393_600);
}

#[test]
fn now_is_after_the_year_2020() {
    let now = Time::now();
    assert!(now.timestamp().unwrap() > 1_577_836_800);
    let later = Time::now();
    assert!(later.timestamp().unwrap() >= now.timestamp().unwrap());
}

#[test]
fn clock_reading_is_taken_from_either_side_of_the_epoch() {
    assert_eq!(Time::from_clock_reading(Ok((5, 7))).timestamp().unwrap(), 5);
    assert_eq!(
        Time::from_clock_reading(Ok((u64::MAX, 999_999_999))).timestamp().unwrap(),
        u64::MAX
    );
    let before = Time::from_clock_reading(Err((5, 7)));
    assert!(matches!(before.timestamp(), Err(TimeError::InvalidTime)));
    let back = before.add_duration(&CustomDuration::from_nanos(5_000_000_007));
    assert_eq!(back.timestamp().unwrap(), 0);
    assert_eq!(back.display().unwrap(), "1970-01-01 00:00:00");
    assert_eq!(Time::from_clock_reading(Err((0, 0))).timestamp().unwrap(), 0);
}

#[test]
fn common_formats_are_listed_in_order() {
    assert_eq!(COMMON_FORMAT_COUNT, 4);
    assert_eq!(common_format(0), "%Y-%m-%d %H:%M:%S%z");
    assert_eq!(common_format(1), "%Y-%m-%dT%H:%M:%S%z");
    assert_eq!(common_format(2), "%Y-%m-%d %H:%M:%S.%f%z");
    assert_eq!(common_format(3), "%Y-%m-%dT%H:%M:%S.%f%z");
}

#[test]
fn common_formats_read_the_usual_forms() {
    let a: Time = "2023-10-27 12:00:00+05:30".parse().unwrap();
    assert_eq!(a.timestamp().unwrap(), 1_698_388_200);
    let b: Time = "2023-10-27T12:00:00+05:30".parse().unwrap();
    assert_eq!(b.timestamp().unwrap(), 1_698_388_200);
    let mut c: Time = "2023-10-27 12:00:00.000000250+05:30".parse().unwrap();
    assert_eq!(c.timestamp().unwrap(), 1_698_388_200);
    assert_eq!(c.get_utc_datetime().unwrap().nanosecond, 250);
    let d: Time = "2023-10-27T12:00:00.000000250+0530".parse().unwrap();
    assert_eq!(d.timestamp().unwrap(), 1_698_388_200);
    let e = Time::from_common_formats("2023-10-27T06:30:00Z").unwrap();
    assert_eq!(e.timestamp().unwrap(), 1_698_388_200);
    let mut f = Time::from_common_formats("2023-10-27T06:30:00.5Z").unwrap();
    assert_eq!(f.get_utc_datetime().unwrap().nanosecond, 500_000_000);
}

#[test]
fn common_formats_report_what_they_cannot_read() {
    match "garbage".parse::<Time>() {
        Err(TimeError::ParseError(msg)) => assert_eq!(msg, "Invalid time string: garbage"),
        other => panic!("unexpected: {:?}", other),
    }
    match Time::from_common_formats("2023-10-27 12:00:00") {
        Err(TimeError::ParseError(msg)) => {
            assert_eq!(msg, "Invalid time string: 2023-10-27 12:00:00")
        }
        other => panic!("unexpected: {:?}", other),
    }
    assert!(Time::read_common("").is_none());
    assert_eq!(Time::read_common("2023-10-27 12:00:00+05:30"), Some((1_698_388_200, 0)));
}

#[test]
fn outcomes_become_results() {
    let t = Time::from_parse_outcome("a", "b", Ok((-2, 1_500_000_000))).unwrap();
    assert_eq!(t.add_duration(&CustomDuration::from_millis(500)).timestamp().unwrap(), 0);
    match Time::from_parse_outcome("a b", "%c", Err(String::from("why"))) {
        Err(TimeError::InvalidTimeFormat(msg)) => {
            assert_eq!(msg, "Failed to parse 'a b' with format '%c': why")
        }
        other => panic!("unexpected: {:?}", other),
    }
    assert_eq!(Time::from_common_outcome("x", Some((7, 0))).unwrap().timestamp().unwrap(), 7);
    match Time::from_common_outcome("x y", None) {
        Err(TimeError::ParseError(msg)) => assert_eq!(msg, "Invalid time string: x y"),
        other => panic!("unexpected: {:?}", other),
    }
    assert_eq!(Time::rendered(Some(String::from("text")), "%Y").unwrap(), "text");
    match Time::rendered(None, "%Y") {
        Err(TimeError::InvalidTimeFormat(msg)) => {
            assert_eq!(msg, "Failed to render with format '%Y'")
        }
        other => panic!("unexpected: {:?}", other),
    }
    assert_eq!(Time::displayed(Some(String::from("text"))).unwrap(), "text");
    assert!(matches!(Time::displayed(None), Err(TimeError::InvalidTime)));
    assert_eq!(Time::offset_from(Some(19_800), "+05:30").unwrap(), 19_800);
    match Time::offset_from(None, "not-a-tz") {
        Err(TimeError::InvalidTimezoneFormat(msg)) => assert_eq!(msg, "not-a-tz"),
        other => panic!("unexpected: {:?}", other),
    }
}

#[test]
fn iso_week_year_is_read() {
    let format = "%G-%V-%u %H:%M:%S%z";
    let t = Time::from_str("2023-43-5 08:00:00+0000", format).unwrap();
    assert_eq!(t.timestamp().unwrap(), 1_698_393_600);
    let signed = Time::from_str("+2023-43-5 08:00:00+0000", format).unwrap();
    assert_eq!(signed.timestamp().unwrap(), 1_698_393_600);
}

#[test]
fn iso_week_year_of_too_many_digits_is_refused() {
    let format = "%G-%V-%u %H:%M:%S%z";
    match Time::from_str("-2147483648-01-1 00:00:00+0000", format) {
        Err(TimeError::InvalidTimeFormat(msg)) => assert_eq!(
            msg,
            "Failed to parse '-2147483648-01-1 00:00:00+0000' with format \
             '%G-%V-%u %H:%M:%S%z': too many digits"
        ),
        other => panic!("unexpected: {:?}", other),
    }
    match Time::from_str("+2147483647-52-7 00:00:00+0000", "%-G-%V-%u %H:%M:%S%z") {
        Err(TimeError::InvalidTimeFormat(msg)) => assert!(msg.ends_with(": too many digits")),
        other => panic!("unexpected: {:?}", other),
    }
}

#[test]
fn iso_week_year_of_nine_digits_is_left_to_the_calendar() {
    let format = "%G-%V-%u %H:%M:%S%z";
    match Time::from_str("-999999999-01-1 00:00:00+0000", format) {
        Err(TimeError::InvalidTimeFormat(msg)) => {
            assert!(msg.ends_with(": input is out of range"), "{}", msg)
        }
        other => panic!("unexpected: {:?}", other),
    }
    match Time::from_str("+999999999-52-7 00:00:00+0000", format) {
        Err(TimeError::InvalidTimeFormat(msg)) => {
            assert!(msg.ends_with(": input is out of range"), "{}", msg)
        }
        other => panic!("unexpected: {:?}", other),
    }
}

#[test]
fn long_numbers_are_read_where_no_iso_week_year_is_named() {
    let t = Time::from_str("1698393600 +0000", "%s %z").unwrap();
    assert_eq!(t.timestamp().unwrap(), 1_698_393_600);
    let u = Time::from_str("GMT 1698393600 +0000", "GMT %s %z").unwrap();
    assert_eq!(u.timestamp().unwrap(), 1_698_393_600);
}

#[test]
fn format_limits_find_the_iso_week_year() {
    assert!(format_names_iso_year("%G"));
    assert!(format_names_iso_year("%-G"));
    assert!(format_names_iso_year("%0G"));
    assert!(format_names_iso_year("%_G"));
    assert!(format_names_iso_year("x%Gx"));
    assert!(format_names_iso_year("\u{e9}%G"));
    assert!(format_names_iso_year("%%G"));
    assert!(!format_names_iso_year(""));
    assert!(!format_names_iso_year("G"));
    assert!(!format_names_iso_year("%"));
    assert!(!format_names_iso_year("%g"));
    assert!(!format_names_iso_year("%YG"));
    assert!(!format_names_iso_year("%--G"));
    assert!(!format_names_iso_year("%#G"));
    assert!(!format_names_iso_year("-G"));
    assert!(!format_names_iso_year("%Y-%m-%d %H:%M:%S%z"));
}

#[test]
fn format_limits_count_digits_in_a_row() {
    assert!(!text_has_long_number(""));
    assert!(!text_has_long_number("123456789"));
    assert!(text_has_long_number("1234567890"));
    assert!(text_has_long_number("a1234567890b"));
    assert!(!text_has_long_number("12345 67890"));
    assert!(!text_has_long_number("123456789-123456789"));
    assert!(check_format_limits("1234567890", "%Y"));
    assert!(check_format_limits("123456789", "%G"));
    assert!(!check_format_limits("1234567890", "%G"));
    assert!(!check_format_limits("x 0001234567890", "%s %_G"));
}

#[test]
fn offset_rendering_is_the_utc_rendering_of_the_moved_instant() {
    let zones = [("+05:30", 19_800i64), ("-08:00", -28_800), ("+00:00", 0), ("+14:00", 50_400)];
    for secs in [86_400u64, 951_782_400, 1_698_393_600, 4_102_444_799] {
        for (zone, offset) in zones {
            let mut t = Time::from_epoch_seconds(secs);
            let span = CustomDuration::from_secs(offset.unsigned_abs());
            let mut moved = if offset < 0 { t.sub_duration(&span) } else { t.add_duration(&span) };
            assert_eq!(
                t.format_with_timezone(PLAIN, zone).unwrap(),
                moved.format(PLAIN).unwrap()
            );
        }
    }
}

#[test]
fn what_format_writes_is_read_back() {
    let format = "%Y-%m-%d %H:%M:%S%z";
    for secs in [0u64, 1, 59, 951_782_400, 1_698_393_600, 4_102_444_800, 253_402_300_799] {
        let mut t = Time::from_epoch_seconds(secs);
        let text = t.format(format).unwrap();
        let back = Time::from_str(&text, format).unwrap();
        assert_eq!(back.timestamp().unwrap(), secs);
    }
}
