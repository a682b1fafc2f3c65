use odbc2parquet::date::{date_to_days, leap_year, Date};
use odbc2parquet::error::ExportError;
use odbc2parquet::time::{parse_time_text, time_text_to_micros, time_to_micros, Time};
use odbc2parquet::timestamp::{timestamp_to_epoch, Timestamp};
use odbc2parquet::timestamp_precision::TimeUnit;
use odbc2parquet::timestamp_tz::{
    parse_timestamp_offset_text, timestamp_tz_text_to_utc, timestamp_tz_to_utc, TimestampOffset,
};

fn date(year: i16, month: u16, day: u16) -> Date {
    Date { year, month, day }
}

fn time(hour: u16, minute: u16, second: u16, fraction: u32) -> Time {
    Time { hour, minute, second, fraction }
}

fn stamp(d: Date, t: Time) -> Timestamp {
    Timestamp { date: d, time: t }
}

#[test]
fn epoch_is_day_zero() {
    assert_eq!(date_to_days(date(1970, 1, 1)), Ok(0));
    assert_eq!(date_to_days(date(1970, 1, 2)), Ok(1));
    assert_eq!(date_to_days(date(1969, 12, 31)), Ok(-1));
}

#[test]
fn known_days_since_epoch() {
    assert_eq!(date_to_days(date(2000, 1, 1)), Ok(10957));
    assert_eq!(date_to_days(date(2000, 3, 1)), Ok(11017));
    assert_eq!(date_to_days(date(2024, 2, 29)), Ok(19782));
    assert_eq!(date_to_days(date(1900, 3, 1)), Ok(-25508));
    assert_eq!(date_to_days(date(1, 1, 1)), Ok(-719162));
    assert_eq!(date_to_days(date(9999, 12, 31)), Ok(2932896));
    assert_eq!(date_to_days(date(1582, 10, 15)), Ok(-141427));
}

#[test]
fn proleptic_years_before_one() {
    // Year zero is a leap year of 366 days.
    assert_eq!(date_to_days(date(0, 1, 1)), Ok(-719162 - 366));
    assert_eq!(date_to_days(date(0, 2, 29)), Ok(-719162 - 366 + 59));
    assert_eq!(date_to_days(date(-1, 12, 31)), Ok(-719162 - 366 - 1));
    assert_eq!(date_to_days(date(-400, 2, 29)), Ok(-719162 - 366 - 146097 + 59));
}

#[test]
fn dates_that_do_not_exist_are_out_of_range() {
    assert_eq!(date_to_days(date(2023, 2, 29)), Err(ExportError::ValueOutOfRange));
    assert_eq!(date_to_days(date(1900, 2, 29)), Err(ExportError::ValueOutOfRange));
    assert_eq!(date_to_days(date(2000, 2, 30)), Err(ExportError::ValueOutOfRange));
    assert_eq!(date_to_days(date(2000, 4, 31)), Err(ExportError::ValueOutOfRange));
    assert_eq!(date_to_days(date(2000, 0, 1)), Err(ExportError::ValueOutOfRange));
    assert_eq!(date_to_days(date(2000, 13, 1)), Err(ExportError::ValueOutOfRange));
    assert_eq!(date_to_days(date(2000, 1, 0)), Err(ExportError::ValueOutOfRange));
    assert_eq!(date_to_days(date(2000, 1, 32)), Err(ExportError::ValueOutOfRange));
}

#[test]
fn leap_years_follow_the_gregorian_rule() {
    assert!(leap_year(2000));
    assert!(leap_year(2024));
    assert!(!leap_year(1900));
    assert!(!leap_year(2023));
    assert!(leap_year(0));
    assert!(leap_year(-4));
    assert!(!leap_year(-100));
    assert!(leap_year(-400));
}

#[test]
fn consecutive_days_differ_by_one_over_a_leap_year() {
    let lengths = [31u16, 29, 31, 30, 31, 30, 31, 31, 30, 31, 30, 31];
    let mut expected = date_to_days(date(2024, 1, 1)).unwrap();
    for (m, len) in lengths.iter().enumerate() {
        for d in 1..=*len {
            assert_eq!(date_to_days(date(2024, m as u16 + 1, d)), Ok(expected));
            expected += 1;
        }
    }
    assert_eq!(date_to_days(date(2025, 1, 1)), Ok(expected));
}

#[test]
fn time_becomes_microseconds_since_midnight() {
    assert_eq!(time_to_micros(time(0, 0, 0, 0)), Ok(0));
    assert_eq!(time_to_micros(time(0, 0, 1, 0)), Ok(1_000_000));
    assert_eq!(time_to_micros(time(12, 34, 56, 789_000_000)), Ok(45_296_789_000));
    assert_eq!(time_to_micros(time(23, 59, 59, 999_999_999)), Ok(86_399_999_999));
}

#[test]
fn time_cuts_off_below_a_microsecond() {
    assert_eq!(time_to_micros(time(0, 0, 0, 999)), Ok(0));
    assert_eq!(time_to_micros(time(0, 0, 0, 1_000)), Ok(1));
    assert_eq!(time_to_micros(time(0, 0, 0, 1_999)), Ok(1));
    assert_eq!(time_to_micros(time(1, 0, 0, 123_456_789)), Ok(3_600_123_456));
}

#[test]
fn times_that_do_not_exist_are_out_of_range() {
    assert_eq!(time_to_micros(time(24, 0, 0, 0)), Err(ExportError::ValueOutOfRange));
    assert_eq!(time_to_micros(time(0, 60, 0, 0)), Err(ExportError::ValueOutOfRange));
    assert_eq!(time_to_micros(time(0, 0, 60, 0)), Err(ExportError::ValueOutOfRange));
    assert_eq!(time_to_micros(time(0, 0, 0, 1_000_000_000)), Err(ExportError::ValueOutOfRange));
}

#[test]
fn units_follow_the_fractional_digits() {
    assert_eq!(TimeUnit::from_fractional_digits(0), TimeUnit::Millis);
    assert_eq!(TimeUnit::from_fractional_digits(3), TimeUnit::Millis);
    assert_eq!(TimeUnit::from_fractional_digits(4), TimeUnit::Micros);
    assert_eq!(TimeUnit::from_fractional_digits(6), TimeUnit::Micros);
    assert_eq!(TimeUnit::from_fractional_digits(7), TimeUnit::Nanos);
    assert_eq!(TimeUnit::from_fractional_digits(9), TimeUnit::Nanos);
    assert_eq!(TimeUnit::from_fractional_digits(255), TimeUnit::Nanos);
    assert_eq!(TimeUnit::Millis.per_second(), 1_000);
    assert_eq!(TimeUnit::Micros.per_second(), 1_000_000);
    assert_eq!(TimeUnit::Nanos.per_second(), 1_000_000_000);
    assert_eq!(TimeUnit::Millis.nanos_per_unit(), 1_000_000);
    assert_eq!(TimeUnit::Micros.nanos_per_unit(), 1_000);
    assert_eq!(TimeUnit::Nanos.nanos_per_unit(), 1);
}

#[test]
fn timestamp_in_every_unit() {
    let ts = stamp(date(2001, 9, 9), time(1, 46, 40, 123_456_789));
    assert_eq!(timestamp_to_epoch(ts, TimeUnit::Millis), Ok(1_000_000_000_123));
    assert_eq!(timestamp_to_epoch(ts, TimeUnit::Micros), Ok(1_000_000_000_123_456));
    assert_eq!(timestamp_to_epoch(ts, TimeUnit::Nanos), Ok(1_000_000_000_123_456_789));
}

#[test]
fn timestamp_before_the_epoch() {
    let ts = stamp(date(1969, 12, 31), time(23, 59, 59, 500_000_000));
    assert_eq!(timestamp_to_epoch(ts, TimeUnit::Millis), Ok(-500));
    assert_eq!(timestamp_to_epoch(ts, TimeUnit::Micros), Ok(-500_000));
    assert_eq!(timestamp_to_epoch(ts, TimeUnit::Nanos), Ok(-500_000_000));
}

#[test]
fn nanoseconds_run_out_in_2262() {
    let last = stamp(date(2262, 4, 11), time(23, 47, 16, 854_775_807));
    assert_eq!(timestamp_to_epoch(last, TimeUnit::Nanos), Ok(i64::MAX));
    let beyond = stamp(date(2262, 4, 11), time(23, 47, 16, 854_775_808));
    assert_eq!(timestamp_to_epoch(beyond, TimeUnit::Nanos), Err(ExportError::ValueOutOfRange));
    assert_eq!(timestamp_to_epoch(beyond, TimeUnit::Micros), Ok(9_223_372_036_854_775));
    let first = stamp(date(1677, 9, 21), time(0, 12, 43, 145_224_192));
    assert_eq!(timestamp_to_epoch(first, TimeUnit::Nanos), Ok(i64::MIN));
    let before = stamp(date(1677, 9, 21), time(0, 12, 43, 145_224_191));
    assert_eq!(timestamp_to_epoch(before, TimeUnit::Nanos), Err(ExportError::ValueOutOfRange));
}

#[test]
fn timestamps_that_do_not_exist_are_out_of_range() {
    let bad_date = stamp(date(2021, 2, 29), time(0, 0, 0, 0));
    assert_eq!(timestamp_to_epoch(bad_date, TimeUnit::Millis), Err(ExportError::ValueOutOfRange));
    let bad_time = stamp(date(2021, 2, 28), time(24, 0, 0, 0));
    assert_eq!(timestamp_to_epoch(bad_time, TimeUnit::Millis), Err(ExportError::ValueOutOfRange));
}

#[test]
fn offset_is_taken_off_the_local_time() {
    let local = stamp(date(2020, 1, 1), time(1, 0, 0, 0));
    let east = TimestampOffset { timestamp: local, offset_hours: 1, offset_minutes: 0 };
    assert_eq!(timestamp_tz_to_utc(east, TimeUnit::Millis), Ok(1_577_836_800_000));
    let utc = TimestampOffset { timestamp: local, offset_hours: 0, offset_minutes: 0 };
    assert_eq!(timestamp_tz_to_utc(utc, TimeUnit::Millis), Ok(1_577_840_400_000));
    let west = TimestampOffset { timestamp: local, offset_hours: -5, offset_minutes: -30 };
    assert_eq!(timestamp_tz_to_utc(west, TimeUnit::Micros), Ok(1_577_860_200_000_000));
    let india = TimestampOffset { timestamp: local, offset_hours: 5, offset_minutes: 30 };
    assert_eq!(timestamp_tz_to_utc(india, TimeUnit::Nanos), Ok(1_577_820_600_000_000_000));
    let minutes_only = TimestampOffset { timestamp: local, offset_hours: 0, offset_minutes: -45 };
    assert_eq!(timestamp_tz_to_utc(minutes_only, TimeUnit::Millis), Ok(1_577_843_100_000));
}

#[test]
fn offsets_that_no_zone_has_are_out_of_range() {
    let local = stamp(date(2020, 1, 1), time(1, 0, 0, 0));
    for (h, m) in [(15i16, 0i16), (-15, 0), (0, 60), (0, -60), (1, -30), (-1, 30)] {
        let value = TimestampOffset { timestamp: local, offset_hours: h, offset_minutes: m };
        assert_eq!(timestamp_tz_to_utc(value, TimeUnit::Millis), Err(ExportError::ValueOutOfRange));
    }
    let edge = TimestampOffset { timestamp: local, offset_hours: 14, offset_minutes: 59 };
    assert!(timestamp_tz_to_utc(edge, TimeUnit::Millis).is_ok());
    let bad = TimestampOffset {
        timestamp: stamp(date(2020, 13, 1), time(1, 0, 0, 0)),
        offset_hours: 0,
        offset_minutes: 0,
    };
    assert_eq!(timestamp_tz_to_utc(bad, TimeUnit::Millis), Err(ExportError::ValueOutOfRange));
}

fn bytes(s: &str) -> Vec<u8> {
    s.as_bytes().to_vec()
}

#[test]
fn time_text_is_read_field_by_field() {
    assert_eq!(parse_time_text(&bytes("12:34:56"), 0, 8), Some(time(12, 34, 56, 0)));
    assert_eq!(parse_time_text(&bytes("12:34:56.7"), 0, 10), Some(time(12, 34, 56, 700_000_000)));
    assert_eq!(
        parse_time_text(&bytes("12:34:56.123456789"), 0, 18),
        Some(time(12, 34, 56, 123_456_789))
    );
    assert_eq!(parse_time_text(&bytes("00:00:00.0000001"), 0, 16), Some(time(0, 0, 0, 100)));
    assert_eq!(parse_time_text(&bytes("xx 01:02:03 yy"), 3, 11), Some(time(1, 2, 3, 0)));
    // The fields are read, not judged.
    assert_eq!(parse_time_text(&bytes("99:99:99"), 0, 8), Some(time(99, 99, 99, 0)));
}

#[test]
fn text_that_writes_no_time_is_refused() {
    for bad in [
        "", "12:34", "12:34:5", "12:34:56.", "12:34:56.1234567890", "12-34-56", "1a:34:56",
        "12:34:56,5", "12:34:56.5x", " 12:34:56", "12:34:56 ", "12:34:56.-1",
    ] {
        let t = bytes(bad);
        assert_eq!(parse_time_text(&t, 0, t.len()), None, "{bad:?}");
        assert_eq!(time_text_to_micros(&t), Err(ExportError::ValueOutOfRange), "{bad:?}");
    }
}

#[test]
fn time_text_becomes_microseconds() {
    assert_eq!(time_text_to_micros(&bytes("00:00:00")), Ok(0));
    assert_eq!(time_text_to_micros(&bytes("12:34:56.789")), Ok(45_296_789_000));
    assert_eq!(time_text_to_micros(&bytes("23:59:59.9999999")), Ok(86_399_999_999));
    assert_eq!(time_text_to_micros(&bytes("00:00:00.000000999")), Ok(0));
    assert_eq!(time_text_to_micros(&bytes("24:00:00")), Err(ExportError::ValueOutOfRange));
    assert_eq!(time_text_to_micros(&bytes("23:60:00")), Err(ExportError::ValueOutOfRange));
}

#[test]
fn timestamp_offset_text_is_read_field_by_field() {
    let parsed = parse_timestamp_offset_text(&bytes("2020-01-01 01:00:00.1234567 +05:30"));
    assert_eq!(
        parsed,
        Some(TimestampOffset {
            timestamp: stamp(date(2020, 1, 1), time(1, 0, 0, 123_456_700)),
            offset_hours: 5,
            offset_minutes: 30,
        })
    );
    let parsed = parse_timestamp_offset_text(&bytes("0001-12-31 23:59:59 -00:45"));
    assert_eq!(
        parsed,
        Some(TimestampOffset {
            timestamp: stamp(date(1, 12, 31), time(23, 59, 59, 0)),
            offset_hours: 0,
            offset_minutes: -45,
        })
    );
    let parsed = parse_timestamp_offset_text(&bytes("9999-12-31 23:59:59.999999999 -14:00"));
    assert_eq!(
        parsed,
        Some(TimestampOffset {
            timestamp: stamp(date(9999, 12, 31), time(23, 59, 59, 999_999_999)),
            offset_hours: -14,
            offset_minutes: 0,
        })
    );
}

#[test]
fn text_that_writes_no_timestamp_with_offset_is_refused() {
    for bad in [
        "", "2020-01-01 01:00:00", "2020-01-01 01:00:00 +0530", "2020-01-01T01:00:00 +05:30",
        "2020/01/01 01:00:00 +05:30", "2020-01-01 01:00:00.+05:30", "2020-01-01 01:00:00  05:30",
        "20-01-01 01:00:00 +05:30", "2020-01-01 01:00:00 +5:30", "2020-01-01 01:00:00 +05:3x",
        "2020-01-01 01:00:00.1234567890 +05:30", "2020-01-0a 01:00:00 +05:30",
    ] {
        let t = bytes(bad);
        assert_eq!(parse_timestamp_offset_text(&t), None, "{bad:?}");
        assert_eq!(
            timestamp_tz_text_to_utc(&t, TimeUnit::Micros),
            Err(ExportError::ValueOutOfRange),
            "{bad:?}"
        );
    }
}

#[test]
fn timestamp_offset_text_becomes_an_instant_in_utc() {
    assert_eq!(
        timestamp_tz_text_to_utc(&bytes("2020-01-01 01:00:00.0000000 +01:00"), TimeUnit::Millis),
        Ok(1_577_836_800_000)
    );
    assert_eq!(
        timestamp_tz_text_to_utc(&bytes("2019-12-31 19:00:00.5 -05:00"), TimeUnit::Micros),
        Ok(1_577_836_800_500_000)
    );
    assert_eq!(
        timestamp_tz_text_to_utc(&bytes("1970-01-01 00:00:00 +00:00"), TimeUnit::Nanos),
        Ok(0)
    );
    assert_eq!(
        timestamp_tz_text_to_utc(&bytes("2020-02-30 01:00:00 +01:00"), TimeUnit::Millis),
        Err(ExportError::ValueOutOfRange)
    );
    assert_eq!(
        timestamp_tz_text_to_utc(&bytes("2020-01-01 01:00:00 +15:00"), TimeUnit::Millis),
        Err(ExportError::ValueOutOfRange)
    );
}
