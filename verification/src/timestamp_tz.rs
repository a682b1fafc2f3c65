//! Dates and times with an offset from UTC become instants in UTC.

use vstd::prelude::*;
use crate::date::Date;
use crate::digits::{is_digit, read_two_digits, two_digits};
use crate::error::ExportError;
use crate::time::{is_time_text, parse_time_text, time_of_text};
use crate::timestamp::{
    epoch_value, is_valid_timestamp, narrow_epoch_value, wide_epoch_value, Timestamp,
};
use crate::timestamp_precision::TimeUnit;

verus! {

/// A date and time with the offset of its time zone from UTC, as the driver
/// hands it out. East of Greenwich both parts of the offset are positive,
/// west of it both are negative.
#[derive(Debug, Clone, Copy, PartialEq, Eq, Structural)]
pub struct TimestampOffset {
    pub timestamp: Timestamp,
    pub offset_hours: i16,
    pub offset_minutes: i16,
}

/// Whether the offset is one a time zone can have: at most fourteen hours
/// either way, with minutes that point the same way as the hours.
pub open spec fn is_valid_offset(value: TimestampOffset) -> bool {
    &&& -14 <= value.offset_hours <= 14
    &&& -59 <= value.offset_minutes <= 59
    &&& value.offset_hours > 0 ==> value.offset_minutes >= 0
    &&& value.offset_hours < 0 ==> value.offset_minutes <= 0
}

/// Seconds by which the local time is ahead of UTC.
pub open spec fn offset_seconds(value: TimestampOffset) -> int {
    value.offset_hours * 3_600 + value.offset_minutes * 60
}

/// The instant of `value` as time since 1970-01-01T00:00:00 UTC in `unit`:
/// the local time less the offset.
pub open spec fn utc_value(value: TimestampOffset, unit: TimeUnit) -> int {
    epoch_value(value.timestamp, unit) - offset_seconds(value) * unit.spec_per_second()
}

/// Converts a date and time with offset to the instant in UTC, counted in
/// `unit` since 1970-01-01T00:00:00. Fails with `ValueOutOfRange` exactly
/// where the date, the time or the offset does not exist or the count does
/// not fit 64 bits.
pub fn timestamp_tz_to_utc(value: TimestampOffset, unit: TimeUnit) -> (result: Result<
    i64,
    ExportError,
>)
    ensures
        result is Ok <==> is_valid_timestamp(value.timestamp) && is_valid_offset(value) && i64::MIN
            <= utc_value(value, unit) <= i64::MAX,
        result matches Ok(v) ==> v == utc_value(value, unit),
        result matches Err(e) ==> e == ExportError::ValueOutOfRange,
{
    let hours = value.offset_hours;
    let minutes = value.offset_minutes;
    if hours < -14 || hours > 14 || minutes < -59 || minutes > 59 || (hours > 0 && minutes < 0)
        || (hours < 0 && minutes > 0) {
        return Err(ExportError::ValueOutOfRange);
    }
    let local = match wide_epoch_value(value.timestamp, unit) {
        Some(local) => local,
        None => {
            return Err(ExportError::ValueOutOfRange);
        },
    };
    let offset: i128 = hours as i128 * 3_600 + minutes as i128 * 60;
    let ahead: i128 = match unit {
        TimeUnit::Millis => offset * 1_000,
        TimeUnit::Micros => offset * 1_000_000,
        TimeUnit::Nanos => offset * 1_000_000_000,
    };
    narrow_epoch_value(local - ahead)
}

/// Whether `text` writes a date and time with offset:
/// `YYYY-MM-DD hh:mm:ss`, up to nine digits of fractional seconds behind a
/// point, a space, and the offset as `+hh:mm` or `-hh:mm`.
pub open spec fn is_timestamp_offset_text(text: Seq<u8>) -> bool {
    let len = text.len() as int;
    &&& len >= 26
    &&& is_digit(text[0]) && is_digit(text[1]) && is_digit(text[2]) && is_digit(text[3])
    &&& text[4] == 45
    &&& is_digit(text[5]) && is_digit(text[6])
    &&& text[7] == 45
    &&& is_digit(text[8]) && is_digit(text[9])
    &&& text[10] == 32
    &&& is_time_text(text.subrange(11, len - 7))
    &&& text[len - 7] == 32
    &&& text[len - 6] == 43 || text[len - 6] == 45
    &&& is_digit(text[len - 5]) && is_digit(text[len - 4])
    &&& text[len - 3] == 58
    &&& is_digit(text[len - 2]) && is_digit(text[len - 1])
}

/// The date and time with offset that `text` writes. A minus sign makes
/// hours and minutes of the offset negative. The fields may be out of
/// range.
pub open spec fn timestamp_offset_of_text(text: Seq<u8>) -> TimestampOffset {
    let len = text.len() as int;
    let negative = text[len - 6] == 45;
    TimestampOffset {
        timestamp: Timestamp {
            date: Date {
                year: (two_digits(text, 0) * 100 + two_digits(text, 2)) as i16,
                month: two_digits(text, 5) as u16,
                day: two_digits(text, 8) as u16,
            },
            time: time_of_text(text.subrange(11, len - 7)),
        },
        offset_hours: (if negative {
            -two_digits(text, len - 5)
        } else {
            two_digits(text, len - 5)
        }) as i16,
        offset_minutes: (if negative {
            -two_digits(text, len - 2)
        } else {
            two_digits(text, len - 2)
        }) as i16,
    }
}

/// Reads `text` as a date and time with offset; `None` where it writes
/// none. The fields are not checked for their range.
pub fn parse_timestamp_offset_text(text: &Vec<u8>) -> (value: Option<TimestampOffset>)
    ensures
        value is Some <==> is_timestamp_offset_text(text@),
        value matches Some(v) ==> v == timestamp_offset_of_text(text@),
{
    let len = text.len();
    if len < 26 {
        return None;
    }
    if text[4] != 45 || text[7] != 45 || text[10] != 32 || text[len - 7] != 32 || text[len - 3]
        != 58 {
        return None;
    }
    let negative = text[len - 6] == 45;
    if !negative && text[len - 6] != 43 {
        return None;
    }
    let century = match read_two_digits(text, 0) {
        Some(v) => v,
        None => {
            return None;
        },
    };
    let year = match read_two_digits(text, 2) {
        Some(v) => v,
        None => {
            return None;
        },
    };
    let month = match read_two_digits(text, 5) {
        Some(v) => v,
        None => {
            return None;
        },
    };
    let day = match read_two_digits(text, 8) {
        Some(v) => v,
        None => {
            return None;
        },
    };
    let time = match parse_time_text(text, 11, len - 7) {
        Some(v) => v,
        None => {
            return None;
        },
    };
    let hours = match read_two_digits(text, len - 5) {
        Some(v) => v,
        None => {
            return None;
        },
    };
    let minutes = match read_two_digits(text, len - 2) {
        Some(v) => v,
        None => {
            return None;
        },
    };
    let offset_hours: i16 = if negative {
        -(hours as i16)
    } else {
        hours as i16
    };
    let offset_minutes: i16 = if negative {
        -(minutes as i16)
    } else {
        minutes as i16
    };
    Some(
        TimestampOffset {
            timestamp: Timestamp {
                date: Date { year: (century * 100 + year) as i16, month, day },
                time,
            },
            offset_hours,
            offset_minutes,
        },
    )
}

/// What the text of a date and time with offset becomes: its instant in
/// UTC, counted in `unit` since the epoch, where the text writes one that
/// exists and fits 64 bits.
pub open spec fn spec_timestamp_tz_text_to_utc(text: Seq<u8>, unit: TimeUnit) -> Result<
    i64,
    ExportError,
> {
    let value = timestamp_offset_of_text(text);
    if is_timestamp_offset_text(text) && is_valid_timestamp(value.timestamp) && is_valid_offset(
        value,
    ) && i64::MIN <= utc_value(value, unit) <= i64::MAX {
        Ok(utc_value(value, unit) as i64)
    } else {
        Err(ExportError::ValueOutOfRange)
    }
}

/// Converts the text of a date and time with offset to the instant in UTC,
/// counted in `unit` since 1970-01-01T00:00:00. Fails with
/// `ValueOutOfRange` exactly where the text writes no such value, or one
/// that does not exist or whose count does not fit 64 bits.
pub fn timestamp_tz_text_to_utc(text: &Vec<u8>, unit: TimeUnit) -> (result: Result<
    i64,
    ExportError,
>)
    ensures
        result == spec_timestamp_tz_text_to_utc(text@, unit),
{
    match parse_timestamp_offset_text(text) {
        Some(value) => timestamp_tz_to_utc(value, unit),
        None => Err(ExportError::ValueOutOfRange),
    }
}

} // verus!
