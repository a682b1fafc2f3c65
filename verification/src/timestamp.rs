//! Dates with a time of day become time since 1970-01-01T00:00:00.

use vstd::prelude::*;
use crate::date::{date_to_days, days_since_epoch, is_valid_date, lemma_days_since_epoch_bounds, Date};
use crate::error::ExportError;
use crate::time::{is_valid_time, seconds_of_day, Time};
use crate::timestamp_precision::TimeUnit;

verus! {

/// A date with a time of day as the driver hands it out.
#[derive(Debug, Clone, Copy, PartialEq, Eq, Structural)]
pub struct Timestamp {
    pub date: Date,
    pub time: Time,
}

/// Whether date and time of `timestamp` both exist.
pub open spec fn is_valid_timestamp(timestamp: Timestamp) -> bool {
    is_valid_date(timestamp.date) && is_valid_time(timestamp.time)
}

/// Whole seconds from 1970-01-01T00:00:00 to `timestamp`.
pub open spec fn epoch_seconds(timestamp: Timestamp) -> int {
    days_since_epoch(timestamp.date) * 86_400 + seconds_of_day(timestamp.time)
}

/// Time from 1970-01-01T00:00:00 to `timestamp`, counted in `unit`; what is
/// finer than the unit is cut off.
pub open spec fn epoch_value(timestamp: Timestamp, unit: TimeUnit) -> int {
    epoch_seconds(timestamp) * unit.spec_per_second() + timestamp.time.fraction as int
        / unit.spec_nanos_per_unit()
}

/// The epoch value of a timestamp in 128 bits, where it always fits; `None`
/// where the timestamp does not exist.
pub(crate) fn wide_epoch_value(timestamp: Timestamp, unit: TimeUnit) -> (value: Option<i128>)
    ensures
        value is Some <==> is_valid_timestamp(timestamp),
        value matches Some(v) ==> v == epoch_value(timestamp, unit),
        value matches Some(v) ==> -1_100_000_000_000_000_000_000 <= v
            <= 1_000_000_000_000_000_000_000,
{
    let days = match date_to_days(timestamp.date) {
        Ok(days) => days,
        Err(_) => {
            return None;
        },
    };
    let time = timestamp.time;
    if time.hour >= 24 || time.minute >= 60 || time.second >= 60 || time.fraction
        >= 1_000_000_000 {
        return None;
    }
    proof {
        lemma_days_since_epoch_bounds(timestamp.date);
    }
    let day_seconds: i128 = (time.hour as i128 * 60 + time.minute as i128) * 60
        + time.second as i128;
    let seconds: i128 = days as i128 * 86_400 + day_seconds;
    let fraction: i128 = time.fraction as i128;
    Some(
        match unit {
            TimeUnit::Millis => seconds * 1_000 + fraction / 1_000_000,
            TimeUnit::Micros => seconds * 1_000_000 + fraction / 1_000,
            TimeUnit::Nanos => seconds * 1_000_000_000 + fraction,
        },
    )
}

/// Cuts a 128-bit count down to the 64 bits of a columnar timestamp.
pub(crate) fn narrow_epoch_value(value: i128) -> (result: Result<i64, ExportError>)
    ensures
        result is Ok <==> i64::MIN <= value <= i64::MAX,
        result matches Ok(v) ==> v == value,
        result matches Err(e) ==> e == ExportError::ValueOutOfRange,
{
    if value < i64::MIN as i128 || value > i64::MAX as i128 {
        Err(ExportError::ValueOutOfRange)
    } else {
        Ok(value as i64)
    }
}

/// Converts a local date and time to the time since 1970-01-01T00:00:00 in
/// `unit`, cutting off what is finer than the unit. Fails with
/// `ValueOutOfRange` exactly where the date or the time does not exist or
/// the count does not fit 64 bits, as happens with nanoseconds far from
/// 1970.
pub fn timestamp_to_epoch(timestamp: Timestamp, unit: TimeUnit) -> (result: Result<
    i64,
    ExportError,
>)
    ensures
        result is Ok <==> is_valid_timestamp(timestamp) && i64::MIN <= epoch_value(timestamp, unit)
            <= i64::MAX,
        result matches Ok(value) ==> value == epoch_value(timestamp, unit),
        result matches Err(e) ==> e == ExportError::ValueOutOfRange,
{
    match wide_epoch_value(timestamp, unit) {
        Some(value) => narrow_epoch_value(value),
        None => Err(ExportError::ValueOutOfRange),
    }
}

} // verus!
