//! Times of day of the driver become microseconds since midnight.

use vstd::prelude::*;
use crate::digits::{
    digits_value, is_digit, is_digits, lemma_digits_value_bound, lemma_pow10_38,
    lemma_pow10_monotonic, lemma_pow10_positive, lemma_shifted_bound, parse_digits, pow10,
    power_of_ten, read_two_digits, two_digits,
};
use crate::error::ExportError;

verus! {

/// A time of day as the driver hands it out; `fraction` counts the
/// nanoseconds of the running second.
#[derive(Debug, Clone, Copy, PartialEq, Eq, Structural)]
pub struct Time {
    pub hour: u16,
    pub minute: u16,
    pub second: u16,
    pub fraction: u32,
}

/// Whether every field of `time` is within its range.
pub open spec fn is_valid_time(time: Time) -> bool {
    time.hour < 24 && time.minute < 60 && time.second < 60 && time.fraction < 1_000_000_000
}

/// Whole seconds from midnight to `time`.
pub open spec fn seconds_of_day(time: Time) -> int {
    (time.hour * 60 + time.minute) * 60 + time.second
}

/// Microseconds from midnight to `time`; what is finer than a microsecond is
/// cut off.
pub open spec fn micros_since_midnight(time: Time) -> int {
    seconds_of_day(time) * 1_000_000 + time.fraction as int / 1_000
}

/// Converts a time of day to microseconds since midnight, cutting off what
/// is finer than a microsecond. Fails with `ValueOutOfRange` exactly where a
/// field is out of its range.
pub fn time_to_micros(time: Time) -> (result: Result<i64, ExportError>)
    ensures
        result is Ok <==> is_valid_time(time),
        result matches Ok(micros) ==> micros == micros_since_midnight(time),
        result matches Ok(micros) ==> 0 <= micros < 86_400_000_000,
        result matches Err(e) ==> e == ExportError::ValueOutOfRange,
{
    if time.hour >= 24 || time.minute >= 60 || time.second >= 60 || time.fraction
        >= 1_000_000_000 {
        return Err(ExportError::ValueOutOfRange);
    }
    let seconds: i64 = (time.hour as i64 * 60 + time.minute as i64) * 60 + time.second as i64;
    Ok(seconds * 1_000_000 + (time.fraction / 1_000) as i64)
}

/// Whether `text` writes a time of day: `hh:mm:ss`, and behind it, where
/// the seconds have a fraction, a point and one to nine digits.
pub open spec fn is_time_text(text: Seq<u8>) -> bool {
    &&& text.len() == 8 || 10 <= text.len() <= 18
    &&& is_digit(text[0]) && is_digit(text[1])
    &&& text[2] == 58
    &&& is_digit(text[3]) && is_digit(text[4])
    &&& text[5] == 58
    &&& is_digit(text[6]) && is_digit(text[7])
    &&& text.len() > 8 ==> text[8] == 46 && is_digits(text.subrange(9, text.len() as int))
}

/// The nanoseconds that the digits behind the point of a time text write;
/// zero where it has none.
pub open spec fn fraction_of_text(text: Seq<u8>) -> int {
    if text.len() > 8 {
        (digits_value(text.subrange(9, text.len() as int)) * pow10((18 - text.len()) as nat)) as int
    } else {
        0
    }
}

/// The time of day that `text` writes. Its fields may be out of range.
pub open spec fn time_of_text(text: Seq<u8>) -> Time {
    Time {
        hour: two_digits(text, 0) as u16,
        minute: two_digits(text, 3) as u16,
        second: two_digits(text, 6) as u16,
        fraction: fraction_of_text(text) as u32,
    }
}

/// The digits behind the point of a time text write less than a second.
pub proof fn lemma_fraction_of_text_bound(text: Seq<u8>)
    requires
        is_time_text(text),
    ensures
        0 <= fraction_of_text(text) < 1_000_000_000,
{
    reveal_with_fuel(pow10, 10);
    if text.len() > 8 {
        let digits = text.subrange(9, text.len() as int);
        lemma_digits_value_bound(digits);
        lemma_pow10_positive((18 - text.len()) as nat);
        lemma_shifted_bound(digits_value(digits), 0, digits.len(), (18 - text.len()) as nat);
        assert(digits.len() + (18 - text.len()) as nat == 9);
    }
}

/// Reads the bytes of `text` from `start` up to `end` as a time of day;
/// `None` where they write none. The fields are not checked for their
/// range.
pub fn parse_time_text(text: &Vec<u8>, start: usize, end: usize) -> (time: Option<Time>)
    requires
        start <= end <= text.len(),
    ensures
        time is Some <==> is_time_text(text@.subrange(start as int, end as int)),
        time matches Some(t) ==> t == time_of_text(text@.subrange(start as int, end as int)),
{
    let ghost s = text@.subrange(start as int, end as int);
    let len = end - start;
    if !(len == 8 || (10 <= len && len <= 18)) {
        return None;
    }
    assert(forall|i: int| 0 <= i < len ==> s[i] == text@[start + i]);
    if text[start + 2] != 58 || text[start + 5] != 58 {
        return None;
    }
    let hour = match read_two_digits(text, start) {
        Some(hour) => hour,
        None => {
            return None;
        },
    };
    let minute = match read_two_digits(text, start + 3) {
        Some(minute) => minute,
        None => {
            return None;
        },
    };
    let second = match read_two_digits(text, start + 6) {
        Some(second) => second,
        None => {
            return None;
        },
    };
    let fraction: u32 = if len > 8 {
        if text[start + 8] != 46 {
            return None;
        }
        assert(s.subrange(9, len as int) =~= text@.subrange(start + 9, end as int));
        let digits = match parse_digits(text, start + 9, end) {
            Some(digits) => digits,
            None => {
                return None;
            },
        };
        proof {
            lemma_fraction_of_text_bound(s);
            lemma_digits_value_bound(s.subrange(9, len as int));
            lemma_pow10_monotonic((len - 9) as nat, 38);
            lemma_pow10_38();
        }
        (digits * power_of_ten((18 - len) as u8)) as u32
    } else {
        0
    };
    Some(Time { hour, minute, second, fraction })
}

/// What the text of a time of day becomes: its microseconds since midnight,
/// where the text writes a time that exists.
pub open spec fn spec_time_text_to_micros(text: Seq<u8>) -> Result<i64, ExportError> {
    if is_time_text(text) && is_valid_time(time_of_text(text)) {
        Ok(micros_since_midnight(time_of_text(text)) as i64)
    } else {
        Err(ExportError::ValueOutOfRange)
    }
}

/// Converts the text of a time of day, `hh:mm:ss` with up to nine digits of
/// fractional seconds, to microseconds since midnight, cutting off what is
/// finer than a microsecond. Fails with `ValueOutOfRange` exactly where the
/// text writes no time, or one that does not exist.
pub fn time_text_to_micros(text: &Vec<u8>) -> (result: Result<i64, ExportError>)
    ensures
        result == spec_time_text_to_micros(text@),
{
    assert(text@.subrange(0, text.len() as int) =~= text@);
    match parse_time_text(text, 0, text.len()) {
        Some(time) => time_to_micros(time),
        None => Err(ExportError::ValueOutOfRange),
    }
}

} // verus!
