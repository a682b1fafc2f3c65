//! Transcoding of one column: the rows of a fetch buffer that are not NULL
//! become the values of a column chunk, and the NULLs its definition levels.

use vstd::prelude::*;
use crate::column_strategy::{ColumnStrategy, Passthrough};
use crate::date::{date_to_days, days_since_epoch, is_valid_date, Date};
use crate::decimal::{
    be_bytes, decimal_to_be_bytes, fits_int64, integer_text_value, is_integer_text,
    parse_decimal_text, parse_int64_text, rescale_numeric, spec_parse_decimal, spec_rescale,
    stored_int64, Numeric,
};
use crate::digits::{lemma_pow10_monotonic, pow10};
use crate::error::ExportError;
use crate::fetch_batch::{BoundColumn, ColumnBuffer};
use crate::text::{
    byte_prefix, spec_utf16_to_utf8, utf16_cut, utf16_prefix_len, utf16_to_utf8, utf8_cut,
    utf8_prefix_len,
};
use crate::time::{
    is_valid_time, micros_since_midnight, spec_time_text_to_micros, time_text_to_micros,
    time_to_micros, Time,
};
use crate::timestamp::{epoch_value, is_valid_timestamp, timestamp_to_epoch, Timestamp};
use crate::timestamp_precision::TimeUnit;
use crate::timestamp_tz::{spec_timestamp_tz_text_to_utc, timestamp_tz_text_to_utc};

verus! {

/// The values of a column chunk, by the storage type of the column. NULLs
/// take no place among them.
#[derive(Debug)]
pub enum ColumnValues {
    Boolean(Vec<bool>),
    Int32(Vec<i32>),
    Int64(Vec<i64>),
    /// Single precision numbers, by their bits.
    Float(Vec<u32>),
    /// Double precision numbers, by their bits.
    Double(Vec<u64>),
    ByteArray(Vec<Vec<u8>>),
    FixedLenByteArray(Vec<Vec<u8>>),
}

/// The values of a column chunk as sequences.
pub enum ValuesModel {
    Boolean(Seq<bool>),
    Int32(Seq<i32>),
    Int64(Seq<i64>),
    Float(Seq<u32>),
    Double(Seq<u64>),
    ByteArray(Seq<Seq<u8>>),
    FixedLenByteArray(Seq<Seq<u8>>),
}

/// What a vector of bytes is in contracts: the sequence of its bytes.
pub open spec fn bytes_view() -> spec_fn(Vec<u8>) -> Seq<u8> {
    |bytes: Vec<u8>| bytes@
}

/// A value as it is.
pub open spec fn itself<T>(value: T) -> T {
    value
}

impl View for ColumnValues {
    type V = ValuesModel;

    open spec fn view(&self) -> ValuesModel {
        match self {
            ColumnValues::Boolean(v) => ValuesModel::Boolean(v@),
            ColumnValues::Int32(v) => ValuesModel::Int32(v@),
            ColumnValues::Int64(v) => ValuesModel::Int64(v@),
            ColumnValues::Float(v) => ValuesModel::Float(v@),
            ColumnValues::Double(v) => ValuesModel::Double(v@),
            ColumnValues::ByteArray(v) => ValuesModel::ByteArray(v@.map_values(bytes_view())),
            ColumnValues::FixedLenByteArray(v) => ValuesModel::FixedLenByteArray(
                v@.map_values(bytes_view()),
            ),
        }
    }
}

/// What the encoder gets for one column of one row group.
#[derive(Debug)]
pub struct ColumnChunk {
    /// For every row of the batch, one where it holds a value and zero where
    /// it is NULL.
    pub definition_levels: Vec<i16>,
    /// The values of the rows that are not NULL, in the order of the rows.
    pub values: ColumnValues,
}

/// The definition levels of the first `n` rows: zero for a NULL, one for a
/// value.
pub open spec fn spec_definition_levels(nulls: Seq<bool>, n: int) -> Seq<i16> {
    Seq::new(
        n as nat,
        |i: int|
            if nulls[i] {
                0i16
            } else {
                1i16
            },
    )
}

/// Builds the definition levels of the first `n` rows of a column.
pub fn definition_levels(nulls: &Vec<bool>, n: usize) -> (levels: Vec<i16>)
    requires
        n <= nulls.len(),
    ensures
        levels@ == spec_definition_levels(nulls@, n as int),
{
    let mut levels: Vec<i16> = Vec::new();
    let mut i: usize = 0;
    while i < n
        invariant
            i <= n <= nulls.len(),
            levels@ == spec_definition_levels(nulls@, i as int),
        decreases n - i,
    {
        levels.push(if nulls[i] { 0 } else { 1 });
        assert(levels@ =~= spec_definition_levels(nulls@, i + 1));
        i += 1;
    }
    levels
}

/// The values that the first `n` rows of a column become: the rows that are
/// not NULL, each converted by `convert`, in the order of the rows. Where a
/// conversion fails, the outcome is the error of the first row that fails.
pub open spec fn converted_rows<In, M>(
    values: Seq<In>,
    nulls: Seq<bool>,
    n: int,
    convert: spec_fn(In) -> Result<M, ExportError>,
) -> Result<Seq<M>, ExportError>
    decreases n,
{
    if n <= 0 {
        Ok(Seq::empty())
    } else {
        match converted_rows(values, nulls, n - 1, convert) {
            Err(e) => Err(e),
            Ok(rows) => if nulls[n - 1] {
                Ok(rows)
            } else {
                match convert(values[n - 1]) {
                    Ok(value) => Ok(rows.push(value)),
                    Err(e) => Err(e),
                }
            },
        }
    }
}

/// Once a row has failed, more rows do not change the outcome.
pub proof fn lemma_first_error_stays<In, M>(
    values: Seq<In>,
    nulls: Seq<bool>,
    j: int,
    n: int,
    convert: spec_fn(In) -> Result<M, ExportError>,
)
    requires
        j <= n,
        converted_rows(values, nulls, j, convert) is Err,
    ensures
        converted_rows(values, nulls, n, convert) == converted_rows(values, nulls, j, convert),
    decreases n - j,
{
    if j < n {
        lemma_first_error_stays(values, nulls, j, n - 1, convert);
    }
}

/// The number of rows among the first `n` that are not NULL.
pub open spec fn present_count(nulls: Seq<bool>, n: int) -> nat
    decreases n,
{
    if n <= 0 {
        0
    } else {
        present_count(nulls, n - 1) + if nulls[n - 1] {
            0nat
        } else {
            1nat
        }
    }
}

/// A column chunk holds one value for every row that is not NULL.
pub proof fn lemma_one_value_per_present_row<In, M>(
    values: Seq<In>,
    nulls: Seq<bool>,
    n: int,
    convert: spec_fn(In) -> Result<M, ExportError>,
)
    requires
        converted_rows(values, nulls, n, convert) is Ok,
    ensures
        converted_rows(values, nulls, n, convert)->Ok_0.len() == present_count(nulls, n),
    decreases n,
{
    if n > 0 {
        lemma_one_value_per_present_row(values, nulls, n - 1, convert);
    }
}

/// Converts the rows of a buffer that are not NULL, in order, and stops at
/// the first that fails. `model` says what `convert` returns, `view` what
/// the converted values are in contracts.
fn convert_rows<In, Out, M, F: Fn(&In) -> Result<Out, ExportError>>(
    values: &Vec<In>,
    nulls: &Vec<bool>,
    n: usize,
    convert: F,
    Ghost(model): Ghost<spec_fn(In) -> Result<M, ExportError>>,
    Ghost(view): Ghost<spec_fn(Out) -> M>,
) -> (result: Result<Vec<Out>, ExportError>)
    requires
        n <= values.len(),
        n <= nulls.len(),
        forall|v: &In| call_requires(convert, (v,)),
        forall|v: &In, r: Result<Out, ExportError>| #[trigger]
            call_ensures(convert, (v,), r) ==> match r {
                Ok(o) => model(*v) == Ok::<M, ExportError>(view(o)),
                Err(e) => model(*v) == Err::<M, ExportError>(e),
            },
    ensures
        match result {
            Ok(out) => converted_rows(values@, nulls@, n as int, model) == Ok::<
                Seq<M>,
                ExportError,
            >(out@.map_values(view)),
            Err(e) => converted_rows(values@, nulls@, n as int, model) == Err::<
                Seq<M>,
                ExportError,
            >(e),
        },
{
    let mut out: Vec<Out> = Vec::new();
    let mut j: usize = 0;
    assert(out@.map_values(view) =~= Seq::<M>::empty());
    while j < n
        invariant
            j <= n <= values.len(),
            n <= nulls.len(),
            forall|v: &In| call_requires(convert, (v,)),
            forall|v: &In, r: Result<Out, ExportError>| #[trigger]
                call_ensures(convert, (v,), r) ==> match r {
                    Ok(o) => model(*v) == Ok::<M, ExportError>(view(o)),
                    Err(e) => model(*v) == Err::<M, ExportError>(e),
                },
            converted_rows(values@, nulls@, j as int, model) == Ok::<Seq<M>, ExportError>(
                out@.map_values(view),
            ),
        decreases n - j,
    {
        if !nulls[j] {
            let ghost before = out@;
            match convert(&values[j]) {
                Ok(value) => {
                    out.push(value);
                    assert(out@.map_values(view) =~= before.map_values(view).push(view(value)));
                },
                Err(e) => {
                    proof {
                        lemma_first_error_stays(values@, nulls@, j + 1, n as int, model);
                    }
                    return Err(e);
                },
            }
        }
        j += 1;
    }
    Ok(out)
}

/// `convert_rows` for values that contracts take as they are.
fn convert_plain_rows<In, Out, F: Fn(&In) -> Result<Out, ExportError>>(
    values: &Vec<In>,
    nulls: &Vec<bool>,
    n: usize,
    convert: F,
    Ghost(model): Ghost<spec_fn(In) -> Result<Out, ExportError>>,
) -> (result: Result<Vec<Out>, ExportError>)
    requires
        n <= values.len(),
        n <= nulls.len(),
        forall|v: &In| call_requires(convert, (v,)),
        forall|v: &In, r: Result<Out, ExportError>| #[trigger]
            call_ensures(convert, (v,), r) ==> r == model(*v),
    ensures
        match result {
            Ok(out) => converted_rows(values@, nulls@, n as int, model) == Ok::<
                Seq<Out>,
                ExportError,
            >(out@),
            Err(e) => converted_rows(values@, nulls@, n as int, model) == Err::<
                Seq<Out>,
                ExportError,
            >(e),
        },
{
    match convert_rows::<In, Out, Out, F>(
        values,
        nulls,
        n,
        convert,
        Ghost(model),
        Ghost(|v: Out| itself(v)),
    ) {
        Ok(out) => {
            assert(out@.map_values(|v: Out| itself(v)) =~= out@);
            Ok(out)
        },
        Err(e) => Err(e),
    }
}

/// What a bit becomes: true unless it is zero.
pub open spec fn bit_value() -> spec_fn(u8) -> Result<bool, ExportError> {
    |bit: u8| Ok(bit != 0)
}

/// What a value that is copied becomes: itself.
pub open spec fn same_value<T>() -> spec_fn(T) -> Result<T, ExportError> {
    |value: T| Ok(value)
}

/// What a calendar date becomes: its days since 1970-01-01, where it
/// exists.
pub open spec fn date_value() -> spec_fn(Date) -> Result<i32, ExportError> {
    |date: Date|
        if is_valid_date(date) {
            Ok(days_since_epoch(date) as i32)
        } else {
            Err(ExportError::ValueOutOfRange)
        }
}

/// What a time of day becomes: its microseconds since midnight, where it
/// exists.
pub open spec fn time_value() -> spec_fn(Time) -> Result<i64, ExportError> {
    |time: Time|
        if is_valid_time(time) {
            Ok(micros_since_midnight(time) as i64)
        } else {
            Err(ExportError::ValueOutOfRange)
        }
}

/// What a local date and time becomes: its time since the epoch in `unit`,
/// where it exists and fits 64 bits.
pub open spec fn timestamp_value(unit: TimeUnit) -> spec_fn(Timestamp) -> Result<i64, ExportError> {
    |timestamp: Timestamp|
        if is_valid_timestamp(timestamp) && i64::MIN <= epoch_value(timestamp, unit) <= i64::MAX {
            Ok(epoch_value(timestamp, unit) as i64)
        } else {
            Err(ExportError::ValueOutOfRange)
        }
}

/// What the text of a time of day becomes: its microseconds since
/// midnight, where it writes a time that exists.
pub open spec fn time_text_value() -> spec_fn(Vec<u8>) -> Result<i64, ExportError> {
    |text: Vec<u8>| spec_time_text_to_micros(text@)
}

/// What the text of a date and time with offset becomes: its instant in
/// UTC, counted in `unit` since the epoch, where it writes one that exists
/// and fits 64 bits.
pub open spec fn timestamp_tz_value(unit: TimeUnit) -> spec_fn(Vec<u8>) -> Result<
    i64,
    ExportError,
> {
    |text: Vec<u8>| spec_timestamp_tz_text_to_utc(text@, unit)
}

/// What the text of a 64-bit integer becomes: the integer, where the text
/// writes one within the range of the column.
pub open spec fn int64_text_value(signed: bool) -> spec_fn(Vec<u8>) -> Result<i64, ExportError> {
    |text: Vec<u8>|
        if is_integer_text(text@) && fits_int64(integer_text_value(text@), signed) {
            Ok(stored_int64(integer_text_value(text@)) as i64)
        } else {
            Err(ExportError::ValueOutOfRange)
        }
}

/// What the text of an exact numeric becomes in a column of `precision`
/// digits, `scale` of them behind the point.
pub open spec fn decimal_text_value(precision: u8, scale: u8) -> spec_fn(Vec<u8>) -> Result<
    int,
    ExportError,
> {
    |text: Vec<u8>| spec_parse_decimal(text@, precision as nat, scale as nat)
}

/// What a fixed-point number of the driver becomes in a column of
/// `precision` digits, `scale` of them behind the point.
pub open spec fn numeric_value(precision: u8, scale: u8) -> spec_fn(Numeric) -> Result<
    int,
    ExportError,
> {
    |number: Numeric| spec_rescale(number, precision as nat, scale as nat)
}

/// The outcome of `convert`, stored in 32 bits.
pub open spec fn stored_as_int32<In>(convert: spec_fn(In) -> Result<int, ExportError>) -> spec_fn(
    In,
) -> Result<i32, ExportError> {
    |value: In|
        match convert(value) {
            Ok(v) => Ok(v as i32),
            Err(e) => Err(e),
        }
}

/// The outcome of `convert`, stored in 64 bits.
pub open spec fn stored_as_int64<In>(convert: spec_fn(In) -> Result<int, ExportError>) -> spec_fn(
    In,
) -> Result<i64, ExportError> {
    |value: In|
        match convert(value) {
            Ok(v) => Ok(v as i64),
            Err(e) => Err(e),
        }
}

/// The outcome of `convert`, stored in sixteen bytes, most significant
/// first.
pub open spec fn stored_as_bytes<In>(convert: spec_fn(In) -> Result<int, ExportError>) -> spec_fn(
    In,
) -> Result<Seq<u8>, ExportError> {
    |value: In|
        match convert(value) {
            Ok(v) => Ok(be_bytes(v as i128)),
            Err(e) => Err(e),
        }
}

/// What UTF-8 text becomes in a column that holds `max_bytes` bytes a
/// value: itself, cut between two characters where it is longer.
pub open spec fn text_value(max_bytes: usize) -> spec_fn(Vec<u8>) -> Result<Seq<u8>, ExportError> {
    |text: Vec<u8>| Ok(text@.take(utf8_cut(text@, max_bytes as int)))
}

/// What UTF-16 text becomes in a column that holds `max_units` units a
/// value: its UTF-8 bytes, after a cut between two characters where it is
/// longer; an error where it is not well formed.
pub open spec fn wide_text_value(max_units: usize) -> spec_fn(Vec<u16>) -> Result<
    Seq<u8>,
    ExportError,
> {
    |text: Vec<u16>|
        match spec_utf16_to_utf8(text@.take(utf16_cut(text@, max_units as int))) {
            Some(bytes) => Ok(bytes),
            None => Err(ExportError::ValueOutOfRange),
        }
}

/// What bytes become in a binary column: themselves. A fixed column takes
/// values of exactly `length` bytes and no others; a variable one cuts what
/// is longer.
pub open spec fn binary_value(fixed: bool, length: usize) -> spec_fn(Vec<u8>) -> Result<
    Seq<u8>,
    ExportError,
> {
    |bytes: Vec<u8>|
        if fixed {
            if bytes@.len() == length {
                Ok(bytes@)
            } else {
                Err(ExportError::ValueOutOfRange)
            }
        } else if bytes@.len() <= length {
            Ok(bytes@)
        } else {
            Ok(bytes@.take(length as int))
        }
}

/// The outcome of a conversion as contracts see it.
pub open spec fn values_model(result: Result<ColumnValues, ExportError>) -> Result<
    ValuesModel,
    ExportError,
> {
    match result {
        Ok(values) => Ok(values@),
        Err(e) => Err(e),
    }
}

pub open spec fn booleans(rows: Result<Seq<bool>, ExportError>) -> Result<ValuesModel, ExportError> {
    match rows {
        Ok(rows) => Ok(ValuesModel::Boolean(rows)),
        Err(e) => Err(e),
    }
}

pub open spec fn int32s(rows: Result<Seq<i32>, ExportError>) -> Result<ValuesModel, ExportError> {
    match rows {
        Ok(rows) => Ok(ValuesModel::Int32(rows)),
        Err(e) => Err(e),
    }
}

pub open spec fn int64s(rows: Result<Seq<i64>, ExportError>) -> Result<ValuesModel, ExportError> {
    match rows {
        Ok(rows) => Ok(ValuesModel::Int64(rows)),
        Err(e) => Err(e),
    }
}

pub open spec fn floats(rows: Result<Seq<u32>, ExportError>) -> Result<ValuesModel, ExportError> {
    match rows {
        Ok(rows) => Ok(ValuesModel::Float(rows)),
        Err(e) => Err(e),
    }
}

pub open spec fn doubles(rows: Result<Seq<u64>, ExportError>) -> Result<ValuesModel, ExportError> {
    match rows {
        Ok(rows) => Ok(ValuesModel::Double(rows)),
        Err(e) => Err(e),
    }
}

pub open spec fn byte_arrays(rows: Result<Seq<Seq<u8>>, ExportError>) -> Result<
    ValuesModel,
    ExportError,
> {
    match rows {
        Ok(rows) => Ok(ValuesModel::ByteArray(rows)),
        Err(e) => Err(e),
    }
}

pub open spec fn fixed_byte_arrays(rows: Result<Seq<Seq<u8>>, ExportError>) -> Result<
    ValuesModel,
    ExportError,
> {
    match rows {
        Ok(rows) => Ok(ValuesModel::FixedLenByteArray(rows)),
        Err(e) => Err(e),
    }
}

fn decode_bits(values: &Vec<u8>, nulls: &Vec<bool>, n: usize) -> (result: Result<
    ColumnValues,
    ExportError,
>)
    requires
        n <= values.len(),
        n <= nulls.len(),
    ensures
        values_model(result) == booleans(converted_rows(values@, nulls@, n as int, bit_value())),
{
    let convert = |bit: &u8| -> (r: Result<bool, ExportError>)
        ensures
            r == bit_value()(*bit),
        { Ok(*bit != 0) };
    match convert_plain_rows(values, nulls, n, convert, Ghost(bit_value())) {
        Ok(out) => Ok(ColumnValues::Boolean(out)),
        Err(e) => Err(e),
    }
}

fn copy_int32(values: &Vec<i32>, nulls: &Vec<bool>, n: usize) -> (result: Result<
    ColumnValues,
    ExportError,
>)
    requires
        n <= values.len(),
        n <= nulls.len(),
    ensures
        values_model(result) == int32s(converted_rows(values@, nulls@, n as int, same_value())),
{
    let convert = |v: &i32| -> (r: Result<i32, ExportError>)
        ensures
            r == same_value::<i32>()(*v),
        { Ok(*v) };
    match convert_plain_rows(values, nulls, n, convert, Ghost(same_value())) {
        Ok(out) => Ok(ColumnValues::Int32(out)),
        Err(e) => Err(e),
    }
}

fn copy_int64(values: &Vec<i64>, nulls: &Vec<bool>, n: usize) -> (result: Result<
    ColumnValues,
    ExportError,
>)
    requires
        n <= values.len(),
        n <= nulls.len(),
    ensures
        values_model(result) == int64s(converted_rows(values@, nulls@, n as int, same_value())),
{
    let convert = |v: &i64| -> (r: Result<i64, ExportError>)
        ensures
            r == same_value::<i64>()(*v),
        { Ok(*v) };
    match convert_plain_rows(values, nulls, n, convert, Ghost(same_value())) {
        Ok(out) => Ok(ColumnValues::Int64(out)),
        Err(e) => Err(e),
    }
}

fn copy_float(values: &Vec<u32>, nulls: &Vec<bool>, n: usize) -> (result: Result<
    ColumnValues,
    ExportError,
>)
    requires
        n <= values.len(),
        n <= nulls.len(),
    ensures
        values_model(result) == floats(converted_rows(values@, nulls@, n as int, same_value())),
{
    let convert = |v: &u32| -> (r: Result<u32, ExportError>)
        ensures
            r == same_value::<u32>()(*v),
        { Ok(*v) };
    match convert_plain_rows(values, nulls, n, convert, Ghost(same_value())) {
        Ok(out) => Ok(ColumnValues::Float(out)),
        Err(e) => Err(e),
    }
}

fn copy_double(values: &Vec<u64>, nulls: &Vec<bool>, n: usize) -> (result: Result<
    ColumnValues,
    ExportError,
>)
    requires
        n <= values.len(),
        n <= nulls.len(),
    ensures
        values_model(result) == doubles(converted_rows(values@, nulls@, n as int, same_value())),
{
    let convert = |v: &u64| -> (r: Result<u64, ExportError>)
        ensures
            r == same_value::<u64>()(*v),
        { Ok(*v) };
    match convert_plain_rows(values, nulls, n, convert, Ghost(same_value())) {
        Ok(out) => Ok(ColumnValues::Double(out)),
        Err(e) => Err(e),
    }
}

fn decode_dates(values: &Vec<Date>, nulls: &Vec<bool>, n: usize) -> (result: Result<
    ColumnValues,
    ExportError,
>)
    requires
        n <= values.len(),
        n <= nulls.len(),
    ensures
        values_model(result) == int32s(converted_rows(values@, nulls@, n as int, date_value())),
{
    let convert = |date: &Date| -> (r: Result<i32, ExportError>)
        ensures
            r == date_value()(*date),
        { date_to_days(*date) };
    match convert_plain_rows(values, nulls, n, convert, Ghost(date_value())) {
        Ok(out) => Ok(ColumnValues::Int32(out)),
        Err(e) => Err(e),
    }
}

fn decode_times(values: &Vec<Time>, nulls: &Vec<bool>, n: usize) -> (result: Result<
    ColumnValues,
    ExportError,
>)
    requires
        n <= values.len(),
        n <= nulls.len(),
    ensures
        values_model(result) == int64s(converted_rows(values@, nulls@, n as int, time_value())),
{
    let convert = |time: &Time| -> (r: Result<i64, ExportError>)
        ensures
            r == time_value()(*time),
        { time_to_micros(*time) };
    match convert_plain_rows(values, nulls, n, convert, Ghost(time_value())) {
        Ok(out) => Ok(ColumnValues::Int64(out)),
        Err(e) => Err(e),
    }
}

fn decode_timestamps(values: &Vec<Timestamp>, nulls: &Vec<bool>, n: usize, unit: TimeUnit) -> (result:
    Result<ColumnValues, ExportError>)
    requires
        n <= values.len(),
        n <= nulls.len(),
    ensures
        values_model(result) == int64s(
            converted_rows(values@, nulls@, n as int, timestamp_value(unit)),
        ),
{
    let convert = |timestamp: &Timestamp| -> (r: Result<i64, ExportError>)
        ensures
            r == timestamp_value(unit)(*timestamp),
        { timestamp_to_epoch(*timestamp, unit) };
    match convert_plain_rows(values, nulls, n, convert, Ghost(timestamp_value(unit))) {
        Ok(out) => Ok(ColumnValues::Int64(out)),
        Err(e) => Err(e),
    }
}

fn decode_time_text(values: &Vec<Vec<u8>>, nulls: &Vec<bool>, n: usize) -> (result: Result<
    ColumnValues,
    ExportError,
>)
    requires
        n <= values.len(),
        n <= nulls.len(),
    ensures
        values_model(result) == int64s(
            converted_rows(values@, nulls@, n as int, time_text_value()),
        ),
{
    let convert = |text: &Vec<u8>| -> (r: Result<i64, ExportError>)
        ensures
            r == time_text_value()(*text),
        { time_text_to_micros(text) };
    match convert_plain_rows(values, nulls, n, convert, Ghost(time_text_value())) {
        Ok(out) => Ok(ColumnValues::Int64(out)),
        Err(e) => Err(e),
    }
}

fn decode_timestamps_tz(values: &Vec<Vec<u8>>, nulls: &Vec<bool>, n: usize, unit: TimeUnit) -> (result:
    Result<ColumnValues, ExportError>)
    requires
        n <= values.len(),
        n <= nulls.len(),
    ensures
        values_model(result) == int64s(
            converted_rows(values@, nulls@, n as int, timestamp_tz_value(unit)),
        ),
{
    let convert = |text: &Vec<u8>| -> (r: Result<i64, ExportError>)
        ensures
            r == timestamp_tz_value(unit)(*text),
        { timestamp_tz_text_to_utc(text, unit) };
    match convert_plain_rows(values, nulls, n, convert, Ghost(timestamp_tz_value(unit))) {
        Ok(out) => Ok(ColumnValues::Int64(out)),
        Err(e) => Err(e),
    }
}

fn decode_int64_text(values: &Vec<Vec<u8>>, nulls: &Vec<bool>, n: usize, signed: bool) -> (result:
    Result<ColumnValues, ExportError>)
    requires
        n <= values.len(),
        n <= nulls.len(),
    ensures
        values_model(result) == int64s(
            converted_rows(values@, nulls@, n as int, int64_text_value(signed)),
        ),
{
    let convert = |text: &Vec<u8>| -> (r: Result<i64, ExportError>)
        ensures
            r == int64_text_value(signed)(*text),
        { parse_int64_text(text, signed) };
    match convert_plain_rows(values, nulls, n, convert, Ghost(int64_text_value(signed))) {
        Ok(out) => Ok(ColumnValues::Int64(out)),
        Err(e) => Err(e),
    }
}

fn decode_text(values: &Vec<Vec<u8>>, nulls: &Vec<bool>, n: usize, max_bytes: usize) -> (result:
    Result<ColumnValues, ExportError>)
    requires
        n <= values.len(),
        n <= nulls.len(),
    ensures
        values_model(result) == byte_arrays(
            converted_rows(values@, nulls@, n as int, text_value(max_bytes)),
        ),
{
    let convert = |text: &Vec<u8>| -> (r: Result<Vec<u8>, ExportError>)
        ensures
            r is Ok,
            text_value(max_bytes)(*text) == Ok::<Seq<u8>, ExportError>(r->Ok_0@),
        {
            let cut = utf8_prefix_len(text, max_bytes);
            Ok(byte_prefix(text, cut))
        };
    match convert_rows::<Vec<u8>, Vec<u8>, Seq<u8>, _>(
        values,
        nulls,
        n,
        convert,
        Ghost(text_value(max_bytes)),
        Ghost(bytes_view()),
    ) {
        Ok(out) => Ok(ColumnValues::ByteArray(out)),
        Err(e) => Err(e),
    }
}

fn decode_wide_text(values: &Vec<Vec<u16>>, nulls: &Vec<bool>, n: usize, max_units: usize) -> (result:
    Result<ColumnValues, ExportError>)
    requires
        n <= values.len(),
        n <= nulls.len(),
    ensures
        values_model(result) == byte_arrays(
            converted_rows(values@, nulls@, n as int, wide_text_value(max_units)),
        ),
{
    let convert = |text: &Vec<u16>| -> (r: Result<Vec<u8>, ExportError>)
        ensures
            match r {
                Ok(bytes) => wide_text_value(max_units)(*text) == Ok::<Seq<u8>, ExportError>(
                    bytes@,
                ),
                Err(e) => wide_text_value(max_units)(*text) == Err::<Seq<u8>, ExportError>(e),
            },
        {
            let cut = utf16_prefix_len(text, max_units);
            utf16_to_utf8(text, cut)
        };
    match convert_rows::<Vec<u16>, Vec<u8>, Seq<u8>, _>(
        values,
        nulls,
        n,
        convert,
        Ghost(wide_text_value(max_units)),
        Ghost(bytes_view()),
    ) {
        Ok(out) => Ok(ColumnValues::ByteArray(out)),
        Err(e) => Err(e),
    }
}

fn decode_binary(
    values: &Vec<Vec<u8>>,
    nulls: &Vec<bool>,
    n: usize,
    fixed: bool,
    length: usize,
) -> (result: Result<ColumnValues, ExportError>)
    requires
        n <= values.len(),
        n <= nulls.len(),
    ensures
        values_model(result) == (if fixed {
            fixed_byte_arrays(
                converted_rows(values@, nulls@, n as int, binary_value(fixed, length)),
            )
        } else {
            byte_arrays(converted_rows(values@, nulls@, n as int, binary_value(fixed, length)))
        }),
{
    let convert = |bytes: &Vec<u8>| -> (r: Result<Vec<u8>, ExportError>)
        ensures
            match r {
                Ok(out) => binary_value(fixed, length)(*bytes) == Ok::<Seq<u8>, ExportError>(
                    out@,
                ),
                Err(e) => binary_value(fixed, length)(*bytes) == Err::<Seq<u8>, ExportError>(e),
            },
        {
            if fixed && bytes.len() != length {
                Err(ExportError::ValueOutOfRange)
            } else if bytes.len() <= length {
                let copy = byte_prefix(bytes, bytes.len());
                assert(bytes@.take(bytes@.len() as int) =~= bytes@);
                Ok(copy)
            } else {
                Ok(byte_prefix(bytes, length))
            }
        };
    match convert_rows::<Vec<u8>, Vec<u8>, Seq<u8>, _>(
        values,
        nulls,
        n,
        convert,
        Ghost(binary_value(fixed, length)),
        Ghost(bytes_view()),
    ) {
        Ok(out) => if fixed {
            Ok(ColumnValues::FixedLenByteArray(out))
        } else {
            Ok(ColumnValues::ByteArray(out))
        },
        Err(e) => Err(e),
    }
}

/// The values of a decimal column of `precision` digits, stored in the
/// smallest integer type that holds them, or in sixteen bytes where none
/// does.
pub open spec fn decimal_column<In>(
    values: Seq<In>,
    nulls: Seq<bool>,
    n: int,
    precision: u8,
    convert: spec_fn(In) -> Result<int, ExportError>,
) -> Result<ValuesModel, ExportError> {
    if precision <= 9 {
        int32s(converted_rows(values, nulls, n, stored_as_int32(convert)))
    } else if precision <= 18 {
        int64s(converted_rows(values, nulls, n, stored_as_int64(convert)))
    } else {
        fixed_byte_arrays(converted_rows(values, nulls, n, stored_as_bytes(convert)))
    }
}

fn decode_decimal_text(
    values: &Vec<Vec<u8>>,
    nulls: &Vec<bool>,
    n: usize,
    precision: u8,
    scale: u8,
) -> (result: Result<ColumnValues, ExportError>)
    requires
        n <= values.len(),
        n <= nulls.len(),
        1 <= precision <= 38,
        scale <= precision,
    ensures
        values_model(result) == decimal_column(
            values@,
            nulls@,
            n as int,
            precision,
            decimal_text_value(precision, scale),
        ),
{
    if precision <= 9 {
        proof {
            lemma_pow10_monotonic(precision as nat, 9);
            reveal_with_fuel(pow10, 10);
        }
        let narrow = |text: &Vec<u8>| -> (r: Result<i32, ExportError>)
            ensures
                r == stored_as_int32(decimal_text_value(precision, scale))(*text),
            {
                match parse_decimal_text(text, precision, scale) {
                    Ok(x) => Ok(x as i32),
                    Err(e) => Err(e),
                }
            };
        match convert_plain_rows(
            values,
            nulls,
            n,
            narrow,
            Ghost(stored_as_int32(decimal_text_value(precision, scale))),
        ) {
            Ok(out) => Ok(ColumnValues::Int32(out)),
            Err(e) => Err(e),
        }
    } else if precision <= 18 {
        proof {
            lemma_pow10_monotonic(precision as nat, 18);
            reveal_with_fuel(pow10, 19);
        }
        let narrow = |text: &Vec<u8>| -> (r: Result<i64, ExportError>)
            ensures
                r == stored_as_int64(decimal_text_value(precision, scale))(*text),
            {
                match parse_decimal_text(text, precision, scale) {
                    Ok(x) => Ok(x as i64),
                    Err(e) => Err(e),
                }
            };
        match convert_plain_rows(
            values,
            nulls,
            n,
            narrow,
            Ghost(stored_as_int64(decimal_text_value(precision, scale))),
        ) {
            Ok(out) => Ok(ColumnValues::Int64(out)),
            Err(e) => Err(e),
        }
    } else {
        let encode = |text: &Vec<u8>| -> (r: Result<Vec<u8>, ExportError>)
            ensures
                match r {
                    Ok(bytes) => stored_as_bytes(decimal_text_value(precision, scale))(*text) == Ok::<
                        Seq<u8>,
                        ExportError,
                    >(bytes@),
                    Err(e) => stored_as_bytes(decimal_text_value(precision, scale))(*text) == Err::<
                        Seq<u8>,
                        ExportError,
                    >(e),
                },
            {
                match parse_decimal_text(text, precision, scale) {
                    Ok(x) => Ok(decimal_to_be_bytes(x)),
                    Err(e) => Err(e),
                }
            };
        match convert_rows::<Vec<u8>, Vec<u8>, Seq<u8>, _>(
            values,
            nulls,
            n,
            encode,
            Ghost(stored_as_bytes(decimal_text_value(precision, scale))),
            Ghost(bytes_view()),
        ) {
            Ok(out) => Ok(ColumnValues::FixedLenByteArray(out)),
            Err(e) => Err(e),
        }
    }
}

fn decode_numerics(
    values: &Vec<Numeric>,
    nulls: &Vec<bool>,
    n: usize,
    precision: u8,
    scale: u8,
) -> (result: Result<ColumnValues, ExportError>)
    requires
        n <= values.len(),
        n <= nulls.len(),
        1 <= precision <= 38,
        scale <= precision,
    ensures
        values_model(result) == decimal_column(
            values@,
            nulls@,
            n as int,
            precision,
            numeric_value(precision, scale),
        ),
{
    if precision <= 9 {
        proof {
            lemma_pow10_monotonic(precision as nat, 9);
            reveal_with_fuel(pow10, 10);
        }
        let narrow = |number: &Numeric| -> (r: Result<i32, ExportError>)
            ensures
                r == stored_as_int32(numeric_value(precision, scale))(*number),
            {
                match rescale_numeric(*number, precision, scale) {
                    Ok(x) => Ok(x as i32),
                    Err(e) => Err(e),
                }
            };
        match convert_plain_rows(
            values,
            nulls,
            n,
            narrow,
            Ghost(stored_as_int32(numeric_value(precision, scale))),
        ) {
            Ok(out) => Ok(ColumnValues::Int32(out)),
            Err(e) => Err(e),
        }
    } else if precision <= 18 {
        proof {
            lemma_pow10_monotonic(precision as nat, 18);
            reveal_with_fuel(pow10, 19);
        }
        let narrow = |number: &Numeric| -> (r: Result<i64, ExportError>)
            ensures
                r == stored_as_int64(numeric_value(precision, scale))(*number),
            {
                match rescale_numeric(*number, precision, scale) {
                    Ok(x) => Ok(x as i64),
                    Err(e) => Err(e),
                }
            };
        match convert_plain_rows(
            values,
            nulls,
            n,
            narrow,
            Ghost(stored_as_int64(numeric_value(precision, scale))),
        ) {
            Ok(out) => Ok(ColumnValues::Int64(out)),
            Err(e) => Err(e),
        }
    } else {
        let encode = |number: &Numeric| -> (r: Result<Vec<u8>, ExportError>)
            ensures
                match r {
                    Ok(bytes) => stored_as_bytes(numeric_value(precision, scale))(*number) == Ok::<
                        Seq<u8>,
                        ExportError,
                    >(bytes@),
                    Err(e) => stored_as_bytes(numeric_value(precision, scale))(*number) == Err::<
                        Seq<u8>,
                        ExportError,
                    >(e),
                },
            {
                match rescale_numeric(*number, precision, scale) {
                    Ok(x) => Ok(decimal_to_be_bytes(x)),
                    Err(e) => Err(e),
                }
            };
        match convert_rows::<Numeric, Vec<u8>, Seq<u8>, _>(
            values,
            nulls,
            n,
            encode,
            Ghost(stored_as_bytes(numeric_value(precision, scale))),
            Ghost(bytes_view()),
        ) {
            Ok(out) => Ok(ColumnValues::FixedLenByteArray(out)),
            Err(e) => Err(e),
        }
    }
}

/// What the first `n` rows of `column` become under `strategy`: the values
/// of the rows that are not NULL, converted as the strategy says, or the
/// error of the first row that cannot be converted. A column that is not
/// bound the way the strategy binds it, or holds fewer rows, cannot be
/// decoded at all.
#[verifier::opaque]
pub open spec fn spec_decode(strategy: ColumnStrategy, column: &BoundColumn, n: usize) -> Result<
    ValuesModel,
    ExportError,
> {
    let nulls = column.nulls@;
    if !column.holds(strategy.buffer_kind(), n) {
        Err(ExportError::FetchFailure)
    } else {
        match (strategy, column.values) {
            (ColumnStrategy::Boolean, ColumnBuffer::Bit(v)) => booleans(
                converted_rows(v@, nulls, n as int, bit_value()),
            ),
            (
                ColumnStrategy::Identical { kind: Passthrough::Int32 { .. } },
                ColumnBuffer::Int32(v),
            ) => int32s(converted_rows(v@, nulls, n as int, same_value())),
            (
                ColumnStrategy::Identical { kind: Passthrough::Int64 { .. } },
                ColumnBuffer::Int64(v),
            ) => int64s(converted_rows(v@, nulls, n as int, same_value())),
            (ColumnStrategy::Identical { kind: Passthrough::Float }, ColumnBuffer::Float(v)) => floats(
                converted_rows(v@, nulls, n as int, same_value()),
            ),
            (
                ColumnStrategy::Identical { kind: Passthrough::Double },
                ColumnBuffer::Double(v),
            ) => doubles(converted_rows(v@, nulls, n as int, same_value())),
            (ColumnStrategy::Int64FromText { signed }, ColumnBuffer::Text(v)) => int64s(
                converted_rows(v@, nulls, n as int, int64_text_value(signed)),
            ),
            (ColumnStrategy::Decimal { precision, scale, .. }, ColumnBuffer::Text(v)) => decimal_column(
                v@,
                nulls,
                n as int,
                precision,
                decimal_text_value(precision, scale),
            ),
            (
                ColumnStrategy::Decimal { precision, scale, .. },
                ColumnBuffer::Numeric(v),
            ) => decimal_column(v@, nulls, n as int, precision, numeric_value(precision, scale)),
            (ColumnStrategy::Date, ColumnBuffer::Date(v)) => int32s(
                converted_rows(v@, nulls, n as int, date_value()),
            ),
            (ColumnStrategy::Time { .. }, ColumnBuffer::Time(v)) => int64s(
                converted_rows(v@, nulls, n as int, time_value()),
            ),
            (ColumnStrategy::Time { .. }, ColumnBuffer::Text(v)) => int64s(
                converted_rows(v@, nulls, n as int, time_text_value()),
            ),
            (ColumnStrategy::Timestamp { unit }, ColumnBuffer::Timestamp(v)) => int64s(
                converted_rows(v@, nulls, n as int, timestamp_value(unit)),
            ),
            (ColumnStrategy::TimestampTz { unit }, ColumnBuffer::Text(v)) => int64s(
                converted_rows(v@, nulls, n as int, timestamp_tz_value(unit)),
            ),
            (ColumnStrategy::Binary { fixed, length }, ColumnBuffer::Binary(v)) => if fixed {
                fixed_byte_arrays(
                    converted_rows(v@, nulls, n as int, binary_value(fixed, length)),
                )
            } else {
                byte_arrays(converted_rows(v@, nulls, n as int, binary_value(fixed, length)))
            },
            (ColumnStrategy::Text { max_chars, .. }, ColumnBuffer::Text(v)) => byte_arrays(
                converted_rows(v@, nulls, n as int, text_value((4 * max_chars) as usize)),
            ),
            (ColumnStrategy::Text { max_chars, .. }, ColumnBuffer::WideText(v)) => byte_arrays(
                converted_rows(v@, nulls, n as int, wide_text_value((2 * max_chars) as usize)),
            ),
            _ => Err(ExportError::FetchFailure),
        }
    }
}

impl ColumnStrategy {
    /// Transcodes the first `num_rows` rows of `column` into a column chunk:
    /// the definition levels of all rows, and the converted values of those
    /// that are not NULL. Fails with the error of the first row that cannot
    /// be converted, and with `FetchFailure` where the column is not bound
    /// the way the strategy binds it or holds fewer rows.
    pub fn decode(&self, column: &BoundColumn, num_rows: usize) -> (result: Result<
        ColumnChunk,
        ExportError,
    >)
        requires
            self.wf(),
        ensures
            match result {
                Ok(chunk) => spec_decode(*self, column, num_rows) == Ok::<
                    ValuesModel,
                    ExportError,
                >(chunk.values@) && chunk.definition_levels@ == spec_definition_levels(
                    column.nulls@,
                    num_rows as int,
                ),
                Err(e) => spec_decode(*self, column, num_rows) == Err::<ValuesModel, ExportError>(
                    e,
                ),
            },
    {
        reveal(spec_decode);
        if num_rows > column.nulls.len() || num_rows > column.values.len() || column.values.kind()
            != self.buffer_kind() {
            return Err(ExportError::FetchFailure);
        }
        let nulls = &column.nulls;
        let values = match (*self, &column.values) {
            (ColumnStrategy::Boolean, ColumnBuffer::Bit(v)) => decode_bits(v, nulls, num_rows),
            (
                ColumnStrategy::Identical { kind: Passthrough::Int32 { .. } },
                ColumnBuffer::Int32(v),
            ) => copy_int32(v, nulls, num_rows),
            (
                ColumnStrategy::Identical { kind: Passthrough::Int64 { .. } },
                ColumnBuffer::Int64(v),
            ) => copy_int64(v, nulls, num_rows),
            (
                ColumnStrategy::Identical { kind: Passthrough::Float },
                ColumnBuffer::Float(v),
            ) => copy_float(v, nulls, num_rows),
            (
                ColumnStrategy::Identical { kind: Passthrough::Double },
                ColumnBuffer::Double(v),
            ) => copy_double(v, nulls, num_rows),
            (ColumnStrategy::Int64FromText { signed }, ColumnBuffer::Text(v)) => decode_int64_text(
                v,
                nulls,
                num_rows,
                signed,
            ),
            (
                ColumnStrategy::Decimal { precision, scale, .. },
                ColumnBuffer::Text(v),
            ) => decode_decimal_text(v, nulls, num_rows, precision, scale),
            (
                ColumnStrategy::Decimal { precision, scale, .. },
                ColumnBuffer::Numeric(v),
            ) => decode_numerics(v, nulls, num_rows, precision, scale),
            (ColumnStrategy::Date, ColumnBuffer::Date(v)) => decode_dates(v, nulls, num_rows),
            (ColumnStrategy::Time { .. }, ColumnBuffer::Time(v)) => decode_times(v, nulls, num_rows),
            (ColumnStrategy::Time { .. }, ColumnBuffer::Text(v)) => decode_time_text(
                v,
                nulls,
                num_rows,
            ),
            (ColumnStrategy::Timestamp { unit }, ColumnBuffer::Timestamp(v)) => decode_timestamps(
                v,
                nulls,
                num_rows,
                unit,
            ),
            (ColumnStrategy::TimestampTz { unit }, ColumnBuffer::Text(v)) => decode_timestamps_tz(
                v,
                nulls,
                num_rows,
                unit,
            ),
            (ColumnStrategy::Binary { fixed, length }, ColumnBuffer::Binary(v)) => decode_binary(
                v,
                nulls,
                num_rows,
                fixed,
                length,
            ),
            (ColumnStrategy::Text { max_chars, .. }, ColumnBuffer::Text(v)) => decode_text(
                v,
                nulls,
                num_rows,
                4 * max_chars,
            ),
            (ColumnStrategy::Text { max_chars, .. }, ColumnBuffer::WideText(v)) => decode_wide_text(
                v,
                nulls,
                num_rows,
                2 * max_chars,
            ),
            _ => Err(ExportError::FetchFailure),
        };
        match values {
            Ok(values) => Ok(
                ColumnChunk { definition_levels: definition_levels(nulls, num_rows), values },
            ),
            Err(e) => Err(e),
        }
    }
}

/// The number of rows among the first `n` that hold a value of more than
/// `max_len` elements.
pub open spec fn over_long_count<T>(values: Seq<Vec<T>>, nulls: Seq<bool>, n: int, max_len: int) -> nat
    decreases n,
{
    if n <= 0 {
        0
    } else {
        over_long_count(values, nulls, n - 1, max_len) + if !nulls[n - 1] && values[n - 1]@.len()
            > max_len {
            1nat
        } else {
            0nat
        }
    }
}

/// Text that its column holds is written as it is: a value is cut only
/// where it is over long.
pub proof fn lemma_text_that_fits_is_kept(text: Vec<u8>, wide: Vec<u16>, max_len: usize)
    ensures
        text@.len() <= max_len ==> text_value(max_len)(text) == Ok::<Seq<u8>, ExportError>(text@),
        wide@.len() <= max_len ==> wide_text_value(max_len)(wide) == (match spec_utf16_to_utf8(
            wide@,
        ) {
            Some(bytes) => Ok::<Seq<u8>, ExportError>(bytes),
            None => Err::<Seq<u8>, ExportError>(ExportError::ValueOutOfRange),
        }),
        text@.len() <= max_len ==> binary_value(false, max_len)(text) == Ok::<
            Seq<u8>,
            ExportError,
        >(text@),
{
    assert(text@.take(text@.len() as int) =~= text@);
    assert(wide@.take(wide@.len() as int) =~= wide@);
}

fn count_over_long<T>(values: &Vec<Vec<T>>, nulls: &Vec<bool>, n: usize, max_len: usize) -> (count:
    usize)
    requires
        n <= values.len(),
        n <= nulls.len(),
    ensures
        count == over_long_count(values@, nulls@, n as int, max_len as int),
        count <= n,
{
    let mut count: usize = 0;
    let mut i: usize = 0;
    while i < n
        invariant
            i <= n <= values.len(),
            n <= nulls.len(),
            count <= i,
            count == over_long_count(values@, nulls@, i as int, max_len as int),
        decreases n - i,
    {
        if !nulls[i] && values[i].len() > max_len {
            count += 1;
        }
        i += 1;
    }
    count
}

/// The number of values among the first `n` rows of `column` that are
/// longer than the column under `strategy` holds, and are cut when they are
/// transcoded: text and binary data of variable length. Zero for every
/// other column.
pub open spec fn spec_over_long_rows(strategy: ColumnStrategy, column: &BoundColumn, n: usize) -> nat {
    if !column.holds(strategy.buffer_kind(), n) {
        0
    } else {
        match (strategy, column.values) {
            (ColumnStrategy::Text { max_chars, .. }, ColumnBuffer::Text(v)) => over_long_count(
                v@,
                column.nulls@,
                n as int,
                4 * max_chars,
            ),
            (ColumnStrategy::Text { max_chars, .. }, ColumnBuffer::WideText(v)) => over_long_count(
                v@,
                column.nulls@,
                n as int,
                2 * max_chars,
            ),
            (
                ColumnStrategy::Binary { fixed: false, length },
                ColumnBuffer::Binary(v),
            ) => over_long_count(v@, column.nulls@, n as int, length as int),
            _ => 0,
        }
    }
}

impl ColumnStrategy {
    /// Counts the values among the first `num_rows` rows of `column` that
    /// are cut when the column is transcoded, so that the caller can warn of
    /// them. Cutting a value is never an error.
    pub fn over_long_rows(&self, column: &BoundColumn, num_rows: usize) -> (count: usize)
        requires
            self.wf(),
        ensures
            count == spec_over_long_rows(*self, column, num_rows),
    {
        if num_rows > column.nulls.len() || num_rows > column.values.len() || column.values.kind()
            != self.buffer_kind() {
            return 0;
        }
        match (*self, &column.values) {
            (ColumnStrategy::Text { max_chars, .. }, ColumnBuffer::Text(v)) => count_over_long(
                v,
                &column.nulls,
                num_rows,
                4 * max_chars,
            ),
            (ColumnStrategy::Text { max_chars, .. }, ColumnBuffer::WideText(v)) => count_over_long(
                v,
                &column.nulls,
                num_rows,
                2 * max_chars,
            ),
            (
                ColumnStrategy::Binary { fixed: false, length },
                ColumnBuffer::Binary(v),
            ) => count_over_long(v, &column.nulls, num_rows, length),
            _ => 0,
        }
    }
}

} // verus!
