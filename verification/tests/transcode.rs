use odbc2parquet::column_strategy::{
    ColumnDescriptor, ColumnStrategy, MappingOptions, Passthrough, SqlType,
};
use odbc2parquet::conversion_strategy::{find_encoding_override, ConversionStrategy};
use odbc2parquet::date::Date;
use odbc2parquet::decimal::Numeric;
use odbc2parquet::error::ExportError;
use odbc2parquet::fetch_batch::{BoundColumn, BufferKind, ColumnBuffer, RowBatch};
use odbc2parquet::time::Time;
use odbc2parquet::timestamp::Timestamp;
use odbc2parquet::timestamp_precision::TimeUnit;
use odbc2parquet::transcode::{definition_levels, ColumnChunk, ColumnValues};
use parquet::basic::Encoding;

fn bound(nulls: &[bool], values: ColumnBuffer) -> BoundColumn {
    BoundColumn { nulls: nulls.to_vec(), values }
}

fn decoded(strategy: ColumnStrategy, nulls: &[bool], values: ColumnBuffer) -> ColumnChunk {
    strategy.decode(&bound(nulls, values), nulls.len()).unwrap()
}

fn failure(strategy: ColumnStrategy, nulls: &[bool], values: ColumnBuffer) -> ExportError {
    strategy.decode(&bound(nulls, values), nulls.len()).unwrap_err()
}

fn rows(texts: &[&str]) -> Vec<Vec<u8>> {
    texts.iter().map(|t| t.as_bytes().to_vec()).collect()
}

fn descriptor(index: usize, name: &str, sql_type: SqlType, nullable: bool) -> ColumnDescriptor {
    ColumnDescriptor {
        index,
        name: String::from(name),
        sql_type,
        nullable,
        declared_size: Some(5),
        precision: 5,
        scale: 2,
        timestamp_precision: 3,
        with_timezone: false,
    }
}

fn options() -> MappingOptions {
    MappingOptions {
        db_name: String::from("SQLite"),
        use_utf16: false,
        prefer_varbinary: false,
        avoid_decimal: false,
        driver_supports_i64: true,
        column_length_limit: 4096,
    }
}

#[test]
fn definition_levels_mark_nulls() {
    assert_eq!(definition_levels(&vec![false, true, false, false, true], 5), vec![1, 0, 1, 1, 0]);
    assert_eq!(definition_levels(&vec![false, true, false], 2), vec![1, 0]);
    assert_eq!(definition_levels(&vec![true], 0), Vec::<i16>::new());
}

#[test]
fn bits_become_booleans_and_nulls_take_no_place() {
    let chunk = decoded(
        ColumnStrategy::Boolean,
        &[false, true, false, false],
        ColumnBuffer::Bit(vec![1, 77, 0, 2]),
    );
    assert_eq!(chunk.definition_levels, vec![1, 0, 1, 1]);
    assert!(matches!(chunk.values, ColumnValues::Boolean(v) if v == vec![true, false, true]));
}

#[test]
fn only_the_valid_rows_are_decoded() {
    let column = bound(&[false, false, true, false], ColumnBuffer::Int32(vec![1, 2, 3, 4]));
    let s = ColumnStrategy::Identical { kind: Passthrough::Int32 { bit_width: 32, signed: true } };
    let chunk = s.decode(&column, 2).unwrap();
    assert_eq!(chunk.definition_levels, vec![1, 1]);
    assert!(matches!(chunk.values, ColumnValues::Int32(v) if v == vec![1, 2]));
    let chunk = s.decode(&column, 0).unwrap();
    assert!(chunk.definition_levels.is_empty());
    assert!(matches!(chunk.values, ColumnValues::Int32(v) if v.is_empty()));
}

#[test]
fn numbers_are_copied() {
    let nulls = [false, true, false];
    let s = ColumnStrategy::Identical { kind: Passthrough::Int32 { bit_width: 8, signed: false } };
    let chunk = decoded(s, &nulls, ColumnBuffer::Int32(vec![-1, 0, i32::MAX]));
    assert!(matches!(chunk.values, ColumnValues::Int32(v) if v == vec![-1, i32::MAX]));
    let s = ColumnStrategy::Identical { kind: Passthrough::Int64 { signed: true } };
    let chunk = decoded(s, &nulls, ColumnBuffer::Int64(vec![i64::MIN, 0, 7]));
    assert!(matches!(chunk.values, ColumnValues::Int64(v) if v == vec![i64::MIN, 7]));
    let s = ColumnStrategy::Identical { kind: Passthrough::Float };
    let bits = [1.5f32.to_bits(), 0, f32::NAN.to_bits()];
    let chunk = decoded(s, &nulls, ColumnBuffer::Float(bits.to_vec()));
    assert!(matches!(chunk.values, ColumnValues::Float(v) if v == vec![bits[0], bits[2]]));
    let s = ColumnStrategy::Identical { kind: Passthrough::Double };
    let bits = [(-2.25f64).to_bits(), 0, f64::INFINITY.to_bits()];
    let chunk = decoded(s, &nulls, ColumnBuffer::Double(bits.to_vec()));
    assert!(matches!(&chunk.values, ColumnValues::Double(v) if *v == vec![bits[0], bits[2]]));
    if let ColumnValues::Double(v) = chunk.values {
        assert_eq!(f64::from_bits(v[0]), -2.25);
    }
}

#[test]
fn dates_times_and_timestamps_are_converted() {
    let d = |y, m, day| Date { year: y, month: m, day };
    let t = |h, mi, s, f| Time { hour: h, minute: mi, second: s, fraction: f };
    let chunk = decoded(
        ColumnStrategy::Date,
        &[false, false, true],
        ColumnBuffer::Date(vec![d(1970, 1, 1), d(2000, 1, 1), d(0, 0, 0)]),
    );
    assert!(matches!(chunk.values, ColumnValues::Int32(v) if v == vec![0, 10957]));
    let chunk = decoded(
        ColumnStrategy::Time { fractional_digits: 0 },
        &[false],
        ColumnBuffer::Time(vec![t(0, 0, 1, 0)]),
    );
    assert!(matches!(chunk.values, ColumnValues::Int64(v) if v == vec![1_000_000]));
    let chunk = decoded(
        ColumnStrategy::Time { fractional_digits: 7 },
        &[false, true, false],
        ColumnBuffer::Text(rows(&["00:00:01.0000025", "", "23:59:59.9999999"])),
    );
    assert!(matches!(chunk.values, ColumnValues::Int64(v) if v == vec![1_000_002, 86_399_999_999]));
    let ts = Timestamp { date: d(2001, 9, 9), time: t(1, 46, 40, 0) };
    let chunk = decoded(
        ColumnStrategy::Timestamp { unit: TimeUnit::Micros },
        &[false],
        ColumnBuffer::Timestamp(vec![ts]),
    );
    assert!(matches!(chunk.values, ColumnValues::Int64(v) if v == vec![1_000_000_000_000_000]));
    let chunk = decoded(
        ColumnStrategy::TimestampTz { unit: TimeUnit::Millis },
        &[false],
        ColumnBuffer::Text(rows(&["2001-09-09 01:46:40.0000000 +02:00"])),
    );
    assert!(matches!(chunk.values, ColumnValues::Int64(v) if v == vec![999_992_800_000]));
    let e = failure(
        ColumnStrategy::TimestampTz { unit: TimeUnit::Millis },
        &[false],
        ColumnBuffer::Text(rows(&["2001-09-09 01:46:40"])),
    );
    assert_eq!(e, ExportError::ValueOutOfRange);
    let e = failure(
        ColumnStrategy::Time { fractional_digits: 3 },
        &[false],
        ColumnBuffer::Text(rows(&["24:00:00.000"])),
    );
    assert_eq!(e, ExportError::ValueOutOfRange);
}

#[test]
fn a_null_slot_is_never_converted() {
    // The slot of a NULL holds whatever the driver left; it must not fail the batch.
    let chunk = decoded(
        ColumnStrategy::Date,
        &[true, false],
        ColumnBuffer::Date(vec![
            Date { year: 0, month: 99, day: 99 },
            Date { year: 1970, month: 1, day: 11 },
        ]),
    );
    assert_eq!(chunk.definition_levels, vec![0, 1]);
    assert!(matches!(chunk.values, ColumnValues::Int32(v) if v == vec![10]));
}

#[test]
fn the_first_row_that_fails_decides_the_error() {
    let e = failure(
        ColumnStrategy::Date,
        &[false, false],
        ColumnBuffer::Date(vec![
            Date { year: 1970, month: 1, day: 1 },
            Date { year: 1970, month: 2, day: 30 },
        ]),
    );
    assert_eq!(e, ExportError::ValueOutOfRange);
    let s = ColumnStrategy::Decimal { precision: 5, scale: 2, from_text: true };
    let e = failure(s, &[false, false, false], ColumnBuffer::Text(rows(&["1.5", "1.555", "1e9"])));
    assert_eq!(e, ExportError::PrecisionLoss);
    let e = failure(s, &[false, false, false], ColumnBuffer::Text(rows(&["1.5", "99999", "1.555"])));
    assert_eq!(e, ExportError::ValueOutOfRange);
    let chunk = decoded(s, &[false, true, false], ColumnBuffer::Text(rows(&["1.5", "1.555", "2"])));
    assert!(matches!(chunk.values, ColumnValues::Int32(v) if v == vec![150, 200]));
}

#[test]
fn big_integers_from_text() {
    let s = ColumnStrategy::Int64FromText { signed: true };
    let chunk = decoded(
        s,
        &[false, false],
        ColumnBuffer::Text(rows(&["9223372036854775807", "-5"])),
    );
    assert!(matches!(chunk.values, ColumnValues::Int64(v) if v == vec![i64::MAX, -5]));
    let e = failure(s, &[false], ColumnBuffer::Text(rows(&["9223372036854775808"])));
    assert_eq!(e, ExportError::ValueOutOfRange);
    let unsigned = ColumnStrategy::Int64FromText { signed: false };
    let chunk = decoded(unsigned, &[false], ColumnBuffer::Text(rows(&["9223372036854775808"])));
    assert!(matches!(chunk.values, ColumnValues::Int64(v) if v == vec![i64::MIN]));
}

#[test]
fn decimals_are_stored_by_precision() {
    let text = ColumnBuffer::Text(rows(&["12.5", "-0.01"]));
    let s = ColumnStrategy::Decimal { precision: 9, scale: 2, from_text: true };
    let chunk = decoded(s, &[false, false], text);
    assert!(matches!(chunk.values, ColumnValues::Int32(v) if v == vec![1250, -1]));
    let numbers = vec![
        Numeric { negative: false, scale: 2, magnitude: 1250 },
        Numeric { negative: true, scale: 3, magnitude: 10 },
    ];
    let s = ColumnStrategy::Decimal { precision: 18, scale: 2, from_text: false };
    let chunk = decoded(s, &[false, false], ColumnBuffer::Numeric(numbers.clone()));
    assert!(matches!(chunk.values, ColumnValues::Int64(v) if v == vec![1250, -1]));
    let s = ColumnStrategy::Decimal { precision: 38, scale: 2, from_text: false };
    let chunk = decoded(s, &[false, false], ColumnBuffer::Numeric(numbers));
    let expected = vec![1250i128.to_be_bytes().to_vec(), (-1i128).to_be_bytes().to_vec()];
    assert!(matches!(chunk.values, ColumnValues::FixedLenByteArray(v) if v == expected));
    let s = ColumnStrategy::Decimal { precision: 20, scale: 0, from_text: true };
    let chunk = decoded(s, &[false], ColumnBuffer::Text(rows(&["12345678901234567890"])));
    let expected = vec![12345678901234567890i128.to_be_bytes().to_vec()];
    assert!(matches!(chunk.values, ColumnValues::FixedLenByteArray(v) if v == expected));
}

#[test]
fn wide_text_becomes_utf8() {
    let hello: Vec<u16> = "hello".encode_utf16().collect();
    let s = ColumnStrategy::Text { utf16: true, max_chars: 5 };
    let chunk = decoded(s, &[false, true], ColumnBuffer::WideText(vec![hello, vec![0xD800]]));
    assert_eq!(chunk.definition_levels, vec![1, 0]);
    assert!(matches!(chunk.values, ColumnValues::ByteArray(v) if v == vec![b"hello".to_vec()]));
    let e = failure(s, &[false], ColumnBuffer::WideText(vec![vec![0x41, 0xDC00]]));
    assert_eq!(e, ExportError::ValueOutOfRange);
}

#[test]
fn over_long_text_is_cut_between_characters() {
    let s = ColumnStrategy::Text { utf16: false, max_chars: 1 };
    let chunk = decoded(
        s,
        &[false, false, false],
        ColumnBuffer::Text(rows(&["abcd", "abc\u{e9}", "\u{1f980}\u{1f980}"])),
    );
    let expected = rows(&["abcd", "abc", "\u{1f980}"]);
    assert!(matches!(chunk.values, ColumnValues::ByteArray(v) if v == expected));
    let s = ColumnStrategy::Text { utf16: true, max_chars: 1 };
    let long: Vec<u16> = "a\u{1f600}b".encode_utf16().collect();
    let chunk = decoded(s, &[false], ColumnBuffer::WideText(vec![long]));
    assert!(matches!(chunk.values, ColumnValues::ByteArray(v) if v == rows(&["a"])));
}

#[test]
fn binary_is_copied() {
    let s = ColumnStrategy::Binary { fixed: false, length: 3 };
    let chunk = decoded(
        s,
        &[false, false, true, false],
        ColumnBuffer::Binary(vec![vec![1, 2, 3, 4], vec![], vec![9], vec![0xff, 0x80]]),
    );
    let expected = vec![vec![1u8, 2, 3], vec![], vec![0xff, 0x80]];
    assert!(matches!(chunk.values, ColumnValues::ByteArray(v) if v == expected));
    let s = ColumnStrategy::Binary { fixed: true, length: 2 };
    let chunk = decoded(s, &[false], ColumnBuffer::Binary(vec![vec![7, 8]]));
    assert!(matches!(chunk.values, ColumnValues::FixedLenByteArray(v) if v == vec![vec![7u8, 8]]));
    let e = failure(s, &[false], ColumnBuffer::Binary(vec![vec![7]]));
    assert_eq!(e, ExportError::ValueOutOfRange);
    let e = failure(s, &[false], ColumnBuffer::Binary(vec![vec![7, 8, 9]]));
    assert_eq!(e, ExportError::ValueOutOfRange);
}

#[test]
fn a_buffer_of_the_wrong_kind_cannot_be_decoded() {
    assert_eq!(ColumnBuffer::Int64(vec![1]).kind(), BufferKind::Int64);
    assert_eq!(ColumnBuffer::WideText(vec![vec![], vec![]]).len(), 2);
    let e = failure(ColumnStrategy::Date, &[false], ColumnBuffer::Int32(vec![1]));
    assert_eq!(e, ExportError::FetchFailure);
    let s = ColumnStrategy::Text { utf16: true, max_chars: 5 };
    let e = failure(s, &[false], ColumnBuffer::Text(rows(&["a"])));
    assert_eq!(e, ExportError::FetchFailure);
    let s = ColumnStrategy::Decimal { precision: 5, scale: 2, from_text: true };
    let e = failure(s, &[false], ColumnBuffer::Numeric(vec![]));
    assert_eq!(e, ExportError::FetchFailure);
}

#[test]
fn a_buffer_with_too_few_rows_cannot_be_decoded() {
    let column = bound(&[false, false], ColumnBuffer::Bit(vec![1]));
    assert_eq!(ColumnStrategy::Boolean.decode(&column, 2).unwrap_err(), ExportError::FetchFailure);
    let column = bound(&[false], ColumnBuffer::Bit(vec![1, 0]));
    assert_eq!(ColumnStrategy::Boolean.decode(&column, 2).unwrap_err(), ExportError::FetchFailure);
}

#[test]
fn encoding_chosen_last_applies() {
    let overrides = vec![
        (String::from("a"), Encoding::PLAIN),
        (String::from("b"), Encoding::RLE),
        (String::from("a"), Encoding::DELTA_BINARY_PACKED),
    ];
    assert_eq!(find_encoding_override(&overrides, &String::from("a")), Some(2));
    assert_eq!(find_encoding_override(&overrides, &String::from("b")), Some(1));
    assert_eq!(find_encoding_override(&overrides, &String::from("c")), None);
    assert_eq!(find_encoding_override(&Vec::new(), &String::from("a")), None);
    assert_eq!(overrides[2].1, Encoding::DELTA_BINARY_PACKED);
}

#[test]
fn plan_keeps_the_order_of_the_columns() {
    let columns = vec![
        descriptor(0, "id", SqlType::Integer { unsigned: false }, false),
        descriptor(1, "name", SqlType::Varchar, true),
        descriptor(2, "price", SqlType::Decimal, true),
        descriptor(3, "day", SqlType::Date, true),
    ];
    let overrides = vec![(String::from("name"), Encoding::PLAIN)];
    let plan = ConversionStrategy::new(&columns, &options(), &overrides).unwrap();
    assert_eq!(
        plan.strategies,
        vec![
            ColumnStrategy::Identical { kind: Passthrough::Int32 { bit_width: 32, signed: true } },
            ColumnStrategy::Text { utf16: false, max_chars: 5 },
            ColumnStrategy::Decimal { precision: 5, scale: 2, from_text: false },
            ColumnStrategy::Date,
        ]
    );
    let schema = plan.parquet_schema();
    assert_eq!(schema.len(), 4);
    let names: Vec<&str> = schema.iter().map(|c| c.name.as_str()).collect();
    assert_eq!(names, vec!["id", "name", "price", "day"]);
    let nullable: Vec<bool> = schema.iter().map(|c| c.nullable).collect();
    assert_eq!(nullable, vec![false, true, true, true]);
    let encodings: Vec<Option<usize>> = schema.iter().map(|c| c.encoding).collect();
    assert_eq!(encodings, vec![None, Some(0), None, None]);
    for (column, strategy) in schema.iter().zip(plan.strategies.iter()) {
        assert_eq!(column.columnar_type, strategy.columnar_type());
    }
    assert_eq!(plan.per_row_bytes(), (4 + 8) + (21 + 8) + (19 + 8) + (6 + 8));
}

#[test]
fn plan_fails_with_the_first_column_that_has_no_strategy() {
    let mut bad_decimal = descriptor(1, "d", SqlType::Decimal, true);
    bad_decimal.precision = 0;
    let mut too_wide = descriptor(2, "w", SqlType::Varchar, true);
    too_wide.declared_size = Some(usize::MAX);
    let columns = vec![descriptor(0, "a", SqlType::Bit, true), too_wide, bad_decimal];
    assert_eq!(
        ConversionStrategy::new(&columns, &options(), &Vec::new()).unwrap_err(),
        ExportError::InvalidConfiguration
    );
    let columns = vec![
        descriptor(0, "a", SqlType::Other { code: 1 }, true),
        descriptor(1, "b", SqlType::Bit, true),
    ];
    assert_eq!(
        ConversionStrategy::new(&columns, &options(), &Vec::new()).unwrap_err(),
        ExportError::UnsupportedType
    );
}

#[test]
fn plan_whose_row_does_not_fit_the_address_space_is_invalid() {
    let mut a = descriptor(0, "a", SqlType::Varbinary, true);
    a.declared_size = Some(usize::MAX - 8);
    let b = descriptor(1, "b", SqlType::Bit, true);
    assert_eq!(
        ConversionStrategy::new(&vec![a, b], &options(), &Vec::new()).unwrap_err(),
        ExportError::InvalidConfiguration
    );
}

#[test]
fn plan_without_columns_costs_nothing() {
    let plan = ConversionStrategy::new(&Vec::new(), &options(), &Vec::new()).unwrap();
    assert!(plan.strategies.is_empty());
    assert!(plan.parquet_schema().is_empty());
    assert_eq!(plan.per_row_bytes(), 0);
    let group = plan.transcode(&RowBatch { num_rows: 3, columns: Vec::new() }).unwrap();
    assert_eq!(group.num_rows, 3);
    assert!(group.columns.is_empty());
}

#[test]
fn batch_becomes_one_row_group_in_schema_order() {
    let columns = vec![
        descriptor(0, "id", SqlType::Integer { unsigned: false }, false),
        descriptor(1, "name", SqlType::Varchar, true),
    ];
    let plan = ConversionStrategy::new(&columns, &options(), &Vec::new()).unwrap();
    let batch = RowBatch {
        num_rows: 3,
        columns: vec![
            bound(&[false, false, false, true], ColumnBuffer::Int32(vec![1, 2, 3, 0])),
            bound(&[false, true, false, true], ColumnBuffer::Text(rows(&["a", "", "c", ""]))),
        ],
    };
    let group = plan.transcode(&batch).unwrap();
    assert_eq!(group.num_rows, 3);
    assert_eq!(group.columns.len(), plan.parquet_schema().len());
    assert!(matches!(&group.columns[0].values, ColumnValues::Int32(v) if *v == vec![1, 2, 3]));
    assert_eq!(group.columns[0].definition_levels, vec![1, 1, 1]);
    assert!(matches!(&group.columns[1].values, ColumnValues::ByteArray(v) if *v == rows(&["a", "c"])));
    assert_eq!(group.columns[1].definition_levels, vec![1, 0, 1]);
}

#[test]
fn batch_with_another_number_of_columns_is_a_fetch_failure() {
    let columns = vec![descriptor(0, "id", SqlType::Integer { unsigned: false }, false)];
    let plan = ConversionStrategy::new(&columns, &options(), &Vec::new()).unwrap();
    let none = RowBatch { num_rows: 0, columns: Vec::new() };
    assert_eq!(plan.transcode(&none).unwrap_err(), ExportError::FetchFailure);
    let two = RowBatch {
        num_rows: 1,
        columns: vec![
            bound(&[false], ColumnBuffer::Int32(vec![1])),
            bound(&[false], ColumnBuffer::Int32(vec![1])),
        ],
    };
    assert_eq!(plan.transcode(&two).unwrap_err(), ExportError::FetchFailure);
    let swapped = RowBatch { num_rows: 1, columns: vec![bound(&[false], ColumnBuffer::Int64(vec![1]))] };
    assert_eq!(plan.transcode(&swapped).unwrap_err(), ExportError::FetchFailure);
}

#[test]
fn null_in_a_column_that_takes_none_is_out_of_range() {
    let columns = vec![descriptor(0, "id", SqlType::Integer { unsigned: false }, false)];
    let plan = ConversionStrategy::new(&columns, &options(), &Vec::new()).unwrap();
    let batch = RowBatch {
        num_rows: 2,
        columns: vec![bound(&[false, true, true], ColumnBuffer::Int32(vec![1, 2, 3]))],
    };
    assert_eq!(plan.transcode(&batch).unwrap_err(), ExportError::ValueOutOfRange);
    let batch = RowBatch {
        num_rows: 1,
        columns: vec![bound(&[false, true, true], ColumnBuffer::Int32(vec![1, 2, 3]))],
    };
    assert!(plan.transcode(&batch).is_ok());
}

#[test]
fn the_first_column_that_fails_decides_the_error() {
    let columns = vec![
        descriptor(0, "d", SqlType::Date, true),
        descriptor(1, "n", SqlType::Decimal, true),
    ];
    let mut o = options();
    o.avoid_decimal = true;
    let plan = ConversionStrategy::new(&columns, &o, &Vec::new()).unwrap();
    let batch = RowBatch {
        num_rows: 1,
        columns: vec![
            bound(&[false], ColumnBuffer::Date(vec![Date { year: 2000, month: 1, day: 1 }])),
            bound(&[false], ColumnBuffer::Text(rows(&["1.234"]))),
        ],
    };
    assert_eq!(plan.transcode(&batch).unwrap_err(), ExportError::PrecisionLoss);
    let batch = RowBatch {
        num_rows: 1,
        columns: vec![
            bound(&[false], ColumnBuffer::Date(vec![Date { year: 2000, month: 0, day: 1 }])),
            bound(&[false], ColumnBuffer::Text(rows(&["1.234"]))),
        ],
    };
    assert_eq!(plan.transcode(&batch).unwrap_err(), ExportError::ValueOutOfRange);
}

#[test]
fn over_long_values_are_counted() {
    let text = ColumnStrategy::Text { utf16: false, max_chars: 1 };
    let column = bound(
        &[false, false, true, false, false],
        ColumnBuffer::Text(rows(&["abcd", "abcde", "abcdefgh", "", "\u{1f980}\u{1f980}"])),
    );
    assert_eq!(text.over_long_rows(&column, 5), 2);
    assert_eq!(text.over_long_rows(&column, 4), 1);
    assert_eq!(text.over_long_rows(&column, 1), 0);
    assert_eq!(text.over_long_rows(&column, 6), 0);
    let wide = ColumnStrategy::Text { utf16: true, max_chars: 1 };
    let long: Vec<u16> = "abc".encode_utf16().collect();
    let column = bound(&[false, false], ColumnBuffer::WideText(vec![long, vec![0x61, 0x62]]));
    assert_eq!(wide.over_long_rows(&column, 2), 1);
    assert_eq!(text.over_long_rows(&column, 2), 0);
    let binary = ColumnStrategy::Binary { fixed: false, length: 2 };
    let column = bound(&[false, false], ColumnBuffer::Binary(vec![vec![1, 2, 3], vec![1, 2]]));
    assert_eq!(binary.over_long_rows(&column, 2), 1);
    let fixed = ColumnStrategy::Binary { fixed: true, length: 2 };
    assert_eq!(fixed.over_long_rows(&column, 2), 0);
    let column = bound(&[false], ColumnBuffer::Int32(vec![1]));
    assert_eq!(ColumnStrategy::Date.over_long_rows(&column, 1), 0);
}
