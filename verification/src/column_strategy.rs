//! The registry of column strategies: which conversion a result column gets,
//! what its fetch buffer costs per row, and which columnar type it targets.

use vstd::prelude::*;
use vstd::string::StringExecFns;
use crate::error::ExportError;
use crate::timestamp_precision::TimeUnit;

verus! {

/// The SQL type of a result column as the driver reports it.
#[derive(Debug, Clone, Copy, PartialEq, Eq, Structural)]
pub enum SqlType {
    /// A single bit.
    Bit,
    /// An 8-bit integer.
    TinyInt { unsigned: bool },
    /// A 16-bit integer.
    SmallInt { unsigned: bool },
    /// A 32-bit integer.
    Integer { unsigned: bool },
    /// A 64-bit integer.
    BigInt { unsigned: bool },
    /// Single precision floating point.
    Real,
    /// Floating point of driver-defined precision.
    Float,
    /// Double precision floating point.
    Double,
    /// Exact numeric with precision and scale.
    Numeric,
    /// Exact numeric with precision and scale.
    Decimal,
    /// A calendar date.
    Date,
    /// A time of day.
    Time,
    /// A date with a time of day.
    Timestamp,
    /// Text of fixed length.
    Char,
    /// Text of variable length.
    Varchar,
    /// Text of variable, driver-defined length.
    LongVarchar,
    /// Wide text of fixed length.
    WChar,
    /// Wide text of variable length.
    WVarchar,
    /// Wide text of variable, driver-defined length.
    WLongVarchar,
    /// Bytes of fixed length.
    Binary,
    /// Bytes of variable length.
    Varbinary,
    /// Bytes of variable, driver-defined length.
    LongVarbinary,
    /// A type outside the standard, by the driver's own code.
    Other { code: i16 },
}

/// What the driver tells about one column of a result set.
#[derive(Debug)]
pub struct ColumnDescriptor {
    /// Position in the result set, counted from zero.
    pub index: usize,
    /// Name to display.
    pub name: String,
    /// SQL type as reported.
    pub sql_type: SqlType,
    /// Whether the column may hold NULL.
    pub nullable: bool,
    /// Length in characters or bytes, where the type declares one.
    pub declared_size: Option<usize>,
    /// Number of decimal digits of an exact numeric.
    pub precision: u8,
    /// Number of those digits behind the decimal point.
    pub scale: u8,
    /// Digits of the fractional seconds of a time or timestamp.
    pub timestamp_precision: u8,
    /// Whether a timestamp carries an offset from UTC.
    pub with_timezone: bool,
}

/// Switches that bend the mapping from SQL types to strategies.
#[derive(Debug)]
pub struct MappingOptions {
    /// Name of the database management system, as the driver reports it.
    /// Selects fallbacks for drivers known to report types of their own.
    pub db_name: String,
    /// Bind text as UTF-16 rather than UTF-8.
    pub use_utf16: bool,
    /// Emit fixed-length binary columns as variable byte arrays.
    pub prefer_varbinary: bool,
    /// Bind exact numerics as text rather than as fixed-point numbers.
    pub avoid_decimal: bool,
    /// Whether the driver can bind 64-bit integers.
    pub driver_supports_i64: bool,
    /// Length assumed for variable-width columns that declare none.
    pub column_length_limit: usize,
}

/// The storage type of a columnar column.
#[derive(Debug, Clone, Copy, PartialEq, Eq, Structural)]
pub enum PhysicalType {
    Boolean,
    Int32,
    Int64,
    Float,
    Double,
    ByteArray,
    FixedLenByteArray { length: usize },
}

/// What the stored values of a columnar column mean.
#[derive(Debug, Clone, Copy, PartialEq, Eq, Structural)]
pub enum LogicalType {
    /// The storage type says it all.
    Plain,
    /// An integer of `bit_width` bits.
    Integer { bit_width: u8, signed: bool },
    /// A fixed-point number: the stored integer times ten to the `-scale`.
    Decimal { precision: u8, scale: u8 },
    /// Days since 1970-01-01.
    Date,
    /// Time since midnight.
    Time { unit: TimeUnit },
    /// Time since 1970-01-01T00:00:00; an instant in UTC where `utc` is set,
    /// a local date and time otherwise.
    Timestamp { unit: TimeUnit, utc: bool },
    /// UTF-8 text.
    String,
}

/// The type a strategy targets in the columnar file.
#[derive(Debug, Clone, Copy, PartialEq, Eq, Structural)]
pub struct ColumnarType {
    pub physical: PhysicalType,
    pub logical: LogicalType,
}

/// The numbers that are fetched and written without conversion.
#[derive(Debug, Clone, Copy, PartialEq, Eq, Structural)]
pub enum Passthrough {
    /// 32-bit integers that hold values of `bit_width` bits.
    Int32 { bit_width: u8, signed: bool },
    /// 64-bit integers.
    Int64 { signed: bool },
    /// Single precision floating point.
    Float,
    /// Double precision floating point.
    Double,
}

/// How one column is fetched and converted. The set is closed: every column
/// of every result set gets one of these or is refused.
#[derive(Debug, Clone, Copy, PartialEq, Eq, Structural)]
pub enum ColumnStrategy {
    /// Bits become booleans.
    Boolean,
    /// Driver and file agree bit for bit: values are copied.
    Identical { kind: Passthrough },
    /// 64-bit integers of a driver that cannot bind them: fetched as text and
    /// parsed.
    Int64FromText { signed: bool },
    /// Exact numerics, fetched as fixed-point numbers or, with `from_text`,
    /// as text, and written as decimals of the column's precision and scale.
    Decimal { precision: u8, scale: u8, from_text: bool },
    /// Calendar dates become days since 1970-01-01.
    Date,
    /// Times of day become microseconds since midnight. They are fetched as
    /// the driver's time of day where they have no fractional seconds, and
    /// as text with `fractional_digits` digits behind the point otherwise.
    Time { fractional_digits: u8 },
    /// Local dates and times become time since 1970-01-01T00:00:00.
    Timestamp { unit: TimeUnit },
    /// Dates and times with an offset, fetched as text, become instants in
    /// UTC.
    TimestampTz { unit: TimeUnit },
    /// Bytes are copied; `fixed` columns hold exactly `length` bytes a row,
    /// others at most.
    Binary { fixed: bool, length: usize },
    /// Text of at most `max_chars` characters, fetched as UTF-16 or UTF-8
    /// and written as UTF-8.
    Text { utf16: bool, max_chars: usize },
}

/// Bytes of the indicator that tells NULL from a value, one per row.
pub const INDICATOR_BYTES: usize = 8;

/// Largest precision of an exact numeric.
pub const MAX_DECIMAL_PRECISION: u8 = 38;

/// The driver's name of Microsoft SQL Server.
pub open spec fn mssql_name() -> Seq<char> {
    "Microsoft SQL Server"@
}

/// Microsoft SQL Server's code of its time type.
pub const MSSQL_TIME: i16 = -154;

/// Microsoft SQL Server's code of its timestamp with offset.
pub const MSSQL_DATETIMEOFFSET: i16 = -155;

/// Bytes of text buffer for one value of at most `max_chars` characters with
/// its terminating zero: up to four bytes a character in UTF-8, up to two
/// units of two bytes in UTF-16.
pub open spec fn text_buffer_bytes(utf16: bool, max_chars: usize) -> int {
    if utf16 {
        2 * (2 * max_chars + 1)
    } else {
        4 * max_chars + 1
    }
}

impl ColumnStrategy {
    /// Bytes of bound buffer that one value takes, without its indicator.
    pub open spec fn value_bytes(&self) -> int {
        match *self {
            ColumnStrategy::Boolean => 1,
            ColumnStrategy::Identical { kind } => match kind {
                Passthrough::Int32 { .. } => 4,
                Passthrough::Int64 { .. } => 8,
                Passthrough::Float => 4,
                Passthrough::Double => 8,
            },
            // Sign, twenty digits, terminating zero.
            ColumnStrategy::Int64FromText { .. } => 22,
            // As text: sign, digits, decimal point, terminating zero.
            // As number: precision, scale, sign, sixteen bytes of magnitude.
            ColumnStrategy::Decimal { precision, from_text, .. } => if from_text {
                precision + 3
            } else {
                19
            },
            ColumnStrategy::Date => 6,
            // As text: `hh:mm:ss`, the point, the digits, terminating zero.
            ColumnStrategy::Time { fractional_digits } => if fractional_digits == 0 {
                6
            } else {
                fractional_digits + 10
            },
            ColumnStrategy::Timestamp { .. } => 16,
            // Date, time with nine digits, offset, two spaces, terminating
            // zero.
            ColumnStrategy::TimestampTz { .. } => 37,
            ColumnStrategy::Binary { length, .. } => length as int,
            ColumnStrategy::Text { utf16, max_chars } => text_buffer_bytes(utf16, max_chars),
        }
    }

    /// Bytes of bound buffer that one row of the column takes: the value and
    /// its indicator.
    pub open spec fn spec_footprint(&self) -> int {
        self.value_bytes() + INDICATOR_BYTES
    }

    /// Whether the strategy can be bound: its footprint is a `usize`, and a
    /// decimal has between one and `MAX_DECIMAL_PRECISION` digits, no more
    /// of them behind the point than it has.
    pub open spec fn wf(&self) -> bool {
        &&& self.spec_footprint() <= usize::MAX
        &&& *self matches ColumnStrategy::Decimal { precision, scale, .. } ==> 1 <= precision
            <= MAX_DECIMAL_PRECISION && scale <= precision
    }

    /// Bytes of bound buffer that one row of the column takes.
    pub fn footprint(&self) -> (bytes: usize)
        requires
            self.wf(),
        ensures
            bytes == self.spec_footprint(),
            bytes >= 1,
    {
        let value: usize = match *self {
            ColumnStrategy::Boolean => 1,
            ColumnStrategy::Identical { kind } => match kind {
                Passthrough::Int32 { .. } => 4,
                Passthrough::Int64 { .. } => 8,
                Passthrough::Float => 4,
                Passthrough::Double => 8,
            },
            ColumnStrategy::Int64FromText { .. } => 22,
            ColumnStrategy::Decimal { precision, from_text, .. } => if from_text {
                precision as usize + 3
            } else {
                19
            },
            ColumnStrategy::Date => 6,
            ColumnStrategy::Time { fractional_digits } => if fractional_digits == 0 {
                6
            } else {
                fractional_digits as usize + 10
            },
            ColumnStrategy::Timestamp { .. } => 16,
            ColumnStrategy::TimestampTz { .. } => 37,
            ColumnStrategy::Binary { length, .. } => length,
            ColumnStrategy::Text { utf16, max_chars } => if utf16 {
                2 * (2 * max_chars + 1)
            } else {
                4 * max_chars + 1
            },
        };
        value + INDICATOR_BYTES
    }

    /// The columnar type the strategy writes.
    pub open spec fn spec_columnar_type(&self) -> ColumnarType {
        match *self {
            ColumnStrategy::Boolean => ColumnarType {
                physical: PhysicalType::Boolean,
                logical: LogicalType::Plain,
            },
            ColumnStrategy::Identical { kind } => match kind {
                Passthrough::Int32 { bit_width, signed } => ColumnarType {
                    physical: PhysicalType::Int32,
                    logical: LogicalType::Integer { bit_width: bit_width, signed: signed },
                },
                Passthrough::Int64 { signed } => ColumnarType {
                    physical: PhysicalType::Int64,
                    logical: LogicalType::Integer { bit_width: 64, signed: signed },
                },
                Passthrough::Float => ColumnarType {
                    physical: PhysicalType::Float,
                    logical: LogicalType::Plain,
                },
                Passthrough::Double => ColumnarType {
                    physical: PhysicalType::Double,
                    logical: LogicalType::Plain,
                },
            },
            ColumnStrategy::Int64FromText { signed } => ColumnarType {
                physical: PhysicalType::Int64,
                logical: LogicalType::Integer { bit_width: 64, signed: signed },
            },
            ColumnStrategy::Decimal { precision, scale, .. } => ColumnarType {
                physical: decimal_physical_type(precision),
                logical: LogicalType::Decimal { precision: precision, scale: scale },
            },
            ColumnStrategy::Date => ColumnarType {
                physical: PhysicalType::Int32,
                logical: LogicalType::Date,
            },
            ColumnStrategy::Time { .. } => ColumnarType {
                physical: PhysicalType::Int64,
                logical: LogicalType::Time { unit: TimeUnit::Micros },
            },
            ColumnStrategy::Timestamp { unit } => ColumnarType {
                physical: PhysicalType::Int64,
                logical: LogicalType::Timestamp { unit: unit, utc: false },
            },
            ColumnStrategy::TimestampTz { unit } => ColumnarType {
                physical: PhysicalType::Int64,
                logical: LogicalType::Timestamp { unit: unit, utc: true },
            },
            ColumnStrategy::Binary { fixed, length } => ColumnarType {
                physical: if fixed {
                    PhysicalType::FixedLenByteArray { length: length }
                } else {
                    PhysicalType::ByteArray
                },
                logical: LogicalType::Plain,
            },
            ColumnStrategy::Text { .. } => ColumnarType {
                physical: PhysicalType::ByteArray,
                logical: LogicalType::String,
            },
        }
    }

    /// The columnar type the strategy writes.
    #[verifier::when_used_as_spec(spec_columnar_type)]
    pub fn columnar_type(&self) -> (target: ColumnarType)
        ensures
            target == self.spec_columnar_type(),
    {
        match *self {
            ColumnStrategy::Boolean => ColumnarType {
                physical: PhysicalType::Boolean,
                logical: LogicalType::Plain,
            },
            ColumnStrategy::Identical { kind } => match kind {
                Passthrough::Int32 { bit_width, signed } => ColumnarType {
                    physical: PhysicalType::Int32,
                    logical: LogicalType::Integer { bit_width: bit_width, signed: signed },
                },
                Passthrough::Int64 { signed } => ColumnarType {
                    physical: PhysicalType::Int64,
                    logical: LogicalType::Integer { bit_width: 64, signed: signed },
                },
                Passthrough::Float => ColumnarType {
                    physical: PhysicalType::Float,
                    logical: LogicalType::Plain,
                },
                Passthrough::Double => ColumnarType {
                    physical: PhysicalType::Double,
                    logical: LogicalType::Plain,
                },
            },
            ColumnStrategy::Int64FromText { signed } => ColumnarType {
                physical: PhysicalType::Int64,
                logical: LogicalType::Integer { bit_width: 64, signed: signed },
            },
            ColumnStrategy::Decimal { precision, scale, .. } => {
                let physical = if precision <= 9 {
                    PhysicalType::Int32
                } else if precision <= 18 {
                    PhysicalType::Int64
                } else {
                    PhysicalType::FixedLenByteArray { length: 16 }
                };
                ColumnarType {
                    physical,
                    logical: LogicalType::Decimal { precision: precision, scale: scale },
                }
            },
            ColumnStrategy::Date => ColumnarType {
                physical: PhysicalType::Int32,
                logical: LogicalType::Date,
            },
            ColumnStrategy::Time { .. } => ColumnarType {
                physical: PhysicalType::Int64,
                logical: LogicalType::Time { unit: TimeUnit::Micros },
            },
            ColumnStrategy::Timestamp { unit } => ColumnarType {
                physical: PhysicalType::Int64,
                logical: LogicalType::Timestamp { unit: unit, utc: false },
            },
            ColumnStrategy::TimestampTz { unit } => ColumnarType {
                physical: PhysicalType::Int64,
                logical: LogicalType::Timestamp { unit: unit, utc: true },
            },
            ColumnStrategy::Binary { fixed, length } => ColumnarType {
                physical: if fixed {
                    PhysicalType::FixedLenByteArray { length: length }
                } else {
                    PhysicalType::ByteArray
                },
                logical: LogicalType::Plain,
            },
            ColumnStrategy::Text { .. } => ColumnarType {
                physical: PhysicalType::ByteArray,
                logical: LogicalType::String,
            },
        }
    }
}

/// The storage type of a decimal of `precision` digits: the smallest integer
/// type that holds them all, or sixteen bytes where none does.
pub open spec fn decimal_physical_type(precision: u8) -> PhysicalType {
    if precision <= 9 {
        PhysicalType::Int32
    } else if precision <= 18 {
        PhysicalType::Int64
    } else {
        PhysicalType::FixedLenByteArray { length: 16 }
    }
}

/// The length to bind for a column of variable width: its declared size, or
/// the configured limit where it declares none.
pub open spec fn bound_length(descriptor: &ColumnDescriptor, options: &MappingOptions) -> usize {
    match descriptor.declared_size {
        Some(size) => size,
        None => options.column_length_limit,
    }
}

/// The strategy for a column by its SQL type alone, before it is checked for
/// being bindable; `None` where the type has no strategy.
pub open spec fn strategy_for(descriptor: &ColumnDescriptor, options: &MappingOptions) -> Option<
    ColumnStrategy,
> {
    let unit = TimeUnit::from_fractional_digits(descriptor.timestamp_precision);
    match descriptor.sql_type {
        SqlType::Bit => Some(ColumnStrategy::Boolean),
        SqlType::TinyInt { unsigned } => Some(
            ColumnStrategy::Identical {
                kind: Passthrough::Int32 { bit_width: 8, signed: !unsigned },
            },
        ),
        SqlType::SmallInt { unsigned } => Some(
            ColumnStrategy::Identical {
                kind: Passthrough::Int32 { bit_width: 16, signed: !unsigned },
            },
        ),
        SqlType::Integer { unsigned } => Some(
            ColumnStrategy::Identical {
                kind: Passthrough::Int32 { bit_width: 32, signed: !unsigned },
            },
        ),
        SqlType::BigInt { unsigned } => Some(
            if options.driver_supports_i64 {
                ColumnStrategy::Identical { kind: Passthrough::Int64 { signed: !unsigned } }
            } else {
                ColumnStrategy::Int64FromText { signed: !unsigned }
            },
        ),
        SqlType::Real => Some(ColumnStrategy::Identical { kind: Passthrough::Float }),
        SqlType::Float | SqlType::Double => Some(
            ColumnStrategy::Identical { kind: Passthrough::Double },
        ),
        SqlType::Numeric | SqlType::Decimal => Some(
            ColumnStrategy::Decimal {
                precision: descriptor.precision,
                scale: descriptor.scale,
                from_text: options.avoid_decimal,
            },
        ),
        SqlType::Date => Some(ColumnStrategy::Date),
        SqlType::Time => Some(
            ColumnStrategy::Time { fractional_digits: descriptor.timestamp_precision },
        ),
        SqlType::Timestamp => Some(
            if descriptor.with_timezone {
                ColumnStrategy::TimestampTz { unit }
            } else {
                ColumnStrategy::Timestamp { unit }
            },
        ),
        SqlType::Char | SqlType::Varchar | SqlType::LongVarchar | SqlType::WChar
        | SqlType::WVarchar | SqlType::WLongVarchar => Some(
            ColumnStrategy::Text {
                utf16: options.use_utf16,
                max_chars: bound_length(descriptor, options),
            },
        ),
        SqlType::Binary => Some(
            ColumnStrategy::Binary {
                fixed: !options.prefer_varbinary && descriptor.declared_size is Some,
                length: bound_length(descriptor, options),
            },
        ),
        SqlType::Varbinary | SqlType::LongVarbinary => Some(
            ColumnStrategy::Binary { fixed: false, length: bound_length(descriptor, options) },
        ),
        SqlType::Other { code } => if options.db_name@ == mssql_name() && code == MSSQL_TIME {
            Some(ColumnStrategy::Time { fractional_digits: descriptor.timestamp_precision })
        } else if options.db_name@ == mssql_name() && code == MSSQL_DATETIMEOFFSET {
            Some(ColumnStrategy::TimestampTz { unit })
        } else {
            None
        },
    }
}

/// The outcome of the registry for a column: its strategy; `UnsupportedType`
/// where the SQL type has none or a decimal's precision and scale are out of
/// range; `InvalidConfiguration` where the buffer of a single value would not
/// fit the address space.
pub open spec fn spec_select(descriptor: &ColumnDescriptor, options: &MappingOptions) -> Result<
    ColumnStrategy,
    ExportError,
> {
    match strategy_for(descriptor, options) {
        None => Err(ExportError::UnsupportedType),
        Some(strategy) => if strategy matches ColumnStrategy::Decimal { precision, scale, .. }
            && !(1 <= precision <= MAX_DECIMAL_PRECISION && scale <= precision) {
            Err(ExportError::UnsupportedType)
        } else if strategy.spec_footprint() > usize::MAX {
            Err(ExportError::InvalidConfiguration)
        } else {
            Ok(strategy)
        },
    }
}

/// Picks the strategy for one column of the result set.
pub fn select(descriptor: &ColumnDescriptor, options: &MappingOptions) -> (result: Result<
    ColumnStrategy,
    ExportError,
>)
    ensures
        result == spec_select(descriptor, options),
        result matches Ok(strategy) ==> strategy.wf(),
{
    let unit = TimeUnit::from_fractional_digits(descriptor.timestamp_precision);
    let length: usize = match descriptor.declared_size {
        Some(size) => size,
        None => options.column_length_limit,
    };
    let strategy = match descriptor.sql_type {
        SqlType::Bit => ColumnStrategy::Boolean,
        SqlType::TinyInt { unsigned } => ColumnStrategy::Identical {
            kind: Passthrough::Int32 { bit_width: 8, signed: !unsigned },
        },
        SqlType::SmallInt { unsigned } => ColumnStrategy::Identical {
            kind: Passthrough::Int32 { bit_width: 16, signed: !unsigned },
        },
        SqlType::Integer { unsigned } => ColumnStrategy::Identical {
            kind: Passthrough::Int32 { bit_width: 32, signed: !unsigned },
        },
        SqlType::BigInt { unsigned } => {
            if options.driver_supports_i64 {
                ColumnStrategy::Identical { kind: Passthrough::Int64 { signed: !unsigned } }
            } else {
                ColumnStrategy::Int64FromText { signed: !unsigned }
            }
        },
        SqlType::Real => ColumnStrategy::Identical { kind: Passthrough::Float },
        SqlType::Float | SqlType::Double => ColumnStrategy::Identical { kind: Passthrough::Double },
        SqlType::Numeric | SqlType::Decimal => {
            if !(1 <= descriptor.precision && descriptor.precision <= MAX_DECIMAL_PRECISION
                && descriptor.scale <= descriptor.precision) {
                return Err(ExportError::UnsupportedType);
            }
            ColumnStrategy::Decimal {
                precision: descriptor.precision,
                scale: descriptor.scale,
                from_text: options.avoid_decimal,
            }
        },
        SqlType::Date => ColumnStrategy::Date,
        SqlType::Time => ColumnStrategy::Time {
            fractional_digits: descriptor.timestamp_precision,
        },
        SqlType::Timestamp => {
            if descriptor.with_timezone {
                ColumnStrategy::TimestampTz { unit }
            } else {
                ColumnStrategy::Timestamp { unit }
            }
        },
        SqlType::Char | SqlType::Varchar | SqlType::LongVarchar | SqlType::WChar
        | SqlType::WVarchar | SqlType::WLongVarchar => {
            let bindable = if options.use_utf16 {
                length <= (usize::MAX - (2 + INDICATOR_BYTES)) / 4
            } else {
                length <= (usize::MAX - (1 + INDICATOR_BYTES)) / 4
            };
            if !bindable {
                return Err(ExportError::InvalidConfiguration);
            }
            ColumnStrategy::Text { utf16: options.use_utf16, max_chars: length }
        },
        SqlType::Binary => {
            if length > usize::MAX - INDICATOR_BYTES {
                return Err(ExportError::InvalidConfiguration);
            }
            ColumnStrategy::Binary {
                fixed: !options.prefer_varbinary && descriptor.declared_size.is_some(),
                length,
            }
        },
        SqlType::Varbinary | SqlType::LongVarbinary => {
            if length > usize::MAX - INDICATOR_BYTES {
                return Err(ExportError::InvalidConfiguration);
            }
            ColumnStrategy::Binary { fixed: false, length }
        },
        SqlType::Other { code } => {
            let mssql = String::from_str("Microsoft SQL Server");
            let is_mssql = options.db_name == mssql;
            if is_mssql && code == MSSQL_TIME {
                ColumnStrategy::Time { fractional_digits: descriptor.timestamp_precision }
            } else if is_mssql && code == MSSQL_DATETIMEOFFSET {
                ColumnStrategy::TimestampTz { unit }
            } else {
                return Err(ExportError::UnsupportedType);
            }
        },
    };
    Ok(strategy)
}

} // verus!
