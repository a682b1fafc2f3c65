//! Row batches: the column-major buffers that the driver fills with one
//! fetch, and the way batches are fetched.

use vstd::prelude::*;
use crate::column_strategy::{ColumnStrategy, Passthrough};
use crate::date::Date;
use crate::decimal::Numeric;
use crate::time::Time;
use crate::timestamp::Timestamp;

verus! {

/// The layout of the buffer that a column is bound to.
#[derive(Debug, Clone, Copy, PartialEq, Eq, Structural)]
pub enum BufferKind {
    Bit,
    Int32,
    Int64,
    Float,
    Double,
    Date,
    Time,
    Timestamp,
    Numeric,
    Text,
    WideText,
    Binary,
}

/// The values of one column for every row of a batch, as the driver left
/// them. The slot of a NULL holds no meaningful value.
#[derive(Debug)]
pub enum ColumnBuffer {
    /// Bits, one byte each.
    Bit(Vec<u8>),
    /// 32-bit integers.
    Int32(Vec<i32>),
    /// 64-bit integers.
    Int64(Vec<i64>),
    /// Single precision numbers, by their bits.
    Float(Vec<u32>),
    /// Double precision numbers, by their bits.
    Double(Vec<u64>),
    /// Calendar dates.
    Date(Vec<Date>),
    /// Times of day.
    Time(Vec<Time>),
    /// Dates with a time of day.
    Timestamp(Vec<Timestamp>),
    /// Fixed-point numbers.
    Numeric(Vec<Numeric>),
    /// Text in UTF-8, one run of bytes a row.
    Text(Vec<Vec<u8>>),
    /// Text in UTF-16, one run of units a row.
    WideText(Vec<Vec<u16>>),
    /// Bytes, one run a row.
    Binary(Vec<Vec<u8>>),
}

impl ColumnBuffer {
    /// The layout of the buffer.
    pub open spec fn spec_kind(&self) -> BufferKind {
        match self {
            ColumnBuffer::Bit(_) => BufferKind::Bit,
            ColumnBuffer::Int32(_) => BufferKind::Int32,
            ColumnBuffer::Int64(_) => BufferKind::Int64,
            ColumnBuffer::Float(_) => BufferKind::Float,
            ColumnBuffer::Double(_) => BufferKind::Double,
            ColumnBuffer::Date(_) => BufferKind::Date,
            ColumnBuffer::Time(_) => BufferKind::Time,
            ColumnBuffer::Timestamp(_) => BufferKind::Timestamp,
            ColumnBuffer::Numeric(_) => BufferKind::Numeric,
            ColumnBuffer::Text(_) => BufferKind::Text,
            ColumnBuffer::WideText(_) => BufferKind::WideText,
            ColumnBuffer::Binary(_) => BufferKind::Binary,
        }
    }

    /// The layout of the buffer.
    #[verifier::when_used_as_spec(spec_kind)]
    pub fn kind(&self) -> (kind: BufferKind)
        ensures
            kind == self.spec_kind(),
    {
        match self {
            ColumnBuffer::Bit(_) => BufferKind::Bit,
            ColumnBuffer::Int32(_) => BufferKind::Int32,
            ColumnBuffer::Int64(_) => BufferKind::Int64,
            ColumnBuffer::Float(_) => BufferKind::Float,
            ColumnBuffer::Double(_) => BufferKind::Double,
            ColumnBuffer::Date(_) => BufferKind::Date,
            ColumnBuffer::Time(_) => BufferKind::Time,
            ColumnBuffer::Timestamp(_) => BufferKind::Timestamp,
            ColumnBuffer::Numeric(_) => BufferKind::Numeric,
            ColumnBuffer::Text(_) => BufferKind::Text,
            ColumnBuffer::WideText(_) => BufferKind::WideText,
            ColumnBuffer::Binary(_) => BufferKind::Binary,
        }
    }

    /// The number of rows the buffer has slots for.
    pub open spec fn spec_len(&self) -> nat {
        match self {
            ColumnBuffer::Bit(v) => v@.len(),
            ColumnBuffer::Int32(v) => v@.len(),
            ColumnBuffer::Int64(v) => v@.len(),
            ColumnBuffer::Float(v) => v@.len(),
            ColumnBuffer::Double(v) => v@.len(),
            ColumnBuffer::Date(v) => v@.len(),
            ColumnBuffer::Time(v) => v@.len(),
            ColumnBuffer::Timestamp(v) => v@.len(),
            ColumnBuffer::Numeric(v) => v@.len(),
            ColumnBuffer::Text(v) => v@.len(),
            ColumnBuffer::WideText(v) => v@.len(),
            ColumnBuffer::Binary(v) => v@.len(),
        }
    }

    /// The number of rows the buffer has slots for.
    pub fn len(&self) -> (len: usize)
        ensures
            len == self.spec_len(),
    {
        match self {
            ColumnBuffer::Bit(v) => v.len(),
            ColumnBuffer::Int32(v) => v.len(),
            ColumnBuffer::Int64(v) => v.len(),
            ColumnBuffer::Float(v) => v.len(),
            ColumnBuffer::Double(v) => v.len(),
            ColumnBuffer::Date(v) => v.len(),
            ColumnBuffer::Time(v) => v.len(),
            ColumnBuffer::Timestamp(v) => v.len(),
            ColumnBuffer::Numeric(v) => v.len(),
            ColumnBuffer::Text(v) => v.len(),
            ColumnBuffer::WideText(v) => v.len(),
            ColumnBuffer::Binary(v) => v.len(),
        }
    }
}

impl ColumnStrategy {
    /// The layout of the buffer that the strategy binds its column to.
    pub open spec fn spec_buffer_kind(&self) -> BufferKind {
        match *self {
            ColumnStrategy::Boolean => BufferKind::Bit,
            ColumnStrategy::Identical { kind } => match kind {
                Passthrough::Int32 { .. } => BufferKind::Int32,
                Passthrough::Int64 { .. } => BufferKind::Int64,
                Passthrough::Float => BufferKind::Float,
                Passthrough::Double => BufferKind::Double,
            },
            ColumnStrategy::Int64FromText { .. } => BufferKind::Text,
            ColumnStrategy::Decimal { from_text, .. } => if from_text {
                BufferKind::Text
            } else {
                BufferKind::Numeric
            },
            ColumnStrategy::Date => BufferKind::Date,
            ColumnStrategy::Time { fractional_digits } => if fractional_digits == 0 {
                BufferKind::Time
            } else {
                BufferKind::Text
            },
            ColumnStrategy::Timestamp { .. } => BufferKind::Timestamp,
            ColumnStrategy::TimestampTz { .. } => BufferKind::Text,
            ColumnStrategy::Binary { .. } => BufferKind::Binary,
            ColumnStrategy::Text { utf16, .. } => if utf16 {
                BufferKind::WideText
            } else {
                BufferKind::Text
            },
        }
    }

    /// The layout of the buffer that the strategy binds its column to.
    #[verifier::when_used_as_spec(spec_buffer_kind)]
    pub fn buffer_kind(&self) -> (kind: BufferKind)
        ensures
            kind == self.spec_buffer_kind(),
    {
        match *self {
            ColumnStrategy::Boolean => BufferKind::Bit,
            ColumnStrategy::Identical { kind } => match kind {
                Passthrough::Int32 { .. } => BufferKind::Int32,
                Passthrough::Int64 { .. } => BufferKind::Int64,
                Passthrough::Float => BufferKind::Float,
                Passthrough::Double => BufferKind::Double,
            },
            ColumnStrategy::Int64FromText { .. } => BufferKind::Text,
            ColumnStrategy::Decimal { from_text, .. } => if from_text {
                BufferKind::Text
            } else {
                BufferKind::Numeric
            },
            ColumnStrategy::Date => BufferKind::Date,
            ColumnStrategy::Time { fractional_digits } => if fractional_digits == 0 {
                BufferKind::Time
            } else {
                BufferKind::Text
            },
            ColumnStrategy::Timestamp { .. } => BufferKind::Timestamp,
            ColumnStrategy::TimestampTz { .. } => BufferKind::Text,
            ColumnStrategy::Binary { .. } => BufferKind::Binary,
            ColumnStrategy::Text { utf16, .. } => if utf16 {
                BufferKind::WideText
            } else {
                BufferKind::Text
            },
        }
    }
}

impl ColumnStrategy {
    /// The largest number of elements that one value of the column may
    /// hold in its buffer, without the terminating zero: bytes of text in
    /// UTF-8 or of binary data, units of text in UTF-16. Zero for buffers
    /// whose values all have one size.
    pub open spec fn spec_element_capacity(&self) -> int {
        match self.spec_buffer_kind() {
            BufferKind::Text => self.value_bytes() - 1,
            BufferKind::WideText => self.value_bytes() / 2 - 1,
            BufferKind::Binary => self.value_bytes(),
            _ => 0,
        }
    }

    /// The largest number of elements that one value of the column may
    /// hold in its buffer: the length to bind a text or binary buffer with.
    pub fn element_capacity(&self) -> (capacity: usize)
        requires
            self.wf(),
        ensures
            capacity == self.spec_element_capacity(),
    {
        match *self {
            ColumnStrategy::Int64FromText { .. } => 21,
            ColumnStrategy::Decimal { precision, from_text, .. } => if from_text {
                precision as usize + 2
            } else {
                0
            },
            ColumnStrategy::Time { fractional_digits } => if fractional_digits == 0 {
                0
            } else {
                fractional_digits as usize + 9
            },
            ColumnStrategy::TimestampTz { .. } => 36,
            ColumnStrategy::Binary { length, .. } => length,
            ColumnStrategy::Text { utf16, max_chars } => if utf16 {
                2 * max_chars
            } else {
                4 * max_chars
            },
            _ => 0,
        }
    }
}

/// One column of a batch: which rows are NULL, and the values of the others.
#[derive(Debug)]
pub struct BoundColumn {
    /// For every row, whether the driver marked it NULL.
    pub nulls: Vec<bool>,
    /// For every row, the value the driver left.
    pub values: ColumnBuffer,
}

impl BoundColumn {
    /// Whether the column holds at least `num_rows` rows in the layout
    /// `kind`.
    pub open spec fn holds(&self, kind: BufferKind, num_rows: usize) -> bool {
        &&& self.values.kind() == kind
        &&& num_rows <= self.nulls@.len()
        &&& num_rows <= self.values.spec_len()
    }
}

/// What one fetch brought: the first `num_rows` rows of every column are
/// valid. The batch is lent to the transcoder for one call.
#[derive(Debug)]
pub struct RowBatch {
    /// The number of rows the fetch filled.
    pub num_rows: usize,
    /// The columns, in the order of the result set.
    pub columns: Vec<BoundColumn>,
}

/// How batches are fetched.
#[derive(Debug, Clone, Copy, PartialEq, Eq, Structural)]
pub enum FetchMode {
    /// The thread that writes also fetches, one batch after the other, from
    /// a single set of buffers.
    Sequential,
    /// A second thread fetches into one set of buffers while the first
    /// writes from the other.
    Concurrent,
}

impl FetchMode {
    /// The number of buffer sets the mode binds.
    pub open spec fn spec_buffer_sets(&self) -> usize {
        match self {
            FetchMode::Sequential => 1,
            FetchMode::Concurrent => 2,
        }
    }

    /// The number of buffer sets the mode binds.
    #[verifier::when_used_as_spec(spec_buffer_sets)]
    pub fn buffer_sets(&self) -> (sets: usize)
        ensures
            sets == self.spec_buffer_sets(),
    {
        match self {
            FetchMode::Sequential => 1,
            FetchMode::Concurrent => 2,
        }
    }
}

/// The fetch mode for the given choice: concurrent where asked for,
/// sequential otherwise.
pub fn fetch_strategy(concurrent_fetching: bool) -> (mode: FetchMode)
    ensures
        mode == (if concurrent_fetching {
            FetchMode::Concurrent
        } else {
            FetchMode::Sequential
        }),
{
    if concurrent_fetching {
        FetchMode::Concurrent
    } else {
        FetchMode::Sequential
    }
}

} // verus!
