//! The kinds of failure an export can end in.

use vstd::prelude::*;

verus! {

/// Why an export stopped. The variants name the failure by what it means to
/// the caller, not by the component that noticed it.
#[derive(Debug, Clone, Copy, PartialEq, Eq, Structural)]
pub enum ExportError {
    /// Options that contradict each other or cannot be met, such as a byte
    /// budget too small for a single row.
    InvalidConfiguration,
    /// The driver refused the connection, or lost it, and no retry is left.
    ConnectionFailure,
    /// The driver rejected the statement or one of its parameters.
    QueryFailure,
    /// A result column has an SQL type for which no conversion exists.
    UnsupportedType,
    /// A value does not fit the range of its target column type.
    ValueOutOfRange,
    /// A value has digits that its target column type cannot keep.
    PrecisionLoss,
    /// The driver failed while rows were being fetched.
    FetchFailure,
    /// The file system, the encoder or the compressor failed.
    WriteFailure,
    /// Rollover asked for more files than the suffix can number.
    TooManyFiles,
}

} // verus!
