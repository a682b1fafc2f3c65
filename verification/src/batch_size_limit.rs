//! Budgets: how many rows one fetch may hold, and when an output file is full.

use vstd::prelude::*;
use crate::error::ExportError;

verus! {

/// The number of rows to bind for one fetch.
#[derive(Debug, Clone, Copy, PartialEq, Eq, Structural)]
pub enum EffectiveRows {
    /// No cap was given: the driver picks its own batch size.
    DriverDefault,
    /// Bind buffers for exactly this many rows. Never zero.
    Rows(usize),
}

/// Upper bounds on one batch: a number of rows, a number of bytes of bound
/// buffer, both or neither. The byte cap bounds the driver's buffers, not the
/// size of the compressed output.
#[derive(Debug, Clone, Copy, PartialEq, Eq, Structural)]
pub struct BatchSizeLimit {
    /// Largest number of rows in a batch, if capped.
    pub max_rows: Option<usize>,
    /// Largest number of buffer bytes a batch may take, if capped.
    pub max_bytes: Option<u64>,
}

/// How many rows of `bytes_per_row` bytes fit into `max_bytes`, or `None` where
/// a row takes no space and the byte cap therefore never binds.
pub open spec fn rows_fitting(max_bytes: u64, bytes_per_row: usize) -> Option<int> {
    if bytes_per_row == 0 {
        None
    } else {
        Some(max_bytes as int / bytes_per_row as int)
    }
}

/// `n` raised to at least one and cut to what a `usize` holds.
pub open spec fn clamp_rows(n: int) -> usize {
    if n < 1 {
        1
    } else if n > usize::MAX {
        usize::MAX
    } else {
        n as usize
    }
}

impl BatchSizeLimit {
    /// A limit from the two optional caps.
    pub fn new(num_rows_limit: Option<usize>, memory_limit: Option<u64>) -> (limit: Self)
        ensures
            limit.max_rows == num_rows_limit,
            limit.max_bytes == memory_limit,
    {
        BatchSizeLimit { max_rows: num_rows_limit, max_bytes: memory_limit }
    }

    /// True where a byte cap is set and not even one row fits under it.
    pub open spec fn row_exceeds_byte_cap(&self, bytes_per_row: usize) -> bool {
        self.max_bytes matches Some(bytes) && bytes_per_row > bytes
    }

    /// The batch size this limit resolves to for rows of `bytes_per_row` bytes:
    /// the smaller of the row cap and the rows that fit the byte cap, an absent
    /// cap counting as unbounded, and never less than one row.
    pub open spec fn spec_effective_rows(&self, bytes_per_row: usize) -> Result<
        EffectiveRows,
        ExportError,
    > {
        if self.row_exceeds_byte_cap(bytes_per_row) {
            Err(ExportError::InvalidConfiguration)
        } else {
            let fitting = match self.max_bytes {
                Some(bytes) => rows_fitting(bytes, bytes_per_row),
                None => None,
            };
            match (self.max_rows, fitting) {
                (None, None) => Ok(EffectiveRows::DriverDefault),
                (Some(rows), None) => Ok(EffectiveRows::Rows(clamp_rows(rows as int))),
                (None, Some(fit)) => Ok(EffectiveRows::Rows(clamp_rows(fit))),
                (Some(rows), Some(fit)) => Ok(
                    EffectiveRows::Rows(clamp_rows(if rows <= fit { rows as int } else { fit })),
                ),
            }
        }
    }

    /// Resolves the caps to a batch size for rows that take `bytes_per_row`
    /// bytes of bound buffer each. Fails with `InvalidConfiguration` exactly
    /// where a byte cap is set and a single row is larger than it.
    pub fn effective_rows(&self, bytes_per_row: usize) -> (result: Result<
        EffectiveRows,
        ExportError,
    >)
        ensures
            result == self.spec_effective_rows(bytes_per_row),
            result is Err <==> self.row_exceeds_byte_cap(bytes_per_row),
    {
        let fitting: Option<u64> = match self.max_bytes {
            Some(bytes) => {
                if bytes_per_row == 0 {
                    None
                } else {
                    let fit: u64 = bytes / (bytes_per_row as u64);
                    if fit == 0 {
                        assert(bytes_per_row > bytes) by (nonlinear_arith)
                            requires
                                bytes as int / bytes_per_row as int == 0,
                                bytes_per_row > 0,
                        ;
                        return Err(ExportError::InvalidConfiguration);
                    }
                    assert(bytes_per_row <= bytes) by (nonlinear_arith)
                        requires
                            bytes as int / bytes_per_row as int > 0,
                            bytes_per_row > 0,
                    ;
                    Some(fit)
                }
            },
            None => None,
        };
        match (self.max_rows, fitting) {
            (None, None) => Ok(EffectiveRows::DriverDefault),
            (Some(rows), None) => Ok(EffectiveRows::Rows(if rows < 1 { 1 } else { rows })),
            (None, Some(fit)) => Ok(EffectiveRows::Rows(narrow_rows(fit))),
            (Some(rows), Some(fit)) => {
                if (rows as u64) <= fit {
                    Ok(EffectiveRows::Rows(if rows < 1 { 1 } else { rows }))
                } else {
                    Ok(EffectiveRows::Rows(narrow_rows(fit)))
                }
            },
        }
    }
}

/// A batch size that the caps resolve to is at least one row, stays within
/// the row cap unless that is zero, and its rows fit the byte cap.
pub proof fn lemma_effective_rows_respect_the_caps(limit: BatchSizeLimit, bytes_per_row: usize)
    ensures
        limit.spec_effective_rows(bytes_per_row) matches Ok(EffectiveRows::Rows(rows)) ==> {
            &&& rows >= 1
            &&& limit.max_rows matches Some(cap) ==> rows <= cap || rows == 1
            &&& limit.max_bytes matches Some(cap) ==> rows * bytes_per_row <= cap
        },
        limit.spec_effective_rows(bytes_per_row) matches Ok(EffectiveRows::DriverDefault)
            ==> limit.max_rows is None && (limit.max_bytes is None || bytes_per_row == 0),
        limit.spec_effective_rows(bytes_per_row) matches Err(e) ==> {
            &&& e == ExportError::InvalidConfiguration
            &&& limit.max_bytes matches Some(cap) && bytes_per_row > cap
        },
{
    if let Ok(EffectiveRows::Rows(rows)) = limit.spec_effective_rows(bytes_per_row) {
        if let Some(cap) = limit.max_bytes {
            if bytes_per_row > 0 {
                let fit = cap as int / bytes_per_row as int;
                assert(fit >= 1 && fit * bytes_per_row <= cap) by (nonlinear_arith)
                    requires
                        fit == cap as int / bytes_per_row as int,
                        0 < bytes_per_row <= cap,
                ;
                assert(rows <= fit);
                assert(rows * bytes_per_row <= fit * bytes_per_row) by (nonlinear_arith)
                    requires
                        0 <= rows <= fit,
                        bytes_per_row >= 0,
                ;
            } else {
                assert(rows * bytes_per_row == 0) by (nonlinear_arith)
                    requires
                        bytes_per_row == 0,
                ;
            }
        }
    }
}

/// A positive row count from the byte cap, cut to what a `usize` holds.
fn narrow_rows(fit: u64) -> (rows: usize)
    requires
        fit >= 1,
    ensures
        rows == clamp_rows(fit as int),
{
    if fit > usize::MAX as u64 {
        usize::MAX
    } else {
        fit as usize
    }
}

/// When an output file is full: after a number of row groups, at a size on
/// disk, at whichever comes first, or never. Zero switches an axis off.
#[derive(Debug, Clone, Copy, PartialEq, Eq, Structural)]
pub struct FileSizeLimit {
    /// Row groups per file; zero for no limit.
    pub row_groups_per_file: u32,
    /// Size in bytes at which a file is closed; zero for no limit.
    pub byte_threshold: u64,
}

impl FileSizeLimit {
    /// A limit from the row-group count, zero meaning none, and the optional
    /// size threshold in bytes.
    pub fn new(row_groups_per_file: u32, file_size_threshold: Option<u64>) -> (limit: Self)
        ensures
            limit.row_groups_per_file == row_groups_per_file,
            limit.byte_threshold == match file_size_threshold {
                Some(bytes) => bytes,
                None => 0,
            },
    {
        let byte_threshold: u64 = match file_size_threshold {
            Some(bytes) => bytes,
            None => 0,
        };
        FileSizeLimit { row_groups_per_file, byte_threshold }
    }

    /// Whether the output may be split into several files, that is whether
    /// either axis is active.
    pub open spec fn spec_output_is_splitted(&self) -> bool {
        self.row_groups_per_file != 0 || self.byte_threshold != 0
    }

    /// Whether the output may be split into several files.
    #[verifier::when_used_as_spec(spec_output_is_splitted)]
    pub fn output_is_splitted(&self) -> (splitted: bool)
        ensures
            splitted == self.spec_output_is_splitted(),
    {
        self.row_groups_per_file != 0 || self.byte_threshold != 0
    }

    /// Whether a file that holds `row_groups` row groups and takes
    /// `current_file_size` bytes on disk is full.
    pub open spec fn spec_should_start_new_file(
        &self,
        row_groups: usize,
        current_file_size: u64,
    ) -> bool {
        ||| self.row_groups_per_file != 0 && row_groups >= self.row_groups_per_file
        ||| self.byte_threshold != 0 && current_file_size >= self.byte_threshold
    }

    /// Whether the file just written to is full, given the number of row
    /// groups it holds and its size on disk after the last of them was
    /// flushed.
    #[verifier::when_used_as_spec(spec_should_start_new_file)]
    pub fn should_start_new_file(&self, row_groups: usize, current_file_size: u64) -> (full: bool)
        ensures
            full == self.spec_should_start_new_file(row_groups, current_file_size),
    {
        (self.row_groups_per_file != 0 && row_groups >= self.row_groups_per_file as usize) || (
        self.byte_threshold != 0 && current_file_size >= self.byte_threshold)
    }
}

} // verus!
