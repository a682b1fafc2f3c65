//! The arithmetic of rollover: what a sequence of batches leaves behind in
//! files, whatever the files are called and wherever they go.

use vstd::prelude::*;
use crate::batch_size_limit::FileSizeLimit;
use crate::current_file::FileSummary;

verus! {

/// The rows of all `files` together.
pub open spec fn rows_sum(files: Seq<FileSummary>) -> nat
    decreases files.len(),
{
    if files.len() == 0 {
        0
    } else {
        rows_sum(files.drop_last()) + files.last().rows as nat
    }
}

/// Whether `file` respects `limit`: it holds no more row groups than allowed,
/// and it was below the size threshold before its last row group went in, so
/// that it exceeds the threshold by less than that one row group. Every row
/// group holds at least one row.
pub open spec fn within_limits(limit: FileSizeLimit, file: FileSummary) -> bool {
    &&& limit.row_groups_per_file != 0 ==> file.row_groups <= limit.row_groups_per_file
    &&& limit.byte_threshold != 0 ==> file.bytes_before_last_group < limit.byte_threshold
    &&& file.row_groups <= file.rows
}

/// Appending a file adds its rows to the sum.
pub proof fn lemma_rows_sum_push(files: Seq<FileSummary>, file: FileSummary)
    ensures
        rows_sum(files.push(file)) == rows_sum(files) + file.rows,
{
    assert(files.push(file).drop_last() =~= files);
}

/// What a writer has counted: the files it closed, the file that is open,
/// and the rows it wrote.
pub struct Counts {
    /// The files that were closed, first to last.
    pub emitted: Seq<FileSummary>,
    /// The file that is open, if any.
    pub current: Option<FileSummary>,
    /// Rows written so far, over all files.
    pub total_rows: nat,
}

/// One batch as the writer sees it: its rows, and the size of the file once
/// its row group was flushed.
pub struct BatchWritten {
    pub rows: usize,
    pub file_size: u64,
}

/// The counts of a writer that has seen nothing yet.
pub open spec fn nothing_written() -> Counts {
    Counts { emitted: Seq::empty(), current: None, total_rows: 0 }
}

/// The file that the next row group goes to: the open one, or a new one
/// numbered after the closed ones.
pub open spec fn file_for_next_row_group(counts: Counts) -> FileSummary {
    match counts.current {
        Some(file) => file,
        None => FileSummary::empty((counts.emitted.len() + 1) as u32),
    }
}

/// The counts after a batch of `rows` rows whose row group left the file at
/// `file_size` bytes. A batch without rows changes nothing. Else the row
/// group goes to the open file, or to a new one where none is open, and the
/// file is closed at once where it is full.
pub open spec fn after_batch(limit: FileSizeLimit, counts: Counts, rows: usize, file_size: u64) -> Counts {
    if rows == 0 {
        counts
    } else {
        let file = file_for_next_row_group(counts).with_row_group(rows, file_size);
        if limit.should_start_new_file(file.row_groups, file.bytes) {
            Counts {
                emitted: counts.emitted.push(file),
                current: None,
                total_rows: counts.total_rows + rows as nat,
            }
        } else {
            Counts {
                emitted: counts.emitted,
                current: Some(file),
                total_rows: counts.total_rows + rows as nat,
            }
        }
    }
}

/// The counts after all of `batches`, in order, starting with nothing.
pub open spec fn after_batches(limit: FileSizeLimit, batches: Seq<BatchWritten>) -> Counts
    decreases batches.len(),
{
    if batches.len() == 0 {
        nothing_written()
    } else {
        after_batch(
            limit,
            after_batches(limit, batches.drop_last()),
            batches.last().rows,
            batches.last().file_size,
        )
    }
}

/// The rows of all `batches` together.
pub open spec fn rows_fetched(batches: Seq<BatchWritten>) -> nat
    decreases batches.len(),
{
    if batches.len() == 0 {
        0
    } else {
        rows_fetched(batches.drop_last()) + batches.last().rows as nat
    }
}

/// Every file that an export leaves behind once it ends with these counts:
/// the closed files, then the open one; or, where no file was ever opened
/// and empty files are not suppressed, one file without rows.
pub open spec fn files_left(counts: Counts, no_empty_file: bool) -> Seq<FileSummary> {
    match counts.current {
        Some(current) => counts.emitted.push(current),
        None => if counts.emitted.len() == 0 && !no_empty_file {
            seq![FileSummary::empty(1)]
        } else {
            counts.emitted
        },
    }
}

/// The invariant of the counts. Every closed file holds rows and respects
/// the limits; the open file respects them too and is not full yet. Output
/// that is not split has no closed file. Every row written is counted in
/// exactly one file.
pub open spec fn counts_agree(limit: FileSizeLimit, counts: Counts) -> bool {
    &&& !limit.output_is_splitted() ==> counts.emitted.len() == 0
    &&& forall|i: int|
        0 <= i < counts.emitted.len() ==> {
            &&& (#[trigger] counts.emitted[i]).rows > 0
            &&& within_limits(limit, counts.emitted[i])
        }
    &&& counts.current matches Some(current) ==> {
        &&& within_limits(limit, current)
        &&& !limit.should_start_new_file(current.row_groups, current.bytes)
    }
    &&& counts.total_rows == rows_sum(counts.emitted) + (match counts.current {
        Some(current) => current.rows as nat,
        None => 0nat,
    })
}

/// A batch keeps the invariant of the counts and adds its rows to them.
pub proof fn lemma_batch_keeps_counts(
    limit: FileSizeLimit,
    counts: Counts,
    rows: usize,
    file_size: u64,
)
    requires
        counts_agree(limit, counts),
        counts.total_rows + rows <= usize::MAX,
    ensures
        counts_agree(limit, after_batch(limit, counts, rows, file_size)),
        after_batch(limit, counts, rows, file_size).total_rows == counts.total_rows + rows,
{
    if rows > 0 {
        let before = file_for_next_row_group(counts);
        let file = before.with_row_group(rows, file_size);
        assert(before.rows <= counts.total_rows);
        if limit.should_start_new_file(file.row_groups, file.bytes) {
            lemma_rows_sum_push(counts.emitted, file);
        }
    }
}

/// All batches together keep the invariant of the counts, and the counts
/// hold the rows of all of them.
pub proof fn lemma_batches_keep_counts(limit: FileSizeLimit, batches: Seq<BatchWritten>)
    requires
        rows_fetched(batches) <= usize::MAX,
    ensures
        counts_agree(limit, after_batches(limit, batches)),
        after_batches(limit, batches).total_rows == rows_fetched(batches),
    decreases batches.len(),
{
    if batches.len() > 0 {
        lemma_batches_keep_counts(limit, batches.drop_last());
        lemma_batch_keeps_counts(
            limit,
            after_batches(limit, batches.drop_last()),
            batches.last().rows,
            batches.last().file_size,
        );
    }
}

/// Whatever the batches and whatever the limits: the rows of the files that
/// an export leaves behind add up to the rows that were fetched.
pub proof fn lemma_every_row_is_in_one_file(
    limit: FileSizeLimit,
    batches: Seq<BatchWritten>,
    no_empty_file: bool,
)
    requires
        rows_fetched(batches) <= usize::MAX,
    ensures
        rows_sum(files_left(after_batches(limit, batches), no_empty_file)) == rows_fetched(
            batches,
        ),
{
    lemma_batches_keep_counts(limit, batches);
    let counts = after_batches(limit, batches);
    match counts.current {
        Some(current) => {
            lemma_rows_sum_push(counts.emitted, current);
        },
        None => {
            if counts.emitted.len() == 0 && !no_empty_file {
                lemma_rows_sum_push(Seq::empty(), FileSummary::empty(1));
                assert(seq![FileSummary::empty(1)] =~= Seq::empty().push(FileSummary::empty(1)));
            }
        },
    }
}

/// Whatever the batches and whatever the limits: no file that an export
/// leaves behind holds more row groups than the limit allows, and each was
/// below the size threshold before its last row group went in, so that it
/// exceeds the threshold by less than one row group. Output that is not
/// split is a single file.
pub proof fn lemma_no_file_exceeds_the_limits(
    limit: FileSizeLimit,
    batches: Seq<BatchWritten>,
    no_empty_file: bool,
)
    requires
        rows_fetched(batches) <= usize::MAX,
    ensures
        forall|i: int|
            0 <= i < files_left(after_batches(limit, batches), no_empty_file).len() ==> {
                let file = #[trigger] files_left(after_batches(limit, batches), no_empty_file)[i];
                &&& limit.row_groups_per_file != 0 ==> file.row_groups <= limit.row_groups_per_file
                &&& limit.byte_threshold != 0 ==> file.bytes_before_last_group
                    < limit.byte_threshold
            },
        !limit.output_is_splitted() ==> files_left(
            after_batches(limit, batches),
            no_empty_file,
        ).len() <= 1,
{
    lemma_batches_keep_counts(limit, batches);
}

/// A result without rows leaves no file where empty files are suppressed,
/// and exactly one file, without rows or row groups, where they are not.
pub proof fn lemma_no_rows_no_file(
    limit: FileSizeLimit,
    batches: Seq<BatchWritten>,
    no_empty_file: bool,
)
    requires
        rows_fetched(batches) == 0,
    ensures
        no_empty_file ==> files_left(after_batches(limit, batches), no_empty_file).len() == 0,
        !no_empty_file ==> files_left(after_batches(limit, batches), no_empty_file)
            == seq![FileSummary::empty(1)],
    decreases batches.len(),
{
    lemma_nothing_fetched_nothing_written(limit, batches);
}

proof fn lemma_nothing_fetched_nothing_written(limit: FileSizeLimit, batches: Seq<BatchWritten>)
    requires
        rows_fetched(batches) == 0,
    ensures
        after_batches(limit, batches) == nothing_written(),
    decreases batches.len(),
{
    if batches.len() > 0 {
        lemma_nothing_fetched_nothing_written(limit, batches.drop_last());
    }
}

} // verus!
