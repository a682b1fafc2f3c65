//! Options of the columnar encoder and the decisions of the rollover writer.

use vstd::prelude::*;
use parquet::basic::{Compression, Encoding, ZstdLevel};
use parquet::errors::ParquetError;
use crate::batch_size_limit::FileSizeLimit;
use crate::current_file::{
    path_with_suffix, suffixed_path, CurrentFile, FileSummary, OutputTarget,
};
use crate::digits::pow10;
use crate::error::ExportError;
use crate::rollover::{
    after_batch, file_for_next_row_group, files_left, lemma_rows_sum_push, rows_sum,
    within_limits, Counts,
};

verus! {

/// The encoder's page compression setting. Carried through, never inspected.
#[verifier::external_type_specification]
#[verifier::external_body]
pub struct ExCompression(Compression);

/// The encoder's column encoding. Carried through, never inspected.
#[verifier::external_type_specification]
#[verifier::external_body]
pub struct ExEncoding(Encoding);

/// The encoder's error type.
#[verifier::external_type_specification]
#[verifier::external_body]
pub struct ExParquetError(ParquetError);

/// Lowest Zstandard level the encoder accepts.
pub const ZSTD_MINIMUM_LEVEL: i32 = -131072;

/// Highest Zstandard level the encoder accepts.
pub const ZSTD_MAXIMUM_LEVEL: i32 = 22;

/// Level of the default page compression.
pub const ZSTD_DEFAULT_LEVEL: i32 = 3;

/// Calls `parquet::basic::ZstdLevel::try_new` and wraps the level in
/// `Compression::ZSTD`. Trusted: the call succeeds exactly for the levels from
/// `ZSTD_MINIMUM_LEVEL` to `ZSTD_MAXIMUM_LEVEL`, the range the encoder checks
/// a level against.
#[verifier::external_body]
fn zstd_compression(level: i32) -> (result: Result<Compression, ParquetError>)
    ensures
        result is Ok <==> ZSTD_MINIMUM_LEVEL <= level <= ZSTD_MAXIMUM_LEVEL,
{
    ZstdLevel::try_new(level).map(Compression::ZSTD)
}

/// Zstandard page compression at the given level, or `InvalidConfiguration`
/// exactly where the level is outside the range the encoder accepts.
pub fn zstd_page_compression(level: i32) -> (result: Result<Compression, ExportError>)
    ensures
        result is Ok <==> ZSTD_MINIMUM_LEVEL <= level <= ZSTD_MAXIMUM_LEVEL,
        result is Err ==> result == Err::<Compression, ExportError>(
            ExportError::InvalidConfiguration,
        ),
{
    match zstd_compression(level) {
        Ok(compression) => Ok(compression),
        Err(_) => Err(ExportError::InvalidConfiguration),
    }
}

/// What the encoder is set up with for every file of one export.
#[derive(Debug)]
pub struct ParquetWriterOptions {
    /// Page compression of every column.
    pub column_compression_default: Compression,
    /// Encodings chosen by hand, by column name, in the order given.
    pub column_encodings: Vec<(String, Encoding)>,
    /// When a file is full.
    pub file_size: FileSizeLimit,
    /// Number of digits of the file number in the names of split output.
    pub suffix_length: usize,
    /// Whether a result without rows leaves no file at all.
    pub no_empty_file: bool,
}

/// What the caller does before it writes the row group of a batch.
#[derive(Debug)]
pub enum RowGroupStart {
    /// The batch holds no rows: write nothing.
    Skip,
    /// Write the row group to the file that is open.
    UseOpenFile,
    /// Create this target, write the schema, then write the row group to it.
    OpenFile(OutputTarget),
}

/// What the caller does after a row group was flushed.
#[derive(Debug, Clone, Copy, PartialEq, Eq, Structural)]
pub enum RowGroupEnd {
    /// Leave the file open for the next row group.
    KeepOpen,
    /// The file is full: close it.
    CloseFile,
}

/// What the caller does once the cursor is exhausted.
#[derive(Debug)]
pub enum Finish {
    /// Nothing is open and nothing is owed.
    Nothing,
    /// Close the file that is open.
    CloseFile,
    /// No row came: create this target with the schema alone, and close it.
    WriteEmptyFile(OutputTarget),
}

/// The outcome of an export: the last thing to do, and every file in order.
#[derive(Debug)]
pub struct ExportReport {
    /// What is left for the caller to do.
    pub action: Finish,
    /// Every file of the export, first to last.
    pub files: Vec<FileSummary>,
    /// Rows written, over all files.
    pub total_rows: usize,
}

/// Decides, batch by batch, which file a row group goes to, when a file is
/// closed and how the next one is named. It performs no I/O: the caller
/// carries out each step and reports the file size back.
#[derive(Debug)]
pub struct FileWriter {
    /// Where the output goes; for split output the path the names derive from.
    pub target: OutputTarget,
    /// When a file is full.
    pub file_size: FileSizeLimit,
    /// Digits of the file number in the names of split output.
    pub suffix_length: usize,
    /// Whether a result without rows leaves no file.
    pub no_empty_file: bool,
    /// Files opened so far.
    pub num_file: u32,
    /// The file that is open, if any.
    pub current_file: Option<CurrentFile>,
    /// The files that were closed, first to last.
    pub emitted: Vec<FileSummary>,
    /// Rows written so far, over all files.
    pub total_rows: usize,
}

impl FileWriter {
    /// The path of file number `number`, `None` for the stream: the target's
    /// path, with the number as suffix where the output is split.
    pub open spec fn name_of(&self, number: nat) -> Option<Seq<char>> {
        match self.target {
            OutputTarget::StdStream => None,
            OutputTarget::File(base) => Some(
                if self.file_size.output_is_splitted() {
                    suffixed_path(base@, number, self.suffix_length as nat)
                } else {
                    base@
                },
            ),
        }
    }

    /// Whether file number `number` cannot be named: the output is split and
    /// the number has more digits than the suffix, or exceeds the counter.
    pub open spec fn numbers_exhausted(&self, number: nat) -> bool {
        self.file_size.output_is_splitted() && (number >= pow10(self.suffix_length as nat)
            || number > u32::MAX)
    }

    /// Whether `other` has the same target and options as `self`.
    pub open spec fn same_setup(&self, other: &FileWriter) -> bool {
        &&& self.target == other.target
        &&& self.file_size == other.file_size
        &&& self.suffix_length == other.suffix_length
        &&& self.no_empty_file == other.no_empty_file
    }

    /// The invariant of the writer. The stream is never split. Files are
    /// numbered from one in the order they were opened, and an unsplit output
    /// has a single file. Every closed file holds rows and respects the
    /// limits; the open file does too and is not full yet. Every row written
    /// is counted in exactly one file.
    pub open spec fn wf(&self) -> bool {
        &&& self.target is StdStream ==> !self.file_size.output_is_splitted()
        &&& self.num_file == self.emitted.len() + (if self.current_file is Some {
            1nat
        } else {
            0nat
        })
        &&& !self.file_size.output_is_splitted() ==> self.emitted.len() == 0
        &&& forall|i: int|
            0 <= i < self.emitted.len() ==> {
                &&& (#[trigger] self.emitted[i]).number == i + 1
                &&& self.emitted[i].rows > 0
                &&& within_limits(self.file_size, self.emitted[i])
            }
        &&& self.current_file matches Some(current) ==> {
            &&& current.stats.number == self.num_file
            &&& within_limits(self.file_size, current.stats)
            &&& !self.file_size.should_start_new_file(current.stats.row_groups, current.stats.bytes)
            &&& current.target.path() == self.name_of(self.num_file as nat)
        }
        &&& self.total_rows == rows_sum(self.emitted@) + (match self.current_file {
            Some(current) => current.stats.rows as nat,
            None => 0nat,
        })
    }

    /// A writer for `target` that has opened nothing yet. Fails with
    /// `InvalidConfiguration` exactly where the target is the stream and the
    /// options ask for split output.
    pub fn new(target: OutputTarget, options: &ParquetWriterOptions) -> (result: Result<
        FileWriter,
        ExportError,
    >)
        ensures
            result is Err <==> target is StdStream && options.file_size.output_is_splitted(),
            result matches Err(e) ==> e == ExportError::InvalidConfiguration,
            result matches Ok(writer) ==> {
                &&& writer.wf()
                &&& writer.target == target
                &&& writer.file_size == options.file_size
                &&& writer.suffix_length == options.suffix_length
                &&& writer.no_empty_file == options.no_empty_file
                &&& writer.num_file == 0
                &&& writer.current_file is None
                &&& writer.emitted@.len() == 0
                &&& writer.total_rows == 0
            },
    {
        let is_stream = match &target {
            OutputTarget::StdStream => true,
            OutputTarget::File(_) => false,
        };
        if is_stream && options.file_size.output_is_splitted() {
            return Err(ExportError::InvalidConfiguration);
        }
        Ok(
            FileWriter {
                target,
                file_size: options.file_size,
                suffix_length: options.suffix_length,
                no_empty_file: options.no_empty_file,
                num_file: 0,
                current_file: None,
                emitted: Vec::new(),
                total_rows: 0,
            },
        )
    }

    /// The target of file number `number`, or `TooManyFiles` where the
    /// suffix cannot hold the number.
    fn target_of(&self, number: u32) -> (result: Result<OutputTarget, ExportError>)
        requires
            self.target is StdStream ==> !self.file_size.output_is_splitted(),
        ensures
            result is Err <==> self.numbers_exhausted(number as nat),
            result matches Err(e) ==> e == ExportError::TooManyFiles,
            result matches Ok(target) ==> target.path() == self.name_of(number as nat),
    {
        match &self.target {
            OutputTarget::StdStream => Ok(OutputTarget::StdStream),
            OutputTarget::File(base) => {
                if self.file_size.output_is_splitted() {
                    match path_with_suffix(base.as_str(), number, self.suffix_length) {
                        Ok(name) => Ok(OutputTarget::File(name)),
                        Err(e) => Err(e),
                    }
                } else {
                    Ok(OutputTarget::File(base.clone()))
                }
            },
        }
    }

    /// Called with the number of rows of the batch that was fetched, before
    /// its row group is written: says where the row group goes. A batch
    /// without rows is skipped. Where no file is open the next one is opened,
    /// and named by its number where the output is split; that fails with
    /// `TooManyFiles` exactly where the suffix cannot hold the number, and
    /// the writer is then left as it was.
    pub fn begin_row_group(&mut self, rows: usize) -> (result: Result<RowGroupStart, ExportError>)
        requires
            old(self).wf(),
        ensures
            final(self).wf(),
            final(self).same_setup(old(self)),
            final(self).emitted == old(self).emitted,
            final(self).total_rows == old(self).total_rows,
            result is Ok ==> file_for_next_row_group(final(self).counts())
                == file_for_next_row_group(old(self).counts()),
            rows == 0 ==> result matches Ok(RowGroupStart::Skip),
            rows > 0 && old(self).current_file is Some ==> result matches Ok(
                RowGroupStart::UseOpenFile,
            ),
            rows == 0 || old(self).current_file is Some || result is Err ==> {
                &&& final(self).current_file == old(self).current_file
                &&& final(self).num_file == old(self).num_file
            },
            rows > 0 && old(self).current_file is None ==> {
                &&& result is Err <==> old(self).numbers_exhausted(old(self).num_file as nat + 1)
                &&& result matches Err(e) ==> e == ExportError::TooManyFiles
                &&& result matches Ok(start) ==> {
                    &&& start matches RowGroupStart::OpenFile(target)
                    &&& target.path() == old(self).name_of(old(self).num_file as nat + 1)
                    &&& final(self).num_file == old(self).num_file + 1
                    &&& final(self).current_file matches Some(current)
                    &&& current.target.path() == target.path()
                    &&& current.stats == FileSummary::empty(final(self).num_file)
                }
            },
    {
        if rows == 0 {
            return Ok(RowGroupStart::Skip);
        }
        if self.current_file.is_some() {
            return Ok(RowGroupStart::UseOpenFile);
        }
        if self.num_file == u32::MAX {
            proof {
                // An unsplit output never closes its only file.
                assert(self.file_size.output_is_splitted());
            }
            return Err(ExportError::TooManyFiles);
        }
        let number: u32 = self.num_file + 1;
        let target = match self.target_of(number) {
            Ok(target) => target,
            Err(e) => {
                return Err(e);
            },
        };
        let announced = target.clone();
        self.current_file = Some(CurrentFile { target, stats: FileSummary::empty(number) });
        self.num_file = number;
        Ok(RowGroupStart::OpenFile(announced))
    }

    /// Called after the row group of a batch of `rows` rows was flushed to
    /// the open file, which now takes `file_size` bytes on disk: counts the
    /// rows and says whether the file is full. A full file is closed at once
    /// and moves to the emitted files; the next one is opened only when
    /// another batch arrives.
    pub fn end_row_group(&mut self, rows: usize, file_size: u64) -> (step: RowGroupEnd)
        requires
            old(self).wf(),
            old(self).current_file is Some,
            rows > 0,
            old(self).total_rows + rows <= usize::MAX,
        ensures
            final(self).wf(),
            final(self).same_setup(old(self)),
            final(self).num_file == old(self).num_file,
            final(self).total_rows == old(self).total_rows + rows,
            final(self).counts() == after_batch(
                old(self).file_size,
                old(self).counts(),
                rows,
                file_size,
            ),
            step == (if old(self).file_size.should_start_new_file(
                (old(self).current_file->0.stats.row_groups + 1) as usize,
                file_size,
            ) {
                RowGroupEnd::CloseFile
            } else {
                RowGroupEnd::KeepOpen
            }),
            step == RowGroupEnd::KeepOpen ==> {
                &&& final(self).emitted == old(self).emitted
                &&& final(self).current_file matches Some(current)
                &&& current.target == old(self).current_file->0.target
                &&& current.stats == old(self).current_file->0.stats.with_row_group(
                    rows,
                    file_size,
                )
            },
            step == RowGroupEnd::CloseFile ==> {
                &&& final(self).current_file is None
                &&& final(self).emitted@ == old(self).emitted@.push(
                    old(self).current_file->0.stats.with_row_group(rows, file_size),
                )
            },
    {
        let current = self.current_file.take().unwrap();
        proof {
            assert(current.stats.rows <= self.total_rows);
        }
        let stats = FileSummary {
            number: current.stats.number,
            rows: current.stats.rows + rows,
            row_groups: current.stats.row_groups + 1,
            bytes: file_size,
            bytes_before_last_group: current.stats.bytes,
        };
        self.total_rows = self.total_rows + rows;
        if self.file_size.should_start_new_file(stats.row_groups, file_size) {
            proof {
                lemma_rows_sum_push(self.emitted@, stats);
            }
            self.emitted.push(stats);
            RowGroupEnd::CloseFile
        } else {
            self.current_file = Some(CurrentFile { target: current.target, stats });
            RowGroupEnd::KeepOpen
        }
    }

    /// What the writer has counted so far.
    pub open spec fn counts(&self) -> Counts {
        Counts {
            emitted: self.emitted@,
            current: match self.current_file {
                Some(current) => Some(current.stats),
                None => None,
            },
            total_rows: self.total_rows as nat,
        }
    }

    /// Every file the export leaves behind once it ends in this state: the
    /// closed files, then the open one; or, where no file was ever opened and
    /// empty files are not suppressed, one file without rows.
    pub open spec fn final_files(&self) -> Seq<FileSummary> {
        files_left(self.counts(), self.no_empty_file)
    }

    /// Called once the cursor is exhausted: says what is left to do and
    /// reports every file of the export. The open file is closed. Where no
    /// file was ever opened, none is created if empty files are suppressed,
    /// and one with the schema alone otherwise; naming that file fails with
    /// `TooManyFiles` exactly where the output is split and the suffix holds
    /// no digit. The rows of the reported files add up to the rows written,
    /// and each file respects the limits.
    pub fn finish(self) -> (result: Result<ExportReport, ExportError>)
        requires
            self.wf(),
        ensures
            result is Err <==> self.num_file == 0 && !self.no_empty_file && self.numbers_exhausted(
                1,
            ),
            result matches Err(e) ==> e == ExportError::TooManyFiles,
            result matches Ok(report) ==> {
                &&& report.files@ == self.final_files()
                &&& report.total_rows == self.total_rows
                &&& rows_sum(report.files@) == self.total_rows
                &&& forall|i: int|
                    0 <= i < report.files@.len() ==> {
                        &&& (#[trigger] report.files@[i]).number == i + 1
                        &&& within_limits(self.file_size, report.files@[i])
                    }
                &&& match self.current_file {
                    Some(_) => report.action is CloseFile,
                    None => if self.num_file == 0 && !self.no_empty_file {
                        report.action matches Finish::WriteEmptyFile(target) && target.path()
                            == self.name_of(1)
                    } else {
                        report.action is Nothing
                    },
                }
            },
    {
        proof {
            self.lemma_rows_are_conserved();
            self.lemma_files_respect_limits();
        }
        let total_rows = self.total_rows;
        if self.current_file.is_some() {
            let mut files = self.emitted;
            let current = self.current_file.unwrap();
            files.push(current.stats);
            return Ok(ExportReport { action: Finish::CloseFile, files, total_rows });
        }
        if self.num_file == 0 && !self.no_empty_file {
            let target = match self.target_of(1) {
                Ok(target) => target,
                Err(e) => {
                    return Err(e);
                },
            };
            let mut files = self.emitted;
            files.push(FileSummary::empty(1));
            assert(files@ =~= seq![FileSummary::empty(1)]);
            return Ok(ExportReport { action: Finish::WriteEmptyFile(target), files, total_rows });
        }
        Ok(ExportReport { action: Finish::Nothing, files: self.emitted, total_rows })
    }

    /// Every row is counted in exactly one file: the rows of the files that
    /// the export leaves behind add up to the rows written.
    pub proof fn lemma_rows_are_conserved(&self)
        requires
            self.wf(),
        ensures
            rows_sum(self.final_files()) == self.total_rows,
    {
        match self.current_file {
            Some(current) => {
                lemma_rows_sum_push(self.emitted@, current.stats);
            },
            None => {
                if self.num_file == 0 && !self.no_empty_file {
                    lemma_rows_sum_push(Seq::empty(), FileSummary::empty(1));
                    assert(seq![FileSummary::empty(1)] =~= Seq::empty().push(
                        FileSummary::empty(1),
                    ));
                }
            },
        }
    }

    /// No file that the export leaves behind holds more row groups than the
    /// limit allows, and each was below the size threshold before its last
    /// row group went in. The files are numbered from one without a gap.
    pub proof fn lemma_files_respect_limits(&self)
        requires
            self.wf(),
        ensures
            forall|i: int|
                0 <= i < self.final_files().len() ==> {
                    &&& (#[trigger] self.final_files()[i]).number == i + 1
                    &&& within_limits(self.file_size, self.final_files()[i])
                    &&& self.file_size.row_groups_per_file != 0 ==> self.final_files()[i].row_groups
                        <= self.file_size.row_groups_per_file
                    &&& self.file_size.byte_threshold != 0
                        ==> self.final_files()[i].bytes_before_last_group
                        < self.file_size.byte_threshold
                },
            !self.file_size.output_is_splitted() ==> self.final_files().len() <= 1,
    {
    }

    /// A result without rows leaves no file where empty files are suppressed,
    /// and exactly one file, without rows or row groups, where they are not.
    pub proof fn lemma_empty_result_policy(&self)
        requires
            self.wf(),
            self.total_rows == 0,
            self.current_file is None,
        ensures
            self.num_file == 0,
            self.no_empty_file ==> self.final_files().len() == 0,
            !self.no_empty_file ==> self.final_files() == seq![FileSummary::empty(1)],
    {
        if self.emitted@.len() > 0 {
            assert(self.emitted@.last().rows > 0);
        }
    }
}

} // verus!
