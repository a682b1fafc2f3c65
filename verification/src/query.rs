//! The query to export: its options, its statement text, and what is set up
//! once the driver has answered.

use vstd::prelude::*;
use vstd::string::StringExecFns;
use parquet::basic::Encoding;
use crate::batch_size_limit::{BatchSizeLimit, EffectiveRows, FileSizeLimit};
use crate::column_strategy::{ColumnDescriptor, MappingOptions};
use crate::connection::ConnectOpts;
use crate::conversion_strategy::{footprint_sum, planned, ConversionStrategy};
use crate::current_file::OutputTarget;
use crate::enum_args::{CompressionVariants, EncodingArgument};
use crate::error::ExportError;
use crate::fetch_batch::{fetch_strategy, FetchMode};
use crate::parquet_writer::{
    zstd_page_compression, FileWriter, ParquetWriterOptions, ZSTD_DEFAULT_LEVEL,
};

verus! {

/// Everything the caller says about one export.
#[derive(Debug)]
pub struct QueryOpt {
    /// How to connect to the database.
    pub connect_opts: ConnectOpts,
    /// The statement, or `-` to read it from standard input.
    pub query: String,
    /// Where the output goes.
    pub output: OutputTarget,
    /// Page compression of columns.
    pub column_compression_default: CompressionVariants,
    /// How text is fetched from the driver.
    pub encoding: EncodingArgument,
    /// Largest number of rows of a batch.
    pub batch_size_row: Option<usize>,
    /// Largest number of bytes that the buffers of a batch take.
    pub batch_size_memory: Option<u64>,
    /// Row groups after which a file is full; zero for no limit.
    pub row_groups_per_file: u32,
    /// Whether fetching and writing take turns in one thread.
    pub sequential_fetching: bool,
    /// Size in bytes at which a file is full.
    pub file_size_threshold: Option<u64>,
    /// Length assumed for variable-width columns that declare none.
    pub column_length_limit: usize,
    /// Encodings chosen by hand, by column name, in the order given.
    pub parquet_column_encoding: Vec<(String, Encoding)>,
    /// Whether the driver cannot bind 64-bit integers.
    pub driver_does_not_support_64bit_integers: bool,
    /// Whether exact numerics are fetched as text.
    pub avoid_decimal: bool,
    /// Digits of the file number in the names of split output.
    pub suffix_length: usize,
    /// Whether a result without rows leaves no file.
    pub no_empty_file: bool,
    /// The values of the statement's parameters, in the order of their
    /// placeholders. Each is bound as text.
    pub parameters: Vec<String>,
}

/// The statement text that stands for standard input.
pub open spec fn standard_input_marker() -> Seq<char> {
    "-"@
}

/// The statement to execute: `query` itself, or what standard input held
/// where `query` is the marker.
pub open spec fn spec_statement_text(query: Seq<char>, standard_input: Seq<char>) -> Seq<char> {
    if query == standard_input_marker() {
        standard_input
    } else {
        query
    }
}

/// Whether the statement is to be read from standard input, up to its end.
pub fn reads_standard_input(query: &String) -> (reads: bool)
    ensures
        reads == (query@ == standard_input_marker()),
{
    let marker = String::from_str("-");
    *query == marker
}

/// Resolves the statement text: `query` itself, or `standard_input`, all
/// that was read from standard input, where `query` is `-`.
pub fn query_statement_text(query: String, standard_input: String) -> (text: String)
    ensures
        text@ == spec_statement_text(query@, standard_input@),
{
    if reads_standard_input(&query) {
        standard_input
    } else {
        query
    }
}

/// A statement handed over through standard input is the statement that is
/// executed, just as if it had been given directly. The exception is a
/// statement that is itself the marker, which given directly means standard
/// input again.
pub proof fn lemma_standard_input_is_transparent(statement: Seq<char>, unread: Seq<char>)
    requires
        statement != standard_input_marker(),
    ensures
        spec_statement_text(standard_input_marker(), statement) == spec_statement_text(
            statement,
            unread,
        ),
        spec_statement_text(standard_input_marker(), statement) == statement,
{
}

/// Length assumed for variable-width columns where the caller says nothing.
pub const DEFAULT_COLUMN_LENGTH_LIMIT: usize = 4096;

/// Digits of the file number where the caller says nothing.
pub const DEFAULT_SUFFIX_LENGTH: usize = 2;

/// What the foreign entry point returns for a failed export. A successful
/// export of a single row returns the same.
pub const FOREIGN_FAILURE: usize = 1;

impl QueryOpt {
    /// The options of an export that is asked for with nothing but a
    /// connection string, a statement and the path of the output: Zstandard
    /// compression, text fetched as suits the platform, a column length
    /// limit of 4096, a suffix of two digits, no limit on files or batches,
    /// sequential fetching, no retries, no parameters, and a file even for
    /// an empty result.
    pub fn for_export(connection_string: String, query: String, output_path: String) -> (opt:
        QueryOpt)
        ensures
            opt.connect_opts.connection_string matches Some(text) && text@ == connection_string@,
            opt.connect_opts.max_connect_retries == 0,
            opt.connect_opts.connect_retry_interval == 0,
            opt.query@ == query@,
            opt.output.path() == Some(output_path@),
            opt.column_compression_default == CompressionVariants::Zstd,
            opt.encoding == EncodingArgument::Auto,
            opt.batch_size_row is None,
            opt.batch_size_memory is None,
            opt.row_groups_per_file == 0,
            opt.sequential_fetching,
            opt.file_size_threshold is None,
            opt.column_length_limit == DEFAULT_COLUMN_LENGTH_LIMIT,
            opt.parquet_column_encoding@.len() == 0,
            !opt.driver_does_not_support_64bit_integers,
            !opt.avoid_decimal,
            opt.suffix_length == DEFAULT_SUFFIX_LENGTH,
            !opt.no_empty_file,
            opt.parameters@.len() == 0,
    {
        QueryOpt {
            connect_opts: ConnectOpts {
                connection_string: Some(connection_string),
                max_connect_retries: 0,
                connect_retry_interval: 0,
            },
            query,
            output: OutputTarget::File(output_path),
            column_compression_default: CompressionVariants::Zstd,
            encoding: EncodingArgument::Auto,
            batch_size_row: None,
            batch_size_memory: None,
            row_groups_per_file: 0,
            sequential_fetching: true,
            file_size_threshold: None,
            column_length_limit: DEFAULT_COLUMN_LENGTH_LIMIT,
            parquet_column_encoding: Vec::new(),
            driver_does_not_support_64bit_integers: false,
            avoid_decimal: false,
            suffix_length: DEFAULT_SUFFIX_LENGTH,
            no_empty_file: false,
            parameters: Vec::new(),
        }
    }
}

/// What the foreign entry point returns: the number of rows of a successful
/// export, `FOREIGN_FAILURE` for a failed one.
pub fn foreign_status(outcome: &Result<usize, ExportError>) -> (status: usize)
    ensures
        status == match *outcome {
            Ok(rows) => rows,
            Err(_) => FOREIGN_FAILURE,
        },
{
    match outcome {
        Ok(rows) => *rows,
        Err(_) => FOREIGN_FAILURE,
    }
}

/// What an export needs before the driver is involved.
#[derive(Debug)]
pub struct QueryPlan {
    /// How to connect to the database.
    pub connect_opts: ConnectOpts,
    /// The statement, or `-`.
    pub query: String,
    /// Whether the statement is to be read from standard input.
    pub reads_standard_input: bool,
    /// The values of the parameters, each to be bound as text, in order.
    pub parameters: Vec<String>,
    /// Where the output goes.
    pub output: OutputTarget,
    /// The limit on a batch.
    pub batch_size: BatchSizeLimit,
    /// Whether a second thread fetches while the first writes.
    pub concurrent_fetching: bool,
    /// What the encoder is set up with.
    pub parquet_format_options: ParquetWriterOptions,
    /// Whether text is fetched in UTF-16.
    pub use_utf16: bool,
    /// Whether exact numerics are fetched as text.
    pub avoid_decimal: bool,
    /// Whether the driver can bind 64-bit integers.
    pub driver_does_support_i64: bool,
    /// Length assumed for variable-width columns that declare none.
    pub column_length_limit: usize,
}

/// Takes the options of a query apart into what each step of the export
/// needs. Pages are compressed with Zstandard at its default level, whatever
/// compression the options name. `wide_platform` says whether the drivers
/// of the platform work in wide characters.
pub fn plan_query(opt: QueryOpt, wide_platform: bool) -> (plan: QueryPlan)
    ensures
        plan.connect_opts == opt.connect_opts,
        plan.query == opt.query,
        plan.reads_standard_input == (opt.query@ == standard_input_marker()),
        plan.parameters == opt.parameters,
        plan.output == opt.output,
        plan.batch_size == (BatchSizeLimit {
            max_rows: opt.batch_size_row,
            max_bytes: opt.batch_size_memory,
        }),
        plan.concurrent_fetching == !opt.sequential_fetching,
        plan.parquet_format_options.column_encodings == opt.parquet_column_encoding,
        plan.parquet_format_options.file_size == (FileSizeLimit {
            row_groups_per_file: opt.row_groups_per_file,
            byte_threshold: match opt.file_size_threshold {
                Some(bytes) => bytes,
                None => 0,
            },
        }),
        plan.parquet_format_options.suffix_length == opt.suffix_length,
        plan.parquet_format_options.no_empty_file == opt.no_empty_file,
        plan.use_utf16 == opt.encoding.spec_use_utf16(wide_platform),
        plan.avoid_decimal == opt.avoid_decimal,
        plan.driver_does_support_i64 == !opt.driver_does_not_support_64bit_integers,
        plan.column_length_limit == opt.column_length_limit,
{
    let reads = reads_standard_input(&opt.query);
    let compression = match zstd_page_compression(ZSTD_DEFAULT_LEVEL) {
        Ok(compression) => compression,
        Err(_) => vstd::pervasive::unreached(),
    };
    QueryPlan {
        connect_opts: opt.connect_opts,
        query: opt.query,
        reads_standard_input: reads,
        parameters: opt.parameters,
        output: opt.output,
        batch_size: BatchSizeLimit::new(opt.batch_size_row, opt.batch_size_memory),
        concurrent_fetching: !opt.sequential_fetching,
        parquet_format_options: ParquetWriterOptions {
            column_compression_default: compression,
            column_encodings: opt.parquet_column_encoding,
            file_size: FileSizeLimit::new(opt.row_groups_per_file, opt.file_size_threshold),
            suffix_length: opt.suffix_length,
            no_empty_file: opt.no_empty_file,
        },
        use_utf16: opt.encoding.use_utf16(wide_platform),
        avoid_decimal: opt.avoid_decimal,
        driver_does_support_i64: !opt.driver_does_not_support_64bit_integers,
        column_length_limit: opt.column_length_limit,
    }
}

impl QueryPlan {
    /// The mapping options for the database whose management system calls
    /// itself `db_name`.
    pub fn mapping_options(&self, db_name: String) -> (options: MappingOptions)
        ensures
            options.db_name == db_name,
            options.use_utf16 == self.use_utf16,
            !options.prefer_varbinary,
            options.avoid_decimal == self.avoid_decimal,
            options.driver_supports_i64 == self.driver_does_support_i64,
            options.column_length_limit == self.column_length_limit,
    {
        MappingOptions {
            db_name,
            use_utf16: self.use_utf16,
            prefer_varbinary: false,
            avoid_decimal: self.avoid_decimal,
            driver_supports_i64: self.driver_does_support_i64,
            column_length_limit: self.column_length_limit,
        }
    }
}

/// All that is set up to move the rows of one cursor into columnar files.
#[derive(Debug)]
pub struct Export {
    /// How every column is fetched and converted.
    pub strategy: ConversionStrategy,
    /// Where row groups go and when files roll over.
    pub writer: FileWriter,
    /// How many rows to bind buffers for.
    pub batch_rows: EffectiveRows,
    /// How batches are fetched.
    pub fetch_mode: FetchMode,
}

/// Why an export cannot be set up for a result set, if so: the columns have
/// no plan, or the output is a stream that would have to be split, or a
/// single row is beyond the byte limit of a batch, in this order.
pub open spec fn setup_error(
    columns: Seq<ColumnDescriptor>,
    path: OutputTarget,
    batch_size: BatchSizeLimit,
    mapping_options: &MappingOptions,
    parquet_format_options: &ParquetWriterOptions,
) -> Option<ExportError> {
    match planned(columns, mapping_options) {
        Err(e) => Some(e),
        Ok(strategies) => if path is StdStream
            && parquet_format_options.file_size.output_is_splitted() {
            Some(ExportError::InvalidConfiguration)
        } else if batch_size.row_exceeds_byte_cap(
            footprint_sum(strategies) as usize,
        ) {
            Some(ExportError::InvalidConfiguration)
        } else {
            None
        },
    }
}

impl Export {
    /// Whether the export is the one set up for a result set with
    /// `columns`: its plan is theirs, its writer is for `path` and has
    /// written nothing, its batch size is what the limit resolves to for the
    /// plan's rows, and it fetches as asked.
    pub open spec fn is_set_up_for(
        &self,
        columns: Seq<ColumnDescriptor>,
        path: OutputTarget,
        batch_size: BatchSizeLimit,
        concurrent_fetching: bool,
        mapping_options: &MappingOptions,
        parquet_format_options: &ParquetWriterOptions,
    ) -> bool {
        &&& self.strategy.wf()
        &&& self.strategy.plans(columns, mapping_options, parquet_format_options.column_encodings@)
        &&& self.writer.wf()
        &&& self.writer.target == path
        &&& self.writer.file_size == parquet_format_options.file_size
        &&& self.writer.suffix_length == parquet_format_options.suffix_length
        &&& self.writer.no_empty_file == parquet_format_options.no_empty_file
        &&& self.writer.num_file == 0
        &&& self.writer.current_file is None
        &&& self.writer.emitted@.len() == 0
        &&& self.writer.total_rows == 0
        &&& batch_size.spec_effective_rows(self.strategy.per_row_bytes) == Ok::<
            EffectiveRows,
            ExportError,
        >(self.batch_rows)
        &&& self.fetch_mode == (if concurrent_fetching {
            FetchMode::Concurrent
        } else {
            FetchMode::Sequential
        })
    }
}

/// Sets up the export of a cursor whose result set has the given columns:
/// the conversion plan, the writer for `path`, the size of a batch and the
/// way batches are fetched. Nothing is fetched or written yet. Fails as
/// `setup_error` says.
pub fn cursor_to_parquet(
    columns: &Vec<ColumnDescriptor>,
    path: OutputTarget,
    batch_size: BatchSizeLimit,
    concurrent_fetching: bool,
    mapping_options: &MappingOptions,
    parquet_format_options: &ParquetWriterOptions,
) -> (result: Result<Export, ExportError>)
    ensures
        match result {
            Ok(export) => {
                &&& setup_error(
                    columns@,
                    path,
                    batch_size,
                    mapping_options,
                    parquet_format_options,
                ) is None
                &&& export.is_set_up_for(
                    columns@,
                    path,
                    batch_size,
                    concurrent_fetching,
                    mapping_options,
                    parquet_format_options,
                )
            },
            Err(e) => setup_error(
                columns@,
                path,
                batch_size,
                mapping_options,
                parquet_format_options,
            ) == Some(e),
        },
{
    let strategy = match ConversionStrategy::new(
        columns,
        mapping_options,
        &parquet_format_options.column_encodings,
    ) {
        Ok(strategy) => strategy,
        Err(e) => {
            return Err(e);
        },
    };
    let writer = match FileWriter::new(path, parquet_format_options) {
        Ok(writer) => writer,
        Err(e) => {
            return Err(e);
        },
    };
    let batch_rows = match batch_size.effective_rows(strategy.per_row_bytes()) {
        Ok(rows) => rows,
        Err(e) => {
            return Err(e);
        },
    };
    Ok(Export { strategy, writer, batch_rows, fetch_mode: fetch_strategy(concurrent_fetching) })
}

/// Sets up the export once the statement was executed. A statement that
/// yields no result set, not even an empty one, has `columns` of `None`:
/// nothing is exported then, no file is created and the row count is zero.
/// Else the export is set up as `cursor_to_parquet` does, for the output,
/// the batch size and the fetch mode of `plan`.
pub fn begin_export(
    plan: &QueryPlan,
    mapping_options: &MappingOptions,
    columns: Option<&Vec<ColumnDescriptor>>,
) -> (result: Result<Option<Export>, ExportError>)
    ensures
        columns is None ==> result matches Ok(None),
        columns matches Some(columns) ==> match result {
            Ok(export) => {
                &&& setup_error(
                    columns@,
                    plan.output,
                    plan.batch_size,
                    mapping_options,
                    &plan.parquet_format_options,
                ) is None
                &&& export matches Some(export)
                &&& export.is_set_up_for(
                    columns@,
                    plan.output,
                    plan.batch_size,
                    plan.concurrent_fetching,
                    mapping_options,
                    &plan.parquet_format_options,
                )
            },
            Err(e) => setup_error(
                columns@,
                plan.output,
                plan.batch_size,
                mapping_options,
                &plan.parquet_format_options,
            ) == Some(e),
        },
{
    match columns {
        None => Ok(None),
        Some(columns) => {
            match cursor_to_parquet(
                columns,
                plan.output.clone(),
                plan.batch_size,
                plan.concurrent_fetching,
                mapping_options,
                &plan.parquet_format_options,
            ) {
                Ok(export) => Ok(Some(export)),
                Err(e) => Err(e),
            }
        },
    }
}

} // verus!
