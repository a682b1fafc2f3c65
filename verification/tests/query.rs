use odbc2parquet::batch_size_limit::{BatchSizeLimit, EffectiveRows, FileSizeLimit};
use odbc2parquet::column_strategy::{
    ColumnDescriptor, ColumnStrategy, MappingOptions, Passthrough, SqlType,
};
use odbc2parquet::current_file::OutputTarget;
use odbc2parquet::enum_args::{CompressionVariants, EncodingArgument};
use odbc2parquet::error::ExportError;
use odbc2parquet::fetch_batch::{BoundColumn, ColumnBuffer, FetchMode, RowBatch};
use odbc2parquet::parquet_writer::{
    zstd_page_compression, Finish, ParquetWriterOptions, RowGroupEnd, RowGroupStart,
};
use odbc2parquet::query::{
    begin_export, cursor_to_parquet, foreign_status, plan_query, query_statement_text,
    reads_standard_input, QueryOpt, DEFAULT_COLUMN_LENGTH_LIMIT, DEFAULT_SUFFIX_LENGTH,
    FOREIGN_FAILURE,
};
use odbc2parquet::transcode::ColumnValues;
use parquet::basic::{Compression, Encoding, ZstdLevel};

fn opt(query: &str, out: &str) -> QueryOpt {
    QueryOpt::for_export(String::from("DSN=test"), String::from(query), String::from(out))
}

fn integer_column(name: &str) -> ColumnDescriptor {
    ColumnDescriptor {
        index: 0,
        name: String::from(name),
        sql_type: SqlType::Integer { unsigned: false },
        nullable: false,
        declared_size: None,
        precision: 0,
        scale: 0,
        timestamp_precision: 0,
        with_timezone: false,
    }
}

fn writer_options(row_groups: u32, threshold: Option<u64>) -> ParquetWriterOptions {
    ParquetWriterOptions {
        column_compression_default: zstd_page_compression(3).unwrap(),
        column_encodings: Vec::new(),
        file_size: FileSizeLimit::new(row_groups, threshold),
        suffix_length: 2,
        no_empty_file: false,
    }
}

fn mapping() -> MappingOptions {
    MappingOptions {
        db_name: String::from("SQLite"),
        use_utf16: false,
        prefer_varbinary: false,
        avoid_decimal: false,
        driver_supports_i64: true,
        column_length_limit: 4096,
    }
}

#[test]
fn statement_given_directly_is_taken_as_it_is() {
    assert!(!reads_standard_input(&String::from("SELECT 42")));
    assert_eq!(
        query_statement_text(String::from("SELECT 42"), String::from("ignored")),
        "SELECT 42"
    );
    assert_eq!(query_statement_text(String::new(), String::from("ignored")), "");
    assert_eq!(query_statement_text(String::from("--"), String::from("ignored")), "--");
    assert_eq!(query_statement_text(String::from(" -"), String::from("ignored")), " -");
}

#[test]
fn statement_dash_is_read_from_standard_input() {
    assert!(reads_standard_input(&String::from("-")));
    assert_eq!(query_statement_text(String::from("-"), String::from("SELECT 42")), "SELECT 42");
    assert_eq!(query_statement_text(String::from("-"), String::new()), "");
}

#[test]
fn statement_from_standard_input_equals_the_statement_given_directly() {
    for statement in ["SELECT 42", "SELECT 1 AS x", "", " - ", "select '-'"] {
        let direct = query_statement_text(String::from(statement), String::from("unread"));
        let piped = query_statement_text(String::from("-"), String::from(statement));
        assert_eq!(direct, piped);
    }
}

#[test]
fn entry_point_defaults() {
    let opt = opt("SELECT 1", "out.parquet");
    assert_eq!(opt.connect_opts.connection_string.as_deref(), Some("DSN=test"));
    assert_eq!(opt.connect_opts.max_connect_retries, 0);
    assert_eq!(opt.connect_opts.connect_retry_interval, 0);
    assert_eq!(opt.query, "SELECT 1");
    assert!(matches!(&opt.output, OutputTarget::File(path) if path == "out.parquet"));
    assert_eq!(opt.column_compression_default, CompressionVariants::Zstd);
    assert_eq!(opt.encoding, EncodingArgument::Auto);
    assert_eq!(opt.batch_size_row, None);
    assert_eq!(opt.batch_size_memory, None);
    assert_eq!(opt.row_groups_per_file, 0);
    assert!(opt.sequential_fetching);
    assert_eq!(opt.file_size_threshold, None);
    assert_eq!(opt.column_length_limit, 4096);
    assert_eq!(DEFAULT_COLUMN_LENGTH_LIMIT, 4096);
    assert!(opt.parquet_column_encoding.is_empty());
    assert!(!opt.driver_does_not_support_64bit_integers);
    assert!(!opt.avoid_decimal);
    assert_eq!(opt.suffix_length, 2);
    assert_eq!(DEFAULT_SUFFIX_LENGTH, 2);
    assert!(!opt.no_empty_file);
    assert!(opt.parameters.is_empty());
}

#[test]
fn foreign_status_is_row_count_or_one() {
    assert_eq!(foreign_status(&Ok(0)), 0);
    assert_eq!(foreign_status(&Ok(1)), 1);
    assert_eq!(foreign_status(&Ok(10_000)), 10_000);
    assert_eq!(FOREIGN_FAILURE, 1);
    for e in [
        ExportError::InvalidConfiguration, ExportError::ConnectionFailure,
        ExportError::QueryFailure, ExportError::UnsupportedType, ExportError::ValueOutOfRange,
        ExportError::PrecisionLoss, ExportError::FetchFailure, ExportError::WriteFailure,
        ExportError::TooManyFiles,
    ] {
        assert_eq!(foreign_status(&Err(e)), 1);
    }
}

#[test]
fn encoding_argument_decides_utf16() {
    assert!(!EncodingArgument::System.use_utf16(true));
    assert!(!EncodingArgument::System.use_utf16(false));
    assert!(EncodingArgument::Utf16.use_utf16(true));
    assert!(EncodingArgument::Utf16.use_utf16(false));
    assert!(EncodingArgument::Auto.use_utf16(true));
    assert!(!EncodingArgument::Auto.use_utf16(false));
}

#[test]
fn plan_takes_the_options_apart() {
    let mut o = opt("-", "out.parquet");
    o.batch_size_row = Some(1000);
    o.batch_size_memory = Some(1 << 30);
    o.row_groups_per_file = 4;
    o.file_size_threshold = Some(1 << 20);
    o.sequential_fetching = false;
    o.column_length_limit = 99;
    o.parquet_column_encoding = vec![(String::from("x"), Encoding::PLAIN)];
    o.driver_does_not_support_64bit_integers = true;
    o.avoid_decimal = true;
    o.suffix_length = 3;
    o.no_empty_file = true;
    o.parameters = vec![String::from("a"), String::from("b")];
    o.column_compression_default = CompressionVariants::Snappy;
    o.connect_opts.max_connect_retries = 4;
    let plan = plan_query(o, true);
    assert_eq!(plan.connect_opts.max_connect_retries, 4);
    assert_eq!(plan.connect_opts.connection_string.as_deref(), Some("DSN=test"));
    assert_eq!(plan.query, "-");
    assert!(plan.reads_standard_input);
    assert_eq!(plan.parameters, vec![String::from("a"), String::from("b")]);
    assert!(matches!(&plan.output, OutputTarget::File(path) if path == "out.parquet"));
    assert_eq!(plan.batch_size, BatchSizeLimit::new(Some(1000), Some(1 << 30)));
    assert!(plan.concurrent_fetching);
    assert_eq!(
        plan.parquet_format_options.column_compression_default,
        Compression::ZSTD(ZstdLevel::try_new(3).unwrap())
    );
    assert_eq!(
        plan.parquet_format_options.column_encodings,
        vec![(String::from("x"), Encoding::PLAIN)]
    );
    assert_eq!(plan.parquet_format_options.file_size, FileSizeLimit::new(4, Some(1 << 20)));
    assert_eq!(plan.parquet_format_options.suffix_length, 3);
    assert!(plan.parquet_format_options.no_empty_file);
    assert!(plan.use_utf16);
    assert!(plan.avoid_decimal);
    assert!(!plan.driver_does_support_i64);
    assert_eq!(plan.column_length_limit, 99);
    let m = plan.mapping_options(String::from("Microsoft SQL Server"));
    assert_eq!(m.db_name, "Microsoft SQL Server");
    assert!(m.use_utf16);
    assert!(!m.prefer_varbinary);
    assert!(m.avoid_decimal);
    assert!(!m.driver_supports_i64);
    assert_eq!(m.column_length_limit, 99);
}

#[test]
fn plan_of_the_defaults() {
    let plan = plan_query(opt("SELECT 1", "out.parquet"), false);
    assert!(!plan.reads_standard_input);
    assert!(!plan.concurrent_fetching);
    assert!(!plan.use_utf16);
    assert!(plan.driver_does_support_i64);
    assert_eq!(plan.batch_size, BatchSizeLimit::new(None, None));
    assert_eq!(plan.parquet_format_options.file_size, FileSizeLimit::new(0, None));
    assert!(!plan.parquet_format_options.file_size.output_is_splitted());
}

#[test]
fn statement_without_result_set_exports_nothing() {
    let plan = plan_query(opt("CREATE TABLE t (x INT)", "out.parquet"), false);
    let mapping = plan.mapping_options(String::from("SQLite"));
    assert!(matches!(begin_export(&plan, &mapping, None), Ok(None)));
}

#[test]
fn select_one_as_x_gives_one_file_with_one_signed_integer() {
    let plan = plan_query(opt("SELECT 1 AS x", "out.parquet"), false);
    let mapping = plan.mapping_options(String::from("SQLite"));
    let columns = vec![integer_column("x")];
    let mut export = begin_export(&plan, &mapping, Some(&columns)).unwrap().unwrap();
    assert_eq!(export.batch_rows, EffectiveRows::DriverDefault);
    assert_eq!(export.fetch_mode, FetchMode::Sequential);
    assert_eq!(
        export.strategy.strategies,
        vec![ColumnStrategy::Identical { kind: Passthrough::Int32 { bit_width: 32, signed: true } }]
    );
    assert_eq!(export.strategy.parquet_schema()[0].name, "x");
    let batch = RowBatch {
        num_rows: 1,
        columns: vec![BoundColumn { nulls: vec![false], values: ColumnBuffer::Int32(vec![1]) }],
    };
    let group = export.strategy.transcode(&batch).unwrap();
    assert!(matches!(&group.columns[0].values, ColumnValues::Int32(v) if *v == vec![1]));
    match export.writer.begin_row_group(group.num_rows).unwrap() {
        RowGroupStart::OpenFile(OutputTarget::File(path)) => assert_eq!(path, "out.parquet"),
        other => panic!("expected the output file, got {:?}", other),
    }
    assert_eq!(export.writer.end_row_group(group.num_rows, 256), RowGroupEnd::KeepOpen);
    let report = export.writer.finish().unwrap();
    assert!(matches!(report.action, Finish::CloseFile));
    assert_eq!(report.files.len(), 1);
    assert_eq!(report.total_rows, 1);
    assert_eq!(foreign_status(&Ok(report.total_rows)), 1);
}

#[test]
fn setup_resolves_the_batch_size_from_the_row_footprint() {
    let columns = vec![integer_column("a"), integer_column("b")];
    let export = cursor_to_parquet(
        &columns,
        OutputTarget::File(String::from("o.par")),
        BatchSizeLimit::new(Some(1000), Some(240)),
        true,
        &mapping(),
        &writer_options(0, None),
    )
    .unwrap();
    assert_eq!(export.strategy.per_row_bytes(), 24);
    assert_eq!(export.batch_rows, EffectiveRows::Rows(10));
    assert_eq!(export.fetch_mode, FetchMode::Concurrent);
    assert_eq!(export.writer.num_file, 0);
    assert_eq!(export.writer.total_rows, 0);
    assert!(export.writer.current_file.is_none());
}

#[test]
fn row_beyond_the_byte_cap_is_invalid_configuration() {
    let columns = vec![integer_column("a"), integer_column("b")];
    let result = cursor_to_parquet(
        &columns,
        OutputTarget::File(String::from("o.par")),
        BatchSizeLimit::new(None, Some(23)),
        false,
        &mapping(),
        &writer_options(0, None),
    );
    assert!(matches!(result, Err(ExportError::InvalidConfiguration)));
}

#[test]
fn setup_fails_in_the_order_plan_writer_batch() {
    let mut unsupported = integer_column("u");
    unsupported.sql_type = SqlType::Other { code: 5 };
    let result = cursor_to_parquet(
        &vec![unsupported],
        OutputTarget::StdStream,
        BatchSizeLimit::new(None, Some(1)),
        false,
        &mapping(),
        &writer_options(1, None),
    );
    assert!(matches!(result, Err(ExportError::UnsupportedType)));
    let result = cursor_to_parquet(
        &vec![integer_column("a")],
        OutputTarget::StdStream,
        BatchSizeLimit::new(None, None),
        false,
        &mapping(),
        &writer_options(1, None),
    );
    assert!(matches!(result, Err(ExportError::InvalidConfiguration)));
    let result = cursor_to_parquet(
        &vec![integer_column("a")],
        OutputTarget::StdStream,
        BatchSizeLimit::new(None, None),
        false,
        &mapping(),
        &writer_options(0, None),
    );
    assert!(result.is_ok());
}
