//! Export of relational query results into columnar files.
//!
//! The crate holds the decisions of the export pipeline: how many rows a fetch
//! buffer may hold, which conversion each result column gets, how values are
//! transcoded, and when the output rolls over to the next file. Every function
//! carries a contract that Verus proves. Talking to the database driver and to
//! the file system is left to the caller, who feeds the outcomes back in.

pub mod enum_args;
pub mod error;
pub mod fetch_batch;
pub mod batch_size_limit;
pub mod connection;
pub mod conversion_strategy;
pub mod column_strategy;
pub mod current_file;
pub mod date;
pub mod decimal;
pub mod digits;
pub mod parquet_writer;
pub mod query;
pub mod rollover;
pub mod text;
pub mod time;
pub mod timestamp;
pub mod timestamp_precision;
pub mod timestamp_tz;
pub mod transcode;
mod text_util;
