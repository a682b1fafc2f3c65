[package]
name = "odbc2parquet"
version = "0.1.0"
edition = "2021"
publish = false

[dependencies]
anyhow = "1"
bytesize = "*"
io-arg = "*"
log = "0.4"
odbc-api = "*"
once_cell = "1"
parquet = { version = "*", default-features = false, features = ["zstd"] }
