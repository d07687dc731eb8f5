[package]
name = "firn"
version = "0.1.0"
edition = "2021"
publish = false

[dependencies]
polars = { version = "=0.46.0", default-features = false, features = ["lazy", "csv", "parquet", "strings", "regex", "fmt", "temporal", "dtype-i8", "dtype-i16", "dtype-u8", "dtype-u16", "dtype-date", "dtype-datetime", "dtype-time", "semi_anti_join", "cross_join"] }
polars-sql = { version = "=0.46.0", default-features = false }

[dev-dependencies]
tempfile = "3"
