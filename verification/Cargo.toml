[package]
name = "fixlen_stats"
version = "0.1.0"
edition = "2021"
publish = false

[dependencies]
parquet2 = { version = "*", default-features = false }
