//! Reconstruction of column-chunk statistics stored in a columnar file's
//! physical fixed-length-byte-array form into logically typed statistics
//! records: raw fixed-size binary bounds kept verbatim, or bounds
//! reinterpreted as big-endian 128-bit signed decimals.

pub mod bytes_be;
pub mod datatypes;
pub mod error;
pub mod parquet;
pub mod statistics;
pub mod text;
