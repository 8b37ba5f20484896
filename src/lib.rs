//! A key-value store read as a columnar table: each bucket becomes a record
//! batch with the columns `bucket`, `key` and `value`.
//!
//! The decisions of the conversion are verified here; the directory and file
//! reads that feed them are made by the caller.

pub mod error;
pub mod value;
pub mod batch;
pub mod entry;
pub mod pairs;
pub mod kvs;
