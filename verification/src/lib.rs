//! Verified core of an MD5 checksum-manifest tool.
//!
//! The library covers the logic of producing and checking `digest name`
//! manifest lines: the strict line grammar, the streaming digest
//! accumulator (over the `md5` crate), the four-way classification of a
//! checked line, and the aggregation of outcomes into console lines and a
//! process exit code. Reading files and writing to the console stay with
//! the caller; the library works on plain values.

pub mod aggregate;
pub mod decimal;
pub mod digest;
pub mod engine;
pub mod hex;
pub mod parse;
