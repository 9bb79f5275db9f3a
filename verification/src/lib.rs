//! Moves the objects of one storage bucket to another, one object at a time:
//! the listing is spooled to a flat file, transfers run a bounded number at a
//! time, upload endpoints are kept in a pool, and keys that could not be moved
//! are written to a failure log.
//!
//! This crate holds the rules of that pipeline as verified state machines and
//! pure functions. Network and file access are left to the caller, which feeds
//! results in and carries actions out.

pub mod aws_cache;
pub mod backblaze;
pub mod error;
pub mod failed;
pub mod lines;
pub mod schedule;
pub mod transfer;
pub mod url_cache;

pub use error::{TransferError, TransferResult};
