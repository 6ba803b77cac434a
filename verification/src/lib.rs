//! Extraction pipeline for trade fill events on one market.
//!
//! The pipeline discovers recent transaction identifiers, parses each
//! transaction into domain events under a bounded concurrency ceiling,
//! keeps only fill events, orders them by sequence number, and hands the
//! ordered batch to a storage collaborator one record at a time.

use vstd::prelude::*;

pub mod driver;
pub mod error;
pub mod events;
pub mod extractor;
pub mod logging;
pub mod models;
pub mod ohlc;
pub mod order;

pub use crate::driver::VybeDaemon;
pub use crate::error::VybeDaemonError;

verus! {

/// The listing collaborator is expected to return this many recent
/// transaction identifiers per cycle.
pub const NUM_EXPECTED_TRANSACTIONS: usize = 1000;

/// Ceiling on the number of parse tasks in flight at any instant.
pub const NUM_TASK_THREADS: usize = 100;

} // verus!
