//! A verified core for a TCP reachability and latency probe.
//!
//! The library holds the logic of the probe: classifying a connection
//! attempt as success or failure, accumulating running statistics with
//! an integer-truncating average, choosing one address out of a
//! resolution result, and rendering the per-attempt and summary lines.
//! The surrounding I/O (name resolution, the connection itself, the
//! clock, the stop signal) is left to the embedding program, which
//! hands this library plain values.

use vstd::prelude::*;

pub mod outcome;
pub mod probe;
pub mod report;
pub mod resolve;
pub mod stats;

verus! {

/// Bound on a connection attempt, in milliseconds.
pub const TIMEOUT_MS: u128 = 3000;

/// Largest sequence number the accumulator accepts; keeps the
/// running-average numerator within `u128`.
pub const MAX_SEQ: u128 = u128::MAX / TIMEOUT_MS;

} // verus!
