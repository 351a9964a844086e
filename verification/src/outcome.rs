//! The result of one probe iteration.

use vstd::prelude::*;

verus! {

use crate::TIMEOUT_MS;

/// What one connection attempt came to: a success carrying the
/// measured connect time in milliseconds, or a failure.
#[derive(Clone, Copy, Debug, PartialEq, Eq, Structural)]
pub enum ProbeOutcome {
    Success(u128),
    Failure,
}

/// A success never carries a time above the timeout bound.
pub open spec fn outcome_wf(o: ProbeOutcome) -> bool {
    o matches ProbeOutcome::Success(t) ==> t <= TIMEOUT_MS
}

/// An attempt counts as a success exactly when the connection was made
/// and the measured time is within the timeout bound; anything else is
/// a failure.
pub open spec fn classify_spec(connected: bool, elapsed_ms: u128) -> ProbeOutcome {
    if connected && elapsed_ms <= TIMEOUT_MS {
        ProbeOutcome::Success(elapsed_ms)
    } else {
        ProbeOutcome::Failure
    }
}

/// Turns the raw result of a connection attempt (did it connect, and
/// how long did that take) into a [`ProbeOutcome`]. A measured time
/// above the timeout bound is never recorded as a success.
pub fn classify_attempt(connected: bool, elapsed_ms: u128) -> (o: ProbeOutcome)
    ensures
        o == classify_spec(connected, elapsed_ms),
        outcome_wf(o),
{
    if connected && elapsed_ms <= TIMEOUT_MS {
        ProbeOutcome::Success(elapsed_ms)
    } else {
        ProbeOutcome::Failure
    }
}

} // verus!
