//! One iteration of the probe loop.
//!
//! The loop itself lives in the embedding program, which checks the
//! running flag at each iteration boundary, makes the timed
//! connection attempt and sleeps between attempts; each attempt's raw
//! result is handed here, where it is classified, folded into the
//! statistics and turned into the line to print.

use vstd::prelude::*;

verus! {

use crate::MAX_SEQ;
use crate::outcome::ProbeOutcome;
use crate::outcome::classify_attempt;
use crate::outcome::classify_spec;
use crate::report::failure_line_spec;
use crate::report::success_line_spec;
use crate::report::failure_line;
use crate::report::success_line;
use crate::resolve::HostAddr;
use crate::stats::Statistics;
use crate::stats::outcomes_wf;
use crate::stats::stats_after;
use crate::stats::stats_step;
use crate::stats::stats_wf;
use crate::stats::lemma_loss_accounting;

/// The line reported for attempt number `sequence`, by its outcome.
pub open spec fn report_line_spec(
    addr: Seq<char>,
    host: Seq<char>,
    sequence: int,
    o: ProbeOutcome,
) -> Seq<char> {
    match o {
        ProbeOutcome::Success(t) => success_line_spec(addr, host, sequence, t as int),
        ProbeOutcome::Failure => failure_line_spec(addr, host),
    }
}

/// One probe iteration, after the connection attempt itself: the raw
/// result is classified, the statistics are advanced by one
/// [`stats_step`], and the report line for this attempt is returned.
pub fn probe_step(
    stats: &mut Statistics,
    address: &HostAddr,
    connected: bool,
    elapsed_ms: u128,
) -> (line: String)
    requires
        stats_wf(*old(stats)),
        old(stats).sequence <= MAX_SEQ,
    ensures
        *final(stats) == stats_step(*old(stats), classify_spec(connected, elapsed_ms)),
        stats_wf(*final(stats)),
        line@ == report_line_spec(
            address.addr@,
            address.hostname@,
            old(stats).sequence as int,
            classify_spec(connected, elapsed_ms),
        ),
{
    let outcome = classify_attempt(connected, elapsed_ms);
    let line = match outcome {
        ProbeOutcome::Success(t) => success_line(address, stats.sequence, t),
        ProbeOutcome::Failure => failure_line(address),
    };
    stats.record(outcome);
    line
}

/// Replays a scripted sequence of outcomes from the initial state,
/// returning exactly the statistics that [`stats_after`] states.
pub fn replay(outcomes: &Vec<ProbeOutcome>) -> (s: Statistics)
    requires
        outcomes_wf(outcomes@),
        outcomes@.len() <= MAX_SEQ,
    ensures
        s == stats_after(outcomes@),
{
    let mut s = Statistics::new();
    let mut i: usize = 0;
    while i < outcomes.len()
        invariant
            i <= outcomes@.len(),
            outcomes_wf(outcomes@),
            outcomes@.len() <= MAX_SEQ,
            s == stats_after(outcomes@.take(i as int)),
        decreases outcomes@.len() - i,
    {
        proof {
            lemma_loss_accounting(outcomes@.take(i as int));
        }
        s.record(outcomes[i]);
        proof {
            assert(outcomes@.take(i as int + 1).drop_last() =~= outcomes@.take(i as int));
        }
        i = i + 1;
    }
    proof {
        assert(outcomes@.take(outcomes@.len() as int) =~= outcomes@);
    }
    s
}

} // verus!
