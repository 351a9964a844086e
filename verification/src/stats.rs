//! Running statistics of the probe loop.
//!
//! The accumulator keeps a 1-based sequence counter, a running average
//! under integer truncation, the observed minimum and maximum connect
//! times, and the number of lost attempts. The average is updated by
//! the recurrence `avg := (avg * (seq - 1) + t) / seq` on a success
//! and `avg := avg * (seq - 1) / seq` on a failure, where `seq` is the
//! 1-based index of the attempt just completed; the repeated
//! truncation is a deliberate property of the design, kept exactly.

use vstd::prelude::*;

verus! {

use vstd::arithmetic::div_mod::lemma_fundamental_div_mod;
use crate::MAX_SEQ;
use crate::TIMEOUT_MS;
use crate::outcome::ProbeOutcome;
use crate::outcome::outcome_wf;

/// Aggregate state of a probe run, updated once per iteration.
#[derive(Clone, Copy, Debug, PartialEq, Eq, Structural)]
pub struct Statistics {
    /// 1-based sequence counter; one more than the attempts made so far.
    pub sequence: u128,
    /// Running average in milliseconds, under integer truncation.
    pub avg: u128,
    /// Smallest connect time seen; `u128::MAX` while no success has occurred.
    pub min: u128,
    /// Largest connect time seen; 0 while no success has occurred.
    pub max: u128,
    /// Number of failed attempts.
    pub lost: u128,
}

/// The state before any attempt: sequence 1, average and maximum and
/// lost count 0, minimum at its "no observation yet" sentinel.
pub open spec fn init_stats() -> Statistics {
    Statistics { sequence: 1, avg: 0, min: u128::MAX, max: 0, lost: 0 }
}

/// Well-formedness of the accumulator: the counter started at 1, the
/// average and maximum stay within the timeout bound, fewer attempts
/// were lost than the counter has numbered, and the minimum is either
/// still the sentinel or a real observation below the maximum.
pub open spec fn stats_wf(s: Statistics) -> bool {
    &&& 1 <= s.sequence
    &&& s.avg <= TIMEOUT_MS
    &&& s.max <= TIMEOUT_MS
    &&& s.lost < s.sequence
    &&& (s.min == u128::MAX || (s.min <= s.max))
}

/// One update of the statistics by the outcome of attempt number
/// `s.sequence`: the stated recurrence for the average, minimum and
/// maximum moved only on a success, the lost count only on a failure,
/// and the sequence counter incremented afterwards.
pub open spec fn stats_step(s: Statistics, o: ProbeOutcome) -> Statistics {
    match o {
        ProbeOutcome::Success(t) => Statistics {
            sequence: (s.sequence + 1) as u128,
            avg: ((s.avg * (s.sequence - 1) + t) / (s.sequence as int)) as u128,
            min: if t < s.min { t } else { s.min },
            max: if t > s.max { t } else { s.max },
            lost: s.lost,
        },
        ProbeOutcome::Failure => Statistics {
            sequence: (s.sequence + 1) as u128,
            avg: ((s.avg * (s.sequence - 1)) / (s.sequence as int)) as u128,
            min: s.min,
            max: s.max,
            lost: (s.lost + 1) as u128,
        },
    }
}

/// The statistics after replaying a whole sequence of outcomes from
/// the initial state.
pub open spec fn stats_after(outcomes: Seq<ProbeOutcome>) -> Statistics
    decreases outcomes.len(),
{
    if outcomes.len() == 0 {
        init_stats()
    } else {
        stats_step(stats_after(outcomes.drop_last()), outcomes.last())
    }
}

/// How many outcomes of the sequence are successes.
pub open spec fn success_count(outcomes: Seq<ProbeOutcome>) -> int
    decreases outcomes.len(),
{
    if outcomes.len() == 0 {
        0
    } else {
        success_count(outcomes.drop_last()) + if outcomes.last() is Success {
            1int
        } else {
            0int
        }
    }
}

/// Every outcome of the sequence is well-formed.
pub open spec fn outcomes_wf(outcomes: Seq<ProbeOutcome>) -> bool {
    forall|i: int| 0 <= i < outcomes.len() ==> outcome_wf(#[trigger] outcomes[i])
}

/// The numerator of the average recurrence stays within `u128`, and
/// the quotient within the timeout bound.
proof fn lemma_avg_bounds(avg: int, seq: int, t: int)
    requires
        1 <= seq <= MAX_SEQ,
        0 <= avg <= TIMEOUT_MS,
        0 <= t <= TIMEOUT_MS,
    ensures
        0 <= avg * (seq - 1) + t <= u128::MAX,
        0 <= (avg * (seq - 1) + t) / seq <= TIMEOUT_MS,
{
    assert(avg * (seq - 1) + t <= TIMEOUT_MS * seq) by (nonlinear_arith)
        requires
            1 <= seq,
            0 <= avg <= TIMEOUT_MS,
            0 <= t <= TIMEOUT_MS,
    ;
    assert(TIMEOUT_MS * seq <= TIMEOUT_MS * MAX_SEQ) by (nonlinear_arith)
        requires
            seq <= MAX_SEQ,
            0 < TIMEOUT_MS,
    ;
    lemma_fundamental_div_mod(u128::MAX as int, TIMEOUT_MS as int);
    assert(TIMEOUT_MS * MAX_SEQ <= u128::MAX);
    assert((avg * (seq - 1) + t) / seq <= TIMEOUT_MS) by (nonlinear_arith)
        requires
            1 <= seq,
            0 <= avg * (seq - 1) + t <= TIMEOUT_MS * seq,
    ;
    assert(0 <= (avg * (seq - 1) + t) / seq) by (nonlinear_arith)
        requires
            1 <= seq,
            0 <= avg * (seq - 1) + t,
    ;
}

/// One step of the recurrence preserves well-formedness and moves the
/// counters as stated.
pub proof fn lemma_step_wf(s: Statistics, o: ProbeOutcome)
    requires
        stats_wf(s),
        outcome_wf(o),
        s.sequence <= MAX_SEQ,
    ensures
        stats_wf(stats_step(s, o)),
        stats_step(s, o).sequence == s.sequence + 1,
        stats_step(s, o).lost == s.lost + if o is Success { 0int } else { 1int },
        o is Failure ==> stats_step(s, o).min == s.min && stats_step(s, o).max == s.max,
{
    match o {
        ProbeOutcome::Success(t) => {
            lemma_avg_bounds(s.avg as int, s.sequence as int, t as int);
        },
        ProbeOutcome::Failure => {
            lemma_avg_bounds(s.avg as int, s.sequence as int, 0);
        },
    }
}

impl Statistics {
    /// The accumulator before any attempt.
    pub fn new() -> (s: Statistics)
        ensures
            s == init_stats(),
            stats_wf(s),
    {
        Statistics { sequence: 1, avg: 0, min: u128::MAX, max: 0, lost: 0 }
    }

    /// Folds the outcome of attempt number `self.sequence` into the
    /// statistics, exactly as [`stats_step`] states: the average by
    /// the integer-truncating recurrence, minimum and maximum touched
    /// only on a success, the lost count only on a failure, and the
    /// sequence counter incremented last.
    pub fn record(&mut self, outcome: ProbeOutcome)
        requires
            stats_wf(*old(self)),
            outcome_wf(outcome),
            old(self).sequence <= MAX_SEQ,
        ensures
            *final(self) == stats_step(*old(self), outcome),
            stats_wf(*final(self)),
    {
        proof {
            lemma_step_wf(*self, outcome);
        }
        match outcome {
            ProbeOutcome::Success(t) => {
                proof {
                    lemma_avg_bounds(self.avg as int, self.sequence as int, t as int);
                }
                self.avg = (self.avg * (self.sequence - 1) + t) / self.sequence;
                if t < self.min {
                    self.min = t;
                }
                if t > self.max {
                    self.max = t;
                }
            },
            ProbeOutcome::Failure => {
                proof {
                    lemma_avg_bounds(self.avg as int, self.sequence as int, 0);
                }
                self.lost = self.lost + 1;
                self.avg = self.avg * (self.sequence - 1) / self.sequence;
            },
        }
        self.sequence = self.sequence + 1;
    }
}

/// Law: after `n` completed iterations the lost count is at most `n`,
/// and `n - lost` is exactly the number of success outcomes recorded;
/// the sequence counter stands at `n + 1`, the statistics are
/// well-formed, the minimum sits below the maximum once a success has
/// occurred, and stays at its sentinel as long as none has.
pub proof fn lemma_loss_accounting(outcomes: Seq<ProbeOutcome>)
    requires
        outcomes_wf(outcomes),
        outcomes.len() <= MAX_SEQ,
    ensures
        stats_wf(stats_after(outcomes)),
        stats_after(outcomes).sequence == outcomes.len() + 1,
        stats_after(outcomes).lost <= outcomes.len(),
        outcomes.len() - stats_after(outcomes).lost == success_count(outcomes),
        success_count(outcomes) > 0 ==> stats_after(outcomes).min <= stats_after(outcomes).max,
        success_count(outcomes) == 0 ==> stats_after(outcomes).min == u128::MAX,
    decreases outcomes.len(),
{
    if outcomes.len() > 0 {
        lemma_loss_accounting(outcomes.drop_last());
        lemma_step_wf(stats_after(outcomes.drop_last()), outcomes.last());
    }
}

/// Law: minimum and maximum move only on a success. A run made of
/// failures alone leaves the minimum at its sentinel, the maximum and
/// the average at 0, and counts every attempt as lost.
pub proof fn lemma_all_failures(outcomes: Seq<ProbeOutcome>)
    requires
        forall|i: int| 0 <= i < outcomes.len() ==> #[trigger] outcomes[i] is Failure,
        outcomes.len() <= MAX_SEQ,
    ensures
        stats_after(outcomes).min == u128::MAX,
        stats_after(outcomes).max == 0,
        stats_after(outcomes).avg == 0,
        stats_after(outcomes).lost == outcomes.len(),
    decreases outcomes.len(),
{
    if outcomes.len() > 0 {
        lemma_all_failures(outcomes.drop_last());
        lemma_loss_accounting(outcomes.drop_last());
        let prev = stats_after(outcomes.drop_last());
        assert(0int * (prev.sequence - 1) == 0) by (nonlinear_arith);
        assert(0int / (prev.sequence as int) == 0);
    }
}

} // verus!
