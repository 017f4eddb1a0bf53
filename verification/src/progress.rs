//! The throughput accumulator: a monotonic cumulative byte counter together
//! with the timed checkpoints that throttle console reporting.
//!
//! Time enters as plain milliseconds read from a monotonic clock by the
//! caller, so every timing decision here is checked.

use vstd::prelude::*;

verus! {

/// The sum of a sequence of recorded transfer counts.
pub open spec fn sum_of(s: Seq<u64>) -> int
    decreases s.len(),
{
    if s.len() == 0 {
        0
    } else {
        sum_of(s.drop_last()) + s.last()
    }
}

pub proof fn lemma_sum_of_push(s: Seq<u64>, n: u64)
    ensures
        sum_of(s.push(n)) == sum_of(s) + n,
{
    assert(s.push(n).drop_last() =~= s);
}

/// One progress line's worth of data: the cumulative count so far and the
/// time elapsed since the session started.
#[derive(Clone, Copy, PartialEq, Eq, Structural, Debug)]
pub struct ProgressReport {
    pub total_bytes: u64,
    pub elapsed_ms: u64,
}

/// The terminal summary: the final cumulative count and the session's total
/// elapsed time.
#[derive(Clone, Copy, PartialEq, Eq, Structural, Debug)]
pub struct Summary {
    pub total_bytes: u64,
    pub elapsed_ms: u64,
}

/// Tracks cumulative bytes moved and the checkpoint that rate-limits
/// progress reports. `history` records every individual count fed to
/// `record`, so that the counter is provably their sum.
pub struct Accumulator {
    pub total: u64,
    pub start_ms: u64,
    pub last_report_ms: u64,
    pub interval_ms: u64,
    pub history: Ghost<Seq<u64>>,
}

/// Whether a progress report is due at time `now_ms`: a full report interval
/// has passed since the last checkpoint.
pub open spec fn fires(a: Accumulator, now_ms: u64) -> bool {
    now_ms >= a.last_report_ms + a.interval_ms
}

/// The accumulator state after a report emitted at time `now_ms`: only the
/// checkpoint moves.
pub open spec fn after_report(a: Accumulator, now_ms: u64) -> Accumulator {
    Accumulator { last_report_ms: now_ms, ..a }
}

impl Accumulator {
    /// The accumulator's invariant: the counter is exactly the sum of the
    /// recorded counts, and the checkpoint never precedes the start.
    pub open spec fn wf(self) -> bool {
        &&& self.total == sum_of(self.history@)
        &&& self.start_ms <= self.last_report_ms
    }

    pub fn new(start_ms: u64, interval_ms: u64) -> (r: Self)
        ensures
            r.wf(),
            r.total == 0,
            r.start_ms == start_ms,
            r.last_report_ms == start_ms,
            r.interval_ms == interval_ms,
            r.history@ == Seq::<u64>::empty(),
    {
        Accumulator {
            total: 0,
            start_ms,
            last_report_ms: start_ms,
            interval_ms,
            history: Ghost(Seq::empty()),
        }
    }

    /// Add one transfer's byte count to the cumulative counter.
    pub fn record(&mut self, n: u64)
        requires
            old(self).wf(),
            old(self).total + n <= u64::MAX,
        ensures
            final(self).wf(),
            final(self).total == old(self).total + n,
            final(self).history@ == old(self).history@.push(n),
            final(self).start_ms == old(self).start_ms,
            final(self).last_report_ms == old(self).last_report_ms,
            final(self).interval_ms == old(self).interval_ms,
    {
        proof {
            lemma_sum_of_push(self.history@, n);
        }
        self.total = self.total + n;
        self.history = Ghost(self.history@.push(n));
    }

    /// Decide whether a progress line is due; when it is, return its data and
    /// move the checkpoint to `now_ms`.
    pub fn maybe_report(&mut self, now_ms: u64) -> (r: Option<ProgressReport>)
        requires
            old(self).wf(),
            now_ms >= old(self).last_report_ms,
        ensures
            final(self).wf(),
            r is Some <==> fires(*old(self), now_ms),
            r is Some ==> *final(self) == after_report(*old(self), now_ms),
            r is Some ==> r->Some_0 == (ProgressReport {
                total_bytes: old(self).total,
                elapsed_ms: (now_ms - old(self).start_ms) as u64,
            }),
            r is None ==> *final(self) == *old(self),
    {
        if now_ms - self.last_report_ms >= self.interval_ms {
            let report = ProgressReport {
                total_bytes: self.total,
                elapsed_ms: now_ms - self.start_ms,
            };
            self.last_report_ms = now_ms;
            Some(report)
        } else {
            None
        }
    }

    /// The terminal summary at time `now_ms`.
    pub fn finalize(&self, now_ms: u64) -> (r: Summary)
        requires
            self.wf(),
            now_ms >= self.start_ms,
        ensures
            r.total_bytes == self.total,
            r.elapsed_ms == now_ms - self.start_ms,
    {
        Summary { total_bytes: self.total, elapsed_ms: now_ms - self.start_ms }
    }
}

/// Conservation: the cumulative counter equals the sum of the individually
/// recorded transfer counts.
pub proof fn lemma_conservation(a: Accumulator)
    requires
        a.wf(),
    ensures
        a.total == sum_of(a.history@),
{
}

/// Rate limiting: once a report fires at `t1`, no further report can fire
/// before a full report interval has passed.
pub proof fn lemma_report_rate_limit(a: Accumulator, t1: u64, t2: u64)
    requires
        fires(a, t1),
        fires(after_report(a, t1), t2),
    ensures
        t2 >= t1 + a.interval_ms,
{
}

} // verus!
