//! One reactor session: the decisions the readiness-driven loop makes, from
//! registration to termination.
//!
//! The surrounding process performs the outside work — waiting on the
//! notification facility, moving bytes over the socket, reading the clock —
//! and feeds the plain results back in; every decision about what those
//! results mean is made and checked here.

use vstd::prelude::*;

use crate::events::{RawEvent, has, is_termination, is_termination_event, contains, READABLE,
    WRITABLE};
use crate::progress::{Accumulator, ProgressReport, Summary, fires};

verus! {

/// Which side of the stream this session drives: the server writes filler
/// bytes, the client reads them.
#[derive(Clone, Copy, PartialEq, Eq, Structural, Debug)]
pub enum Role {
    Server,
    Client,
}

/// Why a session ended.
#[derive(Clone, Copy, PartialEq, Eq, Structural, Debug)]
pub enum Termination {
    /// A hangup, remote-hangup or error readiness event: the normal
    /// end-of-stream signal for both roles.
    PeerClosed,
    /// A zero-byte read: orderly peer shutdown seen by the client.
    EndOfStream,
    /// The Stop Signal was set.
    Cancelled,
    /// The readiness wait itself failed.
    WaitFailed,
    /// A readiness event named a descriptor other than the registered one:
    /// a protocol violation that ends the session but not the process.
    ForeignDescriptor,
}

/// What one non-blocking read or write attempt came to.
#[derive(Clone, Copy, PartialEq, Eq, Structural, Debug)]
pub enum IoOutcome {
    /// The call moved this many bytes (possibly fewer than offered; possibly
    /// zero).
    Transferred(usize),
    /// The transient would-block condition: not an error, wait for the next
    /// readiness notification.
    WouldBlock,
    /// Any other I/O failure: reported, but tolerated as transient.
    Failed,
}

/// The interpretation of one readiness event: which actions the loop is to
/// take for it.
#[derive(Clone, Copy, PartialEq, Eq, Structural, Debug)]
pub struct EventPlan {
    /// The event's datum names a descriptor other than the registered one:
    /// an anomaly to report.
    pub descriptor_mismatch: bool,
    /// End the session now; no data action follows.
    pub terminate: bool,
    /// Offer the scratch buffer to one bounded write attempt.
    pub attempt_write: bool,
    /// Attempt one bounded read into the scratch buffer.
    pub attempt_read: bool,
    /// Readable readiness the server only notes; it never reads.
    pub note_readable: bool,
}

/// Whether an event ends the session's loop: a terminating readiness
/// condition, or the anomaly of a descriptor other than the registered one.
pub open spec fn stops_loop(registered: u64, ev: RawEvent) -> bool {
    is_termination(ev.bits) || ev.data != registered
}

/// How one readiness event is interpreted, given the session's role and its
/// registered descriptor. Session-ending conditions take precedence: an event
/// that stops the loop plans no data action, whatever other bits accompany
/// it.
pub open spec fn event_plan(role: Role, registered: u64, ev: RawEvent) -> EventPlan {
    EventPlan {
        descriptor_mismatch: ev.data != registered,
        terminate: is_termination(ev.bits),
        attempt_write: !stops_loop(registered, ev) && has(ev.bits, WRITABLE) && role is Server,
        attempt_read: !stops_loop(registered, ev) && has(ev.bits, READABLE) && role is Client,
        note_readable: !stops_loop(registered, ev) && has(ev.bits, READABLE) && role is Server,
    }
}

/// How many events of a readiness batch the loop consumes: everything up to
/// and including the first session-ending event, or the whole batch when none
/// ends the session.
pub open spec fn consumed_len(registered: u64, batch: Seq<RawEvent>, i: int) -> int
    decreases batch.len() - i,
{
    if i < 0 || i >= batch.len() {
        0
    } else if stops_loop(registered, batch[i]) {
        1
    } else {
        1 + consumed_len(registered, batch, i + 1)
    }
}

/// One session's state: the identity of the one registered descriptor, the
/// throughput accumulator, and whether (and why) the session has ended.
pub struct Session {
    pub role: Role,
    pub descriptor: u64,
    pub acc: Accumulator,
    pub done: bool,
    pub termination: Option<Termination>,
}

impl Session {
    /// The session invariant: the accumulator is well formed, and the session
    /// is done exactly when a termination reason is on record.
    pub open spec fn wf(self) -> bool {
        &&& self.acc.wf()
        &&& self.done <==> self.termination is Some
    }

    /// Begin a session for the endpoint registered under `descriptor`, with
    /// the clock reading `start_ms` and progress reports throttled to one per
    /// `interval_ms`.
    pub fn new(role: Role, descriptor: u64, start_ms: u64, interval_ms: u64) -> (r: Self)
        ensures
            r.wf(),
            r.role == role,
            r.descriptor == descriptor,
            !r.done,
            r.termination is None,
            r.acc.total == 0,
            r.acc.start_ms == start_ms,
            r.acc.last_report_ms == start_ms,
            r.acc.interval_ms == interval_ms,
            r.acc.history@ == Seq::<u64>::empty(),
    {
        Session {
            role,
            descriptor,
            acc: Accumulator::new(start_ms, interval_ms),
            done: false,
            termination: None,
        }
    }

    pub fn is_done(&self) -> (r: bool)
        ensures
            r == self.done,
    {
        self.done
    }

    /// Interpret one readiness event.
    pub fn plan_event(&self, ev: &RawEvent) -> (plan: EventPlan)
        ensures
            plan == event_plan(self.role, self.descriptor, *ev),
    {
        let terminate = is_termination_event(ev.bits);
        let mismatch = ev.data != self.descriptor;
        let stops = terminate || mismatch;
        let is_server = match self.role {
            Role::Server => true,
            Role::Client => false,
        };
        EventPlan {
            descriptor_mismatch: mismatch,
            terminate,
            attempt_write: !stops && contains(ev.bits, WRITABLE) && is_server,
            attempt_read: !stops && contains(ev.bits, READABLE) && !is_server,
            note_readable: !stops && contains(ev.bits, READABLE) && is_server,
        }
    }

    /// Interpret a whole readiness batch, in the order the facility returned
    /// it, stopping at the first session-ending event: nothing after it is
    /// acted on.
    pub fn plan_batch(&self, batch: &Vec<RawEvent>) -> (plans: Vec<EventPlan>)
        ensures
            plans@.len() == consumed_len(self.descriptor, batch@, 0),
            forall|i: int| 0 <= i < plans@.len()
                ==> plans@[i] == event_plan(self.role, self.descriptor, batch@[i]),
    {
        let mut plans: Vec<EventPlan> = Vec::new();
        let mut i: usize = 0;
        loop
            invariant_except_break
                0 <= i <= batch@.len(),
                plans@.len() == i,
                consumed_len(self.descriptor, batch@, 0) == i + consumed_len(
                    self.descriptor,
                    batch@,
                    i as int,
                ),
                forall|j: int| 0 <= j < i
                    ==> plans@[j] == event_plan(self.role, self.descriptor, batch@[j]),
                forall|j: int| 0 <= j < i ==> !stops_loop(self.descriptor, batch@[j]),
            ensures
                plans@.len() == consumed_len(self.descriptor, batch@, 0),
                forall|j: int| 0 <= j < plans@.len()
                    ==> plans@[j] == event_plan(self.role, self.descriptor, batch@[j]),
            decreases batch@.len() - i,
        {
            if i >= batch.len() {
                proof {
                    assert(consumed_len(self.descriptor, batch@, i as int) == 0);
                }
                break;
            }
            let plan = self.plan_event(&batch[i]);
            plans.push(plan);
            if plan.terminate || plan.descriptor_mismatch {
                proof {
                    assert(consumed_len(self.descriptor, batch@, i as int) == 1);
                }
                break;
            }
            i = i + 1;
        }
        plans
    }

    /// Note the outcome of one write attempt (server side). A transferred
    /// count is accumulated and may yield a progress report; would-block and
    /// other failures are transient and change nothing.
    pub fn on_write_result(&mut self, outcome: IoOutcome, now_ms: u64) -> (r: Option<
        ProgressReport,
    >)
        requires
            old(self).wf(),
            !old(self).done,
            old(self).role is Server,
            now_ms >= old(self).acc.last_report_ms,
            outcome matches IoOutcome::Transferred(n) ==> old(self).acc.total + n <= u64::MAX,
        ensures
            final(self).wf(),
            final(self).role == old(self).role,
            final(self).descriptor == old(self).descriptor,
            !final(self).done,
            final(self).termination is None,
            match outcome {
                IoOutcome::Transferred(n) => {
                    &&& final(self).acc.total == old(self).acc.total + n
                    &&& final(self).acc.history@ == old(self).acc.history@.push(n as u64)
                    &&& final(self).acc.start_ms == old(self).acc.start_ms
                    &&& final(self).acc.interval_ms == old(self).acc.interval_ms
                    &&& (r is Some <==> fires(old(self).acc, now_ms))
                    &&& (r is Some ==> final(self).acc.last_report_ms == now_ms)
                    &&& (r is None ==> final(self).acc.last_report_ms == old(
                        self,
                    ).acc.last_report_ms)
                    &&& (r is Some ==> r->Some_0 == (ProgressReport {
                        total_bytes: (old(self).acc.total + n) as u64,
                        elapsed_ms: (now_ms - old(self).acc.start_ms) as u64,
                    }))
                },
                _ => r is None && final(self).acc == old(self).acc,
            },
    {
        match outcome {
            IoOutcome::Transferred(n) => {
                self.acc.record(n as u64);
                self.acc.maybe_report(now_ms)
            },
            IoOutcome::WouldBlock => None,
            IoOutcome::Failed => None,
        }
    }

    /// Note the outcome of one read attempt (client side). A zero-byte read
    /// is orderly peer shutdown and ends the session; a positive count is
    /// accumulated and may yield a progress report; would-block and other
    /// failures are transient and change nothing.
    pub fn on_read_result(&mut self, outcome: IoOutcome, now_ms: u64) -> (r: Option<
        ProgressReport,
    >)
        requires
            old(self).wf(),
            !old(self).done,
            old(self).role is Client,
            now_ms >= old(self).acc.last_report_ms,
            outcome matches IoOutcome::Transferred(n) ==> old(self).acc.total + n <= u64::MAX,
        ensures
            final(self).wf(),
            final(self).role == old(self).role,
            final(self).descriptor == old(self).descriptor,
            match outcome {
                IoOutcome::Transferred(n) => if n == 0 {
                    &&& final(self).done
                    &&& final(self).termination == Some(Termination::EndOfStream)
                    &&& final(self).acc == old(self).acc
                    &&& r is None
                } else {
                    &&& !final(self).done
                    &&& final(self).termination is None
                    &&& final(self).acc.total == old(self).acc.total + n
                    &&& final(self).acc.history@ == old(self).acc.history@.push(n as u64)
                    &&& final(self).acc.start_ms == old(self).acc.start_ms
                    &&& final(self).acc.interval_ms == old(self).acc.interval_ms
                    &&& (r is Some <==> fires(old(self).acc, now_ms))
                    &&& (r is Some ==> final(self).acc.last_report_ms == now_ms)
                    &&& (r is None ==> final(self).acc.last_report_ms == old(
                        self,
                    ).acc.last_report_ms)
                    &&& (r is Some ==> r->Some_0 == (ProgressReport {
                        total_bytes: (old(self).acc.total + n) as u64,
                        elapsed_ms: (now_ms - old(self).acc.start_ms) as u64,
                    }))
                },
                _ => {
                    &&& !final(self).done
                    &&& final(self).termination is None
                    &&& final(self).acc == old(self).acc
                    &&& r is None
                },
            },
    {
        match outcome {
            IoOutcome::Transferred(n) => {
                if n == 0 {
                    self.done = true;
                    self.termination = Some(Termination::EndOfStream);
                    None
                } else {
                    self.acc.record(n as u64);
                    self.acc.maybe_report(now_ms)
                }
            },
            IoOutcome::WouldBlock => None,
            IoOutcome::Failed => None,
        }
    }

    /// End the session on a terminating readiness event: the normal
    /// end-of-stream signal.
    pub fn on_terminating_event(&mut self)
        requires
            old(self).wf(),
            !old(self).done,
        ensures
            final(self).wf(),
            final(self).done,
            final(self).termination == Some(Termination::PeerClosed),
            final(self).acc == old(self).acc,
            final(self).role == old(self).role,
            final(self).descriptor == old(self).descriptor,
    {
        self.done = true;
        self.termination = Some(Termination::PeerClosed);
    }

    /// End the session because the readiness wait itself failed: anomalous,
    /// but it ends only the session, not the process.
    pub fn on_wait_failure(&mut self)
        requires
            old(self).wf(),
            !old(self).done,
        ensures
            final(self).wf(),
            final(self).done,
            final(self).termination == Some(Termination::WaitFailed),
            final(self).acc == old(self).acc,
            final(self).role == old(self).role,
            final(self).descriptor == old(self).descriptor,
    {
        self.done = true;
        self.termination = Some(Termination::WaitFailed);
    }

    /// End the session on a readiness event that named a descriptor other
    /// than the registered one: a protocol violation, anomalous but not
    /// fatal to the process.
    pub fn on_foreign_descriptor(&mut self)
        requires
            old(self).wf(),
            !old(self).done,
        ensures
            final(self).wf(),
            final(self).done,
            final(self).termination == Some(Termination::ForeignDescriptor),
            final(self).acc == old(self).acc,
            final(self).role == old(self).role,
            final(self).descriptor == old(self).descriptor,
    {
        self.done = true;
        self.termination = Some(Termination::ForeignDescriptor);
    }

    /// Poll the Stop Signal (client side): once it reads false the session is
    /// done before any further read is issued. Already-ended sessions keep
    /// their original termination reason, so a second interrupt is a no-op.
    pub fn on_stop_check(&mut self, running: bool)
        requires
            old(self).wf(),
            old(self).role is Client,
        ensures
            final(self).wf(),
            final(self).acc == old(self).acc,
            final(self).role == old(self).role,
            final(self).descriptor == old(self).descriptor,
            !running ==> final(self).done,
            running ==> final(self).done == old(self).done && final(self).termination == old(
                self,
            ).termination,
            !running && !old(self).done ==> final(self).termination == Some(
                Termination::Cancelled,
            ),
            !running && old(self).done ==> final(self).termination == old(self).termination,
    {
        if !running && !self.done {
            self.done = true;
            self.termination = Some(Termination::Cancelled);
        }
    }

    /// The terminal summary, computed once after the loop exits, whatever the
    /// termination reason.
    pub fn finalize(&self, now_ms: u64) -> (r: Summary)
        requires
            self.wf(),
            now_ms >= self.acc.start_ms,
        ensures
            r.total_bytes == self.acc.total,
            r.elapsed_ms == now_ms - self.acc.start_ms,
    {
        self.acc.finalize(now_ms)
    }
}

/// Helper for the precedence law: the consumed prefix of a batch never runs
/// past the first session-ending event.
proof fn lemma_consumed_len_stops(registered: u64, batch: Seq<RawEvent>, i: int, k: int)
    requires
        0 <= i <= k < batch.len(),
        stops_loop(registered, batch[k]),
    ensures
        consumed_len(registered, batch, i) <= k + 1 - i,
        stops_loop(registered, batch[i + consumed_len(registered, batch, i) - 1]),
    decreases k - i,
{
    if !stops_loop(registered, batch[i]) {
        lemma_consumed_len_stops(registered, batch, i + 1, k);
    }
}

/// Termination precedence: when a readiness batch holds a terminating event,
/// the loop consumes no event past it, the last consumed event ends the
/// session, and no consumed event at or after the terminating one plans a
/// write attempt.
pub proof fn lemma_termination_precedence(
    role: Role,
    registered: u64,
    batch: Seq<RawEvent>,
    k: int,
)
    requires
        0 <= k < batch.len(),
        is_termination(batch[k].bits),
    ensures
        consumed_len(registered, batch, 0) <= k + 1,
        stops_loop(registered, batch[consumed_len(registered, batch, 0) - 1]),
        forall|j: int|
            k <= j < consumed_len(registered, batch, 0) ==> !event_plan(
                role,
                registered,
                batch[j],
            ).attempt_write,
{
    lemma_consumed_len_stops(registered, batch, 0, k);
}

} // verus!
