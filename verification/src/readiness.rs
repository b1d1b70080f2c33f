//! The readiness poll: a bounded, delayed retry loop over health probes, and
//! the one-shot signal that reveals the UI.
//!
//! The surrounding task performs the grace-period and inter-attempt sleeps and
//! the probes themselves; every probe outcome is recorded here, and this state
//! decides when the loop is over and with which verdict.

use vstd::prelude::*;
use crate::health::HealthStatus;

verus! {

/// The fixed retry policy: wait `grace_ms` before the first probe, then probe
/// every `interval_ms`, at most `max_attempts` times.
pub struct RetryPolicy {
    pub grace_ms: u64,
    pub interval_ms: u64,
    pub max_attempts: u32,
}

impl RetryPolicy {
    /// Bounds under which the worst-case wait fits comfortably in a `u64`.
    pub open spec fn wf(self) -> bool {
        &&& self.grace_ms <= 1_000_000
        &&& self.interval_ms <= 1_000_000
        &&& self.max_attempts <= 1_000_000
    }

    /// The policy of the startup sequence: a two-second grace period, then a
    /// probe every one and a half seconds, thirty times at most.
    pub fn startup_default() -> (p: Self)
        ensures
            p.grace_ms == 2000,
            p.interval_ms == 1500,
            p.max_attempts == 30,
            p.wf(),
    {
        RetryPolicy { grace_ms: 2000, interval_ms: 1500, max_attempts: 30 }
    }

    /// The wall-clock budget of a full poll: the loop sleeps at most the grace
    /// period plus one interval per attempt, so it ends within this bound.
    pub fn worst_case_wait_ms(&self) -> (r: u64)
        requires
            self.wf(),
        ensures
            r == self.grace_ms + self.max_attempts * self.interval_ms,
    {
        proof {
            assert((self.max_attempts as int) * (self.interval_ms as int) <= 1_000_000_000_000int)
                by (nonlinear_arith)
                requires
                    self.max_attempts <= 1_000_000,
                    self.interval_ms <= 1_000_000,
            ;
        }
        self.grace_ms + (self.max_attempts as u64) * self.interval_ms
    }
}

/// Whether any recorded probe outcome proved the backend live.
pub open spec fn any_healthy(h: Seq<HealthStatus>) -> bool {
    exists|i: int| 0 <= i < h.len() && h[i] is Healthy
}

/// The state of one readiness poll. `history` is the sequence of probe
/// outcomes recorded so far; `outcome` is `Some(true)` on the first healthy
/// probe, `Some(false)` once every attempt was used without one, and `None`
/// while the loop must keep polling.
pub struct ReadinessPoll {
    pub max_attempts: u32,
    pub attempts_used: u32,
    pub outcome: Option<bool>,
    pub history: Ghost<Seq<HealthStatus>>,
}

impl ReadinessPoll {
    pub open spec fn wf(self) -> bool {
        &&& self.attempts_used <= self.max_attempts
        &&& self.attempts_used == self.history@.len()
        &&& (self.outcome == Some(true) <==> self.history@.len() > 0 && self.history@.last()
            is Healthy)
        &&& (self.outcome == Some(true) ==> !any_healthy(self.history@.drop_last()))
        &&& (self.outcome is None ==> !any_healthy(self.history@) && self.attempts_used
            < self.max_attempts)
        &&& (self.outcome == Some(false) ==> !any_healthy(self.history@) && self.attempts_used
            == self.max_attempts)
    }

    /// Begin a poll. With no attempts allowed it is over at once, reporting
    /// that the backend was never confirmed.
    pub fn new(max_attempts: u32) -> (p: Self)
        ensures
            p.wf(),
            p.max_attempts == max_attempts,
            p.attempts_used == 0,
            p.history@ == Seq::<HealthStatus>::empty(),
            max_attempts == 0 ==> p.outcome == Some(false),
            max_attempts > 0 ==> p.outcome is None,
    {
        let outcome: Option<bool> = if max_attempts == 0 {
            Some(false)
        } else {
            None
        };
        ReadinessPoll { max_attempts, attempts_used: 0, outcome, history: Ghost(Seq::empty()) }
    }

    /// Whether the loop must issue another probe.
    pub fn in_progress(&self) -> (r: bool)
        ensures
            r == (self.outcome is None),
    {
        self.outcome.is_none()
    }

    /// The verdict, once the loop is over: `true` exactly when a probe was
    /// healthy, `false` only after exhausting every attempt.
    pub fn verdict(&self) -> (r: Option<bool>)
        ensures
            r == self.outcome,
    {
        self.outcome
    }

    /// Record the outcome of one probe. A healthy probe ends the loop with
    /// `true` at once; an unhealthy one ends it with `false` only when it was
    /// the last allowed attempt.
    pub fn record(&mut self, status: HealthStatus)
        requires
            old(self).wf(),
            old(self).outcome is None,
        ensures
            final(self).wf(),
            final(self).max_attempts == old(self).max_attempts,
            final(self).attempts_used == old(self).attempts_used + 1,
            final(self).history@ == old(self).history@.push(status),
            status is Healthy ==> final(self).outcome == Some(true),
            !(status is Healthy) && old(self).attempts_used + 1 == old(self).max_attempts
                ==> final(self).outcome == Some(false),
            !(status is Healthy) && old(self).attempts_used + 1 < old(self).max_attempts
                ==> final(self).outcome is None,
    {
        let healthy = crate::health::is_healthy(&status);
        proof {
            self.history@ = self.history@.push(status);
        }
        self.attempts_used = self.attempts_used + 1;
        if healthy {
            self.outcome = Some(true);
        } else if self.attempts_used == self.max_attempts {
            self.outcome = Some(false);
        }
        proof {
            let h = self.history@;
            assert(h.drop_last() =~= old(self).history@);
            if !(status is Healthy) && !any_healthy(old(self).history@) {
                assert forall|i: int| 0 <= i < h.len() implies !(h[i] is Healthy) by {
                    if i < h.len() - 1 {
                        assert(h[i] == old(self).history@[i]);
                    }
                }
            }
        }
    }
}

/// What a finished poll gives: `true` only on a first healthy probe, `false`
/// only after every attempt was used and none was healthy; the number of
/// probes — and so, with the policy's sleeps, the time the loop took — never
/// exceeds the attempt bound.
pub proof fn lemma_poll_verdict(p: ReadinessPoll)
    requires
        p.wf(),
    ensures
        p.attempts_used <= p.max_attempts,
        p.outcome == Some(true) ==> any_healthy(p.history@) && p.history@.last() is Healthy
            && !any_healthy(p.history@.drop_last()),
        p.outcome == Some(false) ==> p.attempts_used == p.max_attempts && !any_healthy(p.history@),
{
    if p.outcome == Some(true) {
        assert(p.history@[p.history@.len() - 1] is Healthy);
    }
}

/// The one-shot readiness event: fires once per run, revealing the main view
/// and dismissing the loading view.
pub struct ReadinessSignal {
    pub fired: bool,
}

/// Firing, as a value: the signal is set, and the report says whether this
/// call was the one that newly set it.
pub open spec fn spec_fire(s: ReadinessSignal) -> (ReadinessSignal, bool) {
    (ReadinessSignal { fired: true }, !s.fired)
}

impl ReadinessSignal {
    pub fn new() -> (s: Self)
        ensures
            !s.fired,
    {
        ReadinessSignal { fired: false }
    }

    /// Fire the signal. Returns whether this call newly fired it.
    pub fn fire(&mut self) -> (newly: bool)
        ensures
            (*final(self), newly) == spec_fire(*old(self)),
            final(self).fired,
            newly == !old(self).fired,
    {
        let newly = !self.fired;
        self.fired = true;
        newly
    }
}

/// The signal fires at most once: a fire after a fire reports nothing new.
pub proof fn lemma_fire_once(s: ReadinessSignal)
    ensures
        !spec_fire(spec_fire(s).0).1,
{
}

/// The verdict shown beside the reveal: confirmed, or timed out with a
/// diagnostic. The UI is revealed either way.
#[derive(Clone, Copy, PartialEq, Eq, Structural, Debug)]
pub enum ReadinessOutcome {
    Confirmed,
    TimedOut,
}

/// Conclude a finished poll: fire the readiness signal — whatever the verdict
/// was — and say which diagnostic accompanies the reveal. The `requires`
/// clauses are the ordering guarantee: the signal cannot fire before the poll
/// ends in confirmation or exhaustion, and cannot fire twice.
pub fn conclude(poll: &ReadinessPoll, signal: &mut ReadinessSignal) -> (o: ReadinessOutcome)
    requires
        poll.wf(),
        poll.outcome is Some,
        !old(signal).fired,
    ensures
        final(signal).fired,
        (o is Confirmed) == (poll.outcome == Some(true)),
        (o is TimedOut) == (poll.outcome == Some(false)),
{
    signal.fire();
    match poll.verdict() {
        Some(true) => ReadinessOutcome::Confirmed,
        _ => ReadinessOutcome::TimedOut,
    }
}

} // verus!
