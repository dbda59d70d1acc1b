//! The bounded wait for the service to become healthy.
//!
//! After every start or restart, the orchestration polls the health
//! endpoint at a fixed short interval until a probe succeeds or a deadline
//! passes. The probing itself is network work done by the shell; this
//! module holds the clockwork: [`HealthWait::step`] consumes one probe
//! outcome and decides whether the wait is over, timed out, or to be
//! retried after the next poll interval.

use vstd::prelude::*;

use crate::status::HealthResponse;

verus! {

/// Mathematical model of a wait in progress, all in milliseconds.
pub ghost struct HealthWaitView {
    pub deadline: int,
    pub poll: int,
    pub elapsed: int,
}

/// What one step of the wait decided.
#[derive(Debug)]
pub enum WaitStep {
    /// A probe succeeded before the deadline; the wait is over.
    Healthy(HealthResponse),
    /// The deadline passed with no success; carries the elapsed
    /// milliseconds. The process may well still be alive, merely stuck.
    TimedOut(u64),
    /// No success yet, deadline not reached: poll again after the interval.
    Retry,
}

/// The state of one bounded health wait: a fixed deadline, a fixed poll
/// interval, and the time spent so far.
pub struct HealthWait {
    deadline_ms: u64,
    poll_ms: u64,
    elapsed_ms: u64,
}

impl View for HealthWait {
    type V = HealthWaitView;

    closed spec fn view(&self) -> HealthWaitView {
        HealthWaitView {
            deadline: self.deadline_ms as int,
            poll: self.poll_ms as int,
            elapsed: self.elapsed_ms as int,
        }
    }
}

impl HealthWait {
    #[verifier::type_invariant]
    spec fn type_inv(self) -> bool {
        &&& 1 <= self@.poll
        &&& self@.deadline + self@.poll <= u64::MAX
        &&& self@.elapsed <= self@.deadline + self@.poll
    }

    /// A fresh wait: nothing elapsed yet. The deadline and the poll
    /// interval are fixed for the wait's whole life.
    pub fn new(deadline_ms: u64, poll_ms: u64) -> (r: Self)
        requires
            poll_ms >= 1,
            deadline_ms + poll_ms <= u64::MAX,
        ensures
            r@ == (HealthWaitView {
                deadline: deadline_ms as int,
                poll: poll_ms as int,
                elapsed: 0,
            }),
    {
        HealthWait { deadline_ms, poll_ms, elapsed_ms: 0 }
    }

    /// The milliseconds spent waiting so far.
    pub fn elapsed_ms(&self) -> (r: u64)
        ensures
            r == self@.elapsed,
    {
        self.elapsed_ms
    }

    /// One round of the wait, fed the outcome of one health probe.
    ///
    /// The deadline is checked first, so the wait honors it even if no
    /// probe ever succeeds: once the elapsed time reaches the deadline the
    /// step reports `TimedOut` whatever the outcome was. Otherwise a
    /// successful probe ends the wait, and a failed one books one poll
    /// interval and asks for a retry.
    pub fn step(&mut self, outcome: Option<HealthResponse>) -> (r: WaitStep)
        ensures
            final(self)@.deadline == old(self)@.deadline,
            final(self)@.poll == old(self)@.poll,
            old(self)@.elapsed >= old(self)@.deadline ==> {
                &&& final(self)@ == old(self)@
                &&& r matches WaitStep::TimedOut(e) && e == old(self)@.elapsed
            },
            old(self)@.elapsed < old(self)@.deadline && outcome is Some ==> {
                &&& final(self)@ == old(self)@
                &&& r matches WaitStep::Healthy(h) && h@ == outcome->Some_0@
            },
            old(self)@.elapsed < old(self)@.deadline && outcome is None ==> {
                &&& final(self)@.elapsed == old(self)@.elapsed + old(self)@.poll
                &&& r is Retry
            },
    {
        proof {
            use_type_invariant(&*self);
        }
        if self.elapsed_ms >= self.deadline_ms {
            WaitStep::TimedOut(self.elapsed_ms)
        } else {
            match outcome {
                Some(health) => WaitStep::Healthy(health),
                None => {
                    self.elapsed_ms = self.elapsed_ms + self.poll_ms;
                    WaitStep::Retry
                },
            }
        }
    }
}

/// How a whole wait ends, given the deadline, the poll interval, the time
/// already elapsed, and the success or failure of each coming probe in
/// order. `Exhausted` means the probe sequence ran out before either end
/// was reached.
pub ghost enum WaitRun {
    Succeeded,
    TimedOut,
    Exhausted,
}

/// The wait loop as a function: check the deadline, consume one probe,
/// repeat. Mirrors one [`HealthWait::step`] per recursion step.
pub open spec fn wait_run(deadline: int, poll: int, elapsed: int, probes: Seq<bool>) -> WaitRun
    decreases probes.len(),
{
    if elapsed >= deadline {
        WaitRun::TimedOut
    } else if probes.len() == 0 {
        WaitRun::Exhausted
    } else if probes[0] {
        WaitRun::Succeeded
    } else {
        wait_run(deadline, poll, elapsed + poll, probes.subrange(1, probes.len() as int))
    }
}

/// Law: the wait returns successfully within the deadline whenever probes
/// begin succeeding early enough — if the first successful probe comes at
/// index `k` and its moment `elapsed + k * poll` still lies before the
/// deadline, the whole run succeeds.
pub proof fn lemma_wait_succeeds(deadline: int, poll: int, elapsed: int, probes: Seq<bool>, k: int)
    requires
        poll >= 1,
        0 <= k < probes.len(),
        probes[k],
        forall|j: int| 0 <= j < k ==> !probes[j],
        elapsed + k * poll < deadline,
    ensures
        wait_run(deadline, poll, elapsed, probes) is Succeeded,
    decreases k,
{
    if k == 0 {
        assert(elapsed < deadline);
    } else {
        assert(k * poll >= poll) by (nonlinear_arith)
            requires
                k >= 1,
                poll >= 1,
        ;
        assert((k - 1) * poll == k * poll - poll) by (nonlinear_arith);
        let rest = probes.subrange(1, probes.len() as int);
        assert(rest[k - 1]);
        assert(forall|j: int| 0 <= j < k - 1 ==> !rest[j]);
        lemma_wait_succeeds(deadline, poll, elapsed + poll, rest, k - 1);
    }
}

/// Law: the wait fails with a timeout when no probe ever succeeds before
/// the deadline — with only failing probes, and enough of them that their
/// poll intervals sum past the deadline, the run ends in `TimedOut`.
pub proof fn lemma_wait_times_out(deadline: int, poll: int, elapsed: int, probes: Seq<bool>)
    requires
        poll >= 1,
        forall|j: int| 0 <= j < probes.len() ==> !probes[j],
        elapsed + probes.len() * poll >= deadline,
    ensures
        wait_run(deadline, poll, elapsed, probes) is TimedOut,
    decreases probes.len(),
{
    if elapsed >= deadline {
    } else {
        assert(probes.len() > 0);
        assert((probes.len() - 1) * poll == probes.len() * poll - poll) by (nonlinear_arith);
        let rest = probes.subrange(1, probes.len() as int);
        assert(forall|j: int| 0 <= j < rest.len() ==> !rest[j]);
        lemma_wait_times_out(deadline, poll, elapsed + poll, rest);
    }
}

} // verus!
