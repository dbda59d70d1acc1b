//! The periodic monitor that drives status transitions on failure.
//!
//! Each wake of the background task is one call of [`MonitorLoop::tick`].
//! The shell supplies what only the operating system and the network can
//! answer — whether the owned process is still alive, and whether one
//! health probe succeeded — and the tick decides everything else: skipping
//! while the service is deliberately stopped, declaring a crash, counting
//! consecutive probe failures, and declaring unresponsiveness once the
//! threshold is crossed. This is the conservative policy: the monitor
//! reports errors and leaves respawning to the orchestration layer.

use vstd::prelude::*;

use crate::status::{ServiceStatus, StatusView};
use crate::supervisor::{step, ServiceSupervisor, SupervisorOp, SupervisorView};

verus! {

/// Mathematical model of the monitor: the configured threshold and the
/// current count of consecutive probe failures.
pub ghost struct MonitorView {
    pub threshold: int,
    pub failures: int,
}

/// What one tick concluded; the shell turns these into notifications.
#[derive(Clone, Copy, Debug, PartialEq, Eq, Structural)]
pub enum MonitorVerdict {
    /// Restart intent was off: the tick did nothing at all.
    Skipped,
    /// The owned process is gone. `transitioned` is true exactly when this
    /// tick moved the status to `Error` (it was not already there).
    ProcessDown { transitioned: bool },
    /// The process is alive and answered health; the failure count is reset.
    ProbeOk,
    /// The process is alive but the probe failed. `declared_unresponsive` is
    /// true exactly when this tick crossed the threshold and moved the
    /// status to `Error`.
    ProbeFailed { declared_unresponsive: bool },
}

/// The failure count after one failed probe: it grows by one until it
/// reaches the threshold and then holds, so a long outage cannot overflow
/// the counter, and the count stays at the threshold until a success
/// resets it — no flapping between `Error` and `Running` on alternating
/// probe results.
pub open spec fn bumped_failures(m: MonitorView) -> int {
    if m.failures < m.threshold {
        m.failures + 1
    } else {
        m.failures
    }
}

/// Counts consecutive health-probe failures and crosses them into status
/// transitions once the configured threshold is reached.
pub struct MonitorLoop {
    threshold: u32,
    consecutive_failures: u32,
}

impl View for MonitorLoop {
    type V = MonitorView;

    closed spec fn view(&self) -> MonitorView {
        MonitorView {
            threshold: self.threshold as int,
            failures: self.consecutive_failures as int,
        }
    }
}

impl MonitorLoop {
    #[verifier::type_invariant]
    spec fn type_inv(self) -> bool {
        1 <= self@.threshold && 0 <= self@.failures <= self@.threshold
    }

    /// A fresh monitor with no failures counted yet.
    pub fn new(threshold: u32) -> (r: Self)
        requires
            threshold >= 1,
        ensures
            r@ == (MonitorView { threshold: threshold as int, failures: 0 }),
    {
        MonitorLoop { threshold, consecutive_failures: 0 }
    }

    /// The configured consecutive-failure threshold.
    pub fn threshold(&self) -> (r: u32)
        ensures
            r == self@.threshold,
    {
        self.threshold
    }

    /// The current count of consecutive failures.
    pub fn failures(&self) -> (r: u32)
        ensures
            r == self@.failures,
    {
        self.consecutive_failures
    }

    /// One wake of the monitor. `alive` is the OS's answer on whether the
    /// owned process still runs; `probe_ok` is the outcome of one health
    /// probe (consulted only when the process is alive).
    ///
    /// If restart intent is off, nothing happens. If the process is gone,
    /// the status moves to `Error` unless it is already there; the failure
    /// count is untouched. If the probe succeeded, the count resets to
    /// zero. If it failed, the count bumps, and on reaching the threshold
    /// the status moves to `Error` unless already there; the count is not
    /// reset until a later success.
    pub fn tick(&mut self, sup: &mut ServiceSupervisor, alive: bool, probe_ok: bool) -> (verdict:
        MonitorVerdict)
        ensures
            final(self)@.threshold == old(self)@.threshold,
            !old(sup)@.should_restart ==> {
                &&& final(self)@ == old(self)@
                &&& final(sup)@ == old(sup)@
                &&& verdict == MonitorVerdict::Skipped
            },
            old(sup)@.should_restart && !alive ==> {
                &&& final(self)@ == old(self)@
                &&& if old(sup)@.status is Error {
                    final(sup)@ == old(sup)@ && verdict == (MonitorVerdict::ProcessDown {
                        transitioned: false,
                    })
                } else {
                    final(sup)@ == step(
                        old(sup)@,
                        SupervisorOp::MarkError("Service stopped"@),
                    ) && verdict == (MonitorVerdict::ProcessDown { transitioned: true })
                }
            },
            old(sup)@.should_restart && alive && probe_ok ==> {
                &&& final(self)@.failures == 0
                &&& final(sup)@ == old(sup)@
                &&& verdict == MonitorVerdict::ProbeOk
            },
            old(sup)@.should_restart && alive && !probe_ok ==> {
                &&& final(self)@.failures == bumped_failures(old(self)@)
                &&& if bumped_failures(old(self)@) >= old(self)@.threshold && !(old(
                    sup,
                )@.status is Error) {
                    final(sup)@ == step(
                        old(sup)@,
                        SupervisorOp::MarkError("Service unresponsive"@),
                    ) && verdict == (MonitorVerdict::ProbeFailed { declared_unresponsive: true })
                } else {
                    final(sup)@ == old(sup)@ && verdict == (MonitorVerdict::ProbeFailed {
                        declared_unresponsive: false,
                    })
                }
            },
    {
        proof {
            use_type_invariant(&*self);
        }
        if !sup.should_auto_restart() {
            return MonitorVerdict::Skipped;
        }
        if !alive {
            let status = sup.get_status();
            match status {
                ServiceStatus::Error(_) => MonitorVerdict::ProcessDown { transitioned: false },
                _ => {
                    sup.mark_error("Service stopped".to_owned());
                    MonitorVerdict::ProcessDown { transitioned: true }
                },
            }
        } else if probe_ok {
            self.consecutive_failures = 0;
            MonitorVerdict::ProbeOk
        } else {
            if self.consecutive_failures < self.threshold {
                self.consecutive_failures = self.consecutive_failures + 1;
            }
            if self.consecutive_failures >= self.threshold {
                let status = sup.get_status();
                match status {
                    ServiceStatus::Error(_) => MonitorVerdict::ProbeFailed {
                        declared_unresponsive: false,
                    },
                    _ => {
                        sup.mark_error("Service unresponsive".to_owned());
                        MonitorVerdict::ProbeFailed { declared_unresponsive: true }
                    },
                }
            } else {
                MonitorVerdict::ProbeFailed { declared_unresponsive: false }
            }
        }
    }
}

} // verus!
