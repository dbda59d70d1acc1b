//! The supervisor that owns the life cycle of exactly one child process.
//!
//! `ServiceSupervisor` is the single writer of the status cell and the sole
//! owner of the process handle. The operations that touch the operating
//! system — spawning, killing, waiting — are performed by the surrounding
//! shell; the supervisor records their outcomes and decides what may happen
//! next. Each public method is one atomic step of the state machine spelled
//! out by [`step`], and the laws at the bottom of this module are proved
//! over arbitrary sequences of such steps.

use vstd::prelude::*;

use crate::status::{HealthResponse, ServiceStatus, StatusView};
use crate::text::{decimal_string, spec_decimal};

verus! {

/// Mathematical model of an owned process: its OS process ID, and the
/// generation number the supervisor assigned when it recorded the spawn.
/// Generations grow strictly, so two processes attached at different times
/// never share one.
pub ghost struct ProcView {
    pub pid: u32,
    pub gen: nat,
}

/// Mathematical model of the supervisor's state.
pub ghost struct SupervisorView {
    /// The owned process, if any. `Option` by construction: at most one.
    pub proc: Option<ProcView>,
    /// The published status cell.
    pub status: StatusView,
    /// Operator intent: false only after an explicit stop; gates monitoring.
    pub should_restart: bool,
    /// Single-acquire flag: a restart sequence is currently running.
    pub restart_in_progress: bool,
    /// The generation the next attached process will receive.
    pub next_gen: nat,
}

impl SupervisorView {
    /// Every generation already handed out is below the next one.
    pub open spec fn wf(self) -> bool {
        self.proc matches Some(p) ==> p.gen < self.next_gen
    }

    /// How many OS processes this state owns: zero or one, never more.
    pub open spec fn owned_count(self) -> nat {
        if self.proc is Some {
            1nat
        } else {
            0nat
        }
    }
}

/// Handle to the one owned child process. The generation is ghost: it
/// exists only to reason about process identity across restarts.
struct ProcessHandle {
    pid: u32,
    gen: Ghost<nat>,
}

/// Concurrency-control and failure signals surfaced to callers.
#[derive(Debug)]
pub enum SupervisorError {
    /// The executable was missing or the OS refused to create the process.
    SpawnError(String),
    /// The process spawned but never answered health within the deadline;
    /// carries the elapsed milliseconds. The process may still be alive.
    HealthTimeout(u64),
    /// The liveness check showed the owned process is gone.
    ProcessExited,
    /// The configured number of consecutive health probes failed while the
    /// process was alive.
    Unresponsive,
    /// A concurrent restart was rejected; the service itself is unharmed.
    RestartAlreadyInProgress,
}

impl SupervisorError {
    /// The reason as recorded in the status cell and shown to the user.
    pub open spec fn spec_message(&self) -> Seq<char> {
        match self {
            SupervisorError::SpawnError(reason) => reason@,
            SupervisorError::HealthTimeout(ms) => "Health check timed out after "@ + spec_decimal(
                *ms as int,
            ) + " ms"@,
            SupervisorError::ProcessExited => "Service stopped"@,
            SupervisorError::Unresponsive => "Service unresponsive"@,
            SupervisorError::RestartAlreadyInProgress => "Restart already in progress"@,
        }
    }

    /// Renders the failure for the status cell and notifications.
    pub fn message(&self) -> (r: String)
        ensures
            r@ == self.spec_message(),
    {
        match self {
            SupervisorError::SpawnError(reason) => reason.clone(),
            SupervisorError::HealthTimeout(ms) => {
                let mut s = "Health check timed out after ".to_owned();
                let digits = decimal_string(*ms);
                s.append(digits.as_str());
                s.append(" ms");
                s
            },
            SupervisorError::ProcessExited => "Service stopped".to_owned(),
            SupervisorError::Unresponsive => "Service unresponsive".to_owned(),
            SupervisorError::RestartAlreadyInProgress => "Restart already in progress".to_owned(),
        }
    }
}

/// Supervises a single service process: owns the process handle and the
/// status cell, and enforces that only one restart sequence runs at a time.
pub struct ServiceSupervisor {
    proc: Option<ProcessHandle>,
    status: ServiceStatus,
    should_restart: bool,
    restart_in_progress: bool,
    next_gen: Ghost<nat>,
}

impl View for ServiceSupervisor {
    type V = SupervisorView;

    closed spec fn view(&self) -> SupervisorView {
        SupervisorView {
            proc: match self.proc {
                Some(p) => Some(ProcView { pid: p.pid, gen: p.gen@ }),
                None => None,
            },
            status: self.status@,
            should_restart: self.should_restart,
            restart_in_progress: self.restart_in_progress,
            next_gen: self.next_gen@,
        }
    }
}

/// One atomic operation on the supervisor state. Exec methods below each
/// perform exactly one of these.
pub ghost enum SupervisorOp {
    /// Try to acquire the exclusive restart right.
    TryStartRestart,
    /// Release the exclusive restart right.
    FinishRestart,
    /// Record that a health wait succeeded.
    MarkRunning,
    /// Record a failure reason.
    MarkError(Seq<char>),
    /// Surrender the owned process for termination and become `Stopped`.
    Stop,
    /// Re-enable restart intent and announce `Starting`.
    BeginStart,
    /// Record a freshly spawned process.
    Attach(u32),
    /// Acquire the restart right and announce `Restarting`, atomically.
    BeginRestart,
}

/// The transition function of the supervisor state machine. A process may
/// be attached, and a start begun, only while no process is owned; an
/// operation whose guard does not hold leaves the state unchanged.
pub open spec fn step(v: SupervisorView, op: SupervisorOp) -> SupervisorView {
    match op {
        SupervisorOp::TryStartRestart => SupervisorView { restart_in_progress: true, ..v },
        SupervisorOp::FinishRestart => SupervisorView { restart_in_progress: false, ..v },
        SupervisorOp::MarkRunning => SupervisorView { status: StatusView::Running, ..v },
        SupervisorOp::MarkError(reason) => SupervisorView { status: StatusView::Error(reason), ..v },
        SupervisorOp::Stop => SupervisorView {
            proc: None,
            status: StatusView::Stopped,
            should_restart: false,
            ..v
        },
        SupervisorOp::BeginStart => {
            if v.proc is None {
                SupervisorView { status: StatusView::Starting, should_restart: true, ..v }
            } else {
                v
            }
        },
        SupervisorOp::Attach(pid) => {
            if v.proc is None {
                SupervisorView {
                    proc: Some(ProcView { pid, gen: v.next_gen }),
                    next_gen: v.next_gen + 1,
                    ..v
                }
            } else {
                v
            }
        },
        SupervisorOp::BeginRestart => {
            if v.restart_in_progress {
                v
            } else {
                SupervisorView {
                    restart_in_progress: true,
                    status: StatusView::Restarting,
                    ..v
                }
            }
        },
    }
}

impl ServiceSupervisor {
    #[verifier::type_invariant]
    spec fn type_inv(self) -> bool {
        self@.wf()
    }

    /// A fresh supervisor: stopped, owning nothing, restart intent on.
    pub fn new() -> (r: Self)
        ensures
            r@ == (SupervisorView {
                proc: None,
                status: StatusView::Stopped,
                should_restart: true,
                restart_in_progress: false,
                next_gen: 0,
            }),
    {
        ServiceSupervisor {
            proc: None,
            status: ServiceStatus::Stopped,
            should_restart: true,
            restart_in_progress: false,
            next_gen: Ghost(0nat),
        }
    }

    /// A snapshot copy of the current status; never blocks.
    pub fn get_status(&self) -> (r: ServiceStatus)
        ensures
            r@ == self@.status,
    {
        self.status.clone()
    }

    /// The process ID currently owned, if any. OS-level liveness of that
    /// process is the shell's question to ask; this only reports ownership.
    pub fn owned_pid(&self) -> (r: Option<u32>)
        ensures
            r == (match self@.proc {
                Some(p) => Some(p.pid),
                None => None::<u32>,
            }),
    {
        match &self.proc {
            Some(handle) => Some(handle.pid),
            None => None,
        }
    }

    /// Whether monitoring and recovery are allowed: true unless an explicit
    /// stop was requested.
    pub fn should_auto_restart(&self) -> (r: bool)
        ensures
            r == self@.should_restart,
    {
        self.should_restart
    }

    /// Try to acquire the exclusive restart right. Returns true exactly when
    /// no restart was in flight; in every case the flag is set afterwards.
    pub fn try_start_restart(&mut self) -> (r: bool)
        ensures
            r == !old(self)@.restart_in_progress,
            final(self)@ == step(old(self)@, SupervisorOp::TryStartRestart),
    {
        proof {
            use_type_invariant(&*self);
        }
        let acquired = !self.restart_in_progress;
        self.restart_in_progress = true;
        acquired
    }

    /// Release the exclusive restart right.
    pub fn finish_restart(&mut self)
        ensures
            final(self)@ == step(old(self)@, SupervisorOp::FinishRestart),
    {
        proof {
            use_type_invariant(&*self);
        }
        self.restart_in_progress = false;
    }

    /// Record that the service answered health: status becomes `Running`.
    /// Does not touch the process handle.
    pub fn mark_running(&mut self)
        ensures
            final(self)@ == step(old(self)@, SupervisorOp::MarkRunning),
    {
        proof {
            use_type_invariant(&*self);
        }
        self.status = ServiceStatus::Running;
    }

    /// Record a failure: status becomes `Error` with the given reason.
    /// Does not touch the process handle.
    pub fn mark_error(&mut self, reason: String)
        ensures
            final(self)@ == step(old(self)@, SupervisorOp::MarkError(reason@)),
    {
        proof {
            use_type_invariant(&*self);
        }
        self.status = ServiceStatus::Error(reason);
    }

    /// Stop the service: restart intent is cleared, ownership of the process
    /// (if any) is surrendered to the caller for kill-and-wait, and status
    /// becomes `Stopped`. Idempotent — with no process owned it is a no-op
    /// that still ends in `Stopped`.
    pub fn stop(&mut self) -> (r: Option<u32>)
        ensures
            final(self)@ == step(old(self)@, SupervisorOp::Stop),
            r == (match old(self)@.proc {
                Some(p) => Some(p.pid),
                None => None::<u32>,
            }),
    {
        proof {
            use_type_invariant(&*self);
        }
        self.should_restart = false;
        let mut handle: Option<ProcessHandle> = None;
        std::mem::swap(&mut handle, &mut self.proc);
        self.status = ServiceStatus::Stopped;
        match handle {
            Some(h) => Some(h.pid),
            None => None,
        }
    }

    /// Begin a start: re-enable restart intent and announce `Starting`.
    /// Starting while a process is still owned is a logic error; the old
    /// process must have been fully stopped first.
    pub fn begin_start(&mut self)
        requires
            old(self)@.proc is None,
        ensures
            final(self)@ == step(old(self)@, SupervisorOp::BeginStart),
    {
        proof {
            use_type_invariant(&*self);
        }
        self.should_restart = true;
        self.status = ServiceStatus::Starting;
    }

    /// Record a freshly spawned process. The new handle receives a
    /// generation strictly larger than every earlier one.
    pub fn attach_process(&mut self, pid: u32)
        requires
            old(self)@.proc is None,
        ensures
            final(self)@ == step(old(self)@, SupervisorOp::Attach(pid)),
    {
        proof {
            use_type_invariant(&*self);
        }
        let gen: Ghost<nat> = Ghost(self.next_gen@);
        self.next_gen = Ghost(self.next_gen@ + 1);
        self.proc = Some(ProcessHandle { pid, gen });
    }

    /// Begin a restart: atomically acquire the exclusive restart right and
    /// announce `Restarting`. A second caller while one restart is in flight
    /// is rejected with `RestartAlreadyInProgress` and changes nothing.
    pub fn begin_restart(&mut self) -> (r: Result<(), SupervisorError>)
        ensures
            final(self)@ == step(old(self)@, SupervisorOp::BeginRestart),
            r is Ok <==> !old(self)@.restart_in_progress,
            r matches Err(e) ==> e is RestartAlreadyInProgress,
    {
        proof {
            use_type_invariant(&*self);
        }
        if self.try_start_restart() {
            self.status = ServiceStatus::Restarting;
            Ok(())
        } else {
            Err(SupervisorError::RestartAlreadyInProgress)
        }
    }
}

/// Named events surfaced to the UI layer, each fired at most once per
/// actual transition edge by the orchestration that receives them.
#[derive(Debug)]
pub enum ServiceNotification {
    /// The service answered health after a start or restart.
    Ready,
    /// The service failed; carries the reason shown to the user.
    Failed(String),
}

impl ServiceSupervisor {
    /// The decision that ends every start or restart: a successful health
    /// wait publishes `Running` and owes listeners a readiness event; a
    /// failed one records the error's message and owes them a failure
    /// event. The process handle is untouched either way.
    pub fn conclude_health_wait(&mut self, outcome: Result<HealthResponse, SupervisorError>) -> (n:
        ServiceNotification)
        ensures
            outcome is Ok ==> {
                &&& final(self)@ == step(old(self)@, SupervisorOp::MarkRunning)
                &&& n is Ready
            },
            outcome matches Err(e) ==> {
                &&& final(self)@ == step(old(self)@, SupervisorOp::MarkError(e.spec_message()))
                &&& n matches ServiceNotification::Failed(m) && m@ == e.spec_message()
            },
    {
        match outcome {
            Ok(_) => {
                self.mark_running();
                ServiceNotification::Ready
            },
            Err(err) => {
                let reason = err.message();
                self.mark_error(reason.clone());
                ServiceNotification::Failed(reason)
            },
        }
    }
}

/// The state after running a whole sequence of operations, first first.
pub open spec fn run(v: SupervisorView, ops: Seq<SupervisorOp>) -> SupervisorView
    decreases ops.len(),
{
    if ops.len() == 0 {
        v
    } else {
        run(step(v, ops[0]), ops.subrange(1, ops.len() as int))
    }
}

/// How many operations of the sequence attached a process (an `Attach`
/// taken while no process was owned).
pub open spec fn attach_count(v: SupervisorView, ops: Seq<SupervisorOp>) -> nat
    decreases ops.len(),
{
    if ops.len() == 0 {
        0nat
    } else {
        (if ops[0] matches SupervisorOp::Attach(pid) && v.proc is None {
            1nat
        } else {
            0nat
        }) + attach_count(step(v, ops[0]), ops.subrange(1, ops.len() as int))
    }
}

/// How many operations of the sequence surrendered a process for
/// termination (a `Stop` taken while one was owned).
pub open spec fn release_count(v: SupervisorView, ops: Seq<SupervisorOp>) -> nat
    decreases ops.len(),
{
    if ops.len() == 0 {
        0nat
    } else {
        (if ops[0] is Stop && v.proc is Some {
            1nat
        } else {
            0nat
        }) + release_count(step(v, ops[0]), ops.subrange(1, ops.len() as int))
    }
}

/// Law: well-formedness survives every operation, so it holds in every
/// reachable state — in particular, every generation ever handed out
/// stays below the next one, which the freshness argument for restarts
/// rests on.
pub proof fn lemma_run_preserves_wf(v: SupervisorView, ops: Seq<SupervisorOp>)
    requires
        v.wf(),
    ensures
        run(v, ops).wf(),
    decreases ops.len(),
{
    if ops.len() > 0 {
        lemma_run_preserves_wf(step(v, ops[0]), ops.subrange(1, ops.len() as int));
    }
}

/// Law: across any sequence of supervisor operations, at most one OS
/// process is owned at any instant, and the books balance — every process
/// ever attached was either surrendered by a stop or is the one still
/// owned. No child is leaked and none is duplicated.
pub proof fn lemma_single_process_ownership(v: SupervisorView, ops: Seq<SupervisorOp>)
    ensures
        run(v, ops).owned_count() <= 1,
        v.owned_count() + attach_count(v, ops) == release_count(v, ops) + run(v, ops).owned_count(),
    decreases ops.len(),
{
    if ops.len() > 0 {
        lemma_single_process_ownership(step(v, ops[0]), ops.subrange(1, ops.len() as int));
    }
}

/// Law: `stop` is idempotent. From any state, one stop ends in `Stopped`
/// with nothing owned, and a second stop right after changes nothing.
pub proof fn lemma_stop_idempotent(v: SupervisorView)
    ensures
        step(v, SupervisorOp::Stop).status is Stopped,
        step(v, SupervisorOp::Stop).proc is None,
        step(step(v, SupervisorOp::Stop), SupervisorOp::Stop) == step(v, SupervisorOp::Stop),
{
}

/// Law: a completed restart sequence — acquire, stop, start, attach — ends
/// owning a process of a strictly larger generation than the one owned
/// before. The old process was surrendered before the new one could be
/// recorded, so the two are never the same OS process.
pub proof fn lemma_restart_attaches_fresh_process(v: SupervisorView, pid: u32)
    requires
        v.wf(),
        v.proc is Some,
        !v.restart_in_progress,
    ensures
        ({
            let after = step(
                step(step(step(v, SupervisorOp::BeginRestart), SupervisorOp::Stop),
                    SupervisorOp::BeginStart),
                SupervisorOp::Attach(pid),
            );
            &&& after.proc is Some
            &&& after.proc->Some_0.gen > v.proc->Some_0.gen
            &&& after.proc->Some_0.pid == pid
        }),
{
}

/// Law: of two overlapping restart attempts, exactly one proceeds. The
/// first acquisition succeeds and flips the in-progress flag; the second,
/// arriving before the first finished, is disabled and changes nothing.
pub proof fn lemma_restart_exclusive(v: SupervisorView)
    requires
        !v.restart_in_progress,
    ensures
        step(v, SupervisorOp::BeginRestart).restart_in_progress,
        step(step(v, SupervisorOp::BeginRestart), SupervisorOp::BeginRestart) == step(
            v,
            SupervisorOp::BeginRestart,
        ),
{
}

} // verus!
