//! Supervision of the two external processes. The lifecycle of each is one
//! state machine; everything that actually spawns, signals or waits runs
//! outside the library and reports back through the transition methods here,
//! so every state change is checked against `proc_step`.

use vstd::prelude::*;
use vstd::string::StringExecFns;

verus! {

/// Which supervised process a request concerns.
#[derive(Clone, Copy, Debug, PartialEq, Eq, Structural)]
pub enum ProcessKind {
    /// The primary API proxy.
    Primary,
    /// The optional bridge process.
    Secondary,
}

/// The lifecycle state of one supervised process.
#[derive(Clone, Copy, Debug, PartialEq, Eq, Structural)]
pub enum ProcState {
    Stopped,
    Starting,
    Running,
    Stopping,
}

/// One lifecycle event, as the outside world reports it.
#[derive(Clone, Copy, Debug, PartialEq, Eq, Structural)]
pub enum ProcEvent {
    /// A caller asked for a start.
    StartRequested,
    /// The spawn succeeded.
    SpawnOk,
    /// The spawn failed.
    SpawnFailed,
    /// A caller asked for a stop.
    StopRequested,
    /// Termination was confirmed, gracefully or by force.
    StopConfirmed,
    /// The watcher saw the process exit on its own.
    ExitObserved,
}

/// The error taxonomy of the control plane.
#[derive(Debug, Clone, PartialEq, Eq)]
pub enum ControlError {
    /// Saving or loading the configuration failed; the in-memory document
    /// is left unchanged.
    Persistence(String),
    /// The process could not be launched; it remains stopped.
    Spawn(String),
    /// A start was requested while the process was not stopped.
    AlreadyRunning,
    /// A request needed a running process and found none.
    NotRunning,
    /// A graceful stop exceeded its grace period and force-termination
    /// followed.
    Timeout,
    /// The configuration was persisted but a dependent restart failed; the
    /// named process needs a retried restart.
    ReconciliationPartial(ProcessKind, String),
}

impl ControlError {
    /// A human-readable account of the error: a fixed phrase per variant,
    /// carrying the underlying detail where there is one; never empty.
    pub fn message(&self) -> (r: String)
        ensures
            r@.len() > 0,
            self matches ControlError::Persistence(m) ==> r@
                == "could not save the configuration: "@ + m@,
            self matches ControlError::Spawn(m) ==> r@ == "could not launch the process: "@ + m@,
            self is AlreadyRunning ==> r@ == "already running"@,
            self is NotRunning ==> r@ == "not running"@,
            self is Timeout ==> r@
                == "graceful stop timed out; the process was force-terminated"@,
            self matches ControlError::ReconciliationPartial(k, m) ==> r@ == (if k is Primary {
                "configuration saved, but restarting the primary proxy failed: "@
            } else {
                "configuration saved, but restarting the bridge failed: "@
            }) + m@,
    {
        proof {
            reveal_strlit("could not save the configuration: ");
            reveal_strlit("could not launch the process: ");
            reveal_strlit("already running");
            reveal_strlit("not running");
            reveal_strlit("graceful stop timed out; the process was force-terminated");
            reveal_strlit("configuration saved, but restarting the primary proxy failed: ");
            reveal_strlit("configuration saved, but restarting the bridge failed: ");
        }
        match self {
            ControlError::Persistence(m) => String::from_str(
                "could not save the configuration: ",
            ).concat(m.as_str()),
            ControlError::Spawn(m) => String::from_str("could not launch the process: ").concat(
                m.as_str(),
            ),
            ControlError::AlreadyRunning => String::from_str("already running"),
            ControlError::NotRunning => String::from_str("not running"),
            ControlError::Timeout => String::from_str(
                "graceful stop timed out; the process was force-terminated",
            ),
            ControlError::ReconciliationPartial(ProcessKind::Primary, m) => String::from_str(
                "configuration saved, but restarting the primary proxy failed: ",
            ).concat(m.as_str()),
            ControlError::ReconciliationPartial(ProcessKind::Secondary, m) => String::from_str(
                "configuration saved, but restarting the bridge failed: ",
            ).concat(m.as_str()),
        }
    }
}

/// How one process's state answers one event. Every transition of the
/// supervisor goes through this function; nothing else moves a state.
pub open spec fn proc_step(s: ProcState, e: ProcEvent) -> ProcState {
    match e {
        ProcEvent::StartRequested => if s is Stopped {
            ProcState::Starting
        } else {
            s
        },
        ProcEvent::SpawnOk => if s is Starting {
            ProcState::Running
        } else {
            s
        },
        ProcEvent::SpawnFailed => if s is Starting {
            ProcState::Stopped
        } else {
            s
        },
        ProcEvent::StopRequested => if s is Stopped {
            s
        } else {
            ProcState::Stopping
        },
        ProcEvent::StopConfirmed => if s is Stopping {
            ProcState::Stopped
        } else {
            s
        },
        ProcEvent::ExitObserved => if s is Running {
            ProcState::Stopped
        } else {
            s
        },
    }
}

/// The bookkeeping for one supervised process: its state, the handle of the
/// child while one exists, and the reason the last run ended.
#[derive(Debug)]
pub struct ProcessMachine {
    pub state: ProcState,
    pub handle: Option<u64>,
    pub stop_reason: Option<String>,
}

impl ProcessMachine {
    /// Exactly-once-active: a handle exists exactly while a child does (it
    /// is spawned on entering `Running` and released on reaching `Stopped`),
    /// and at most one exists at a time.
    pub open spec fn wf(&self) -> bool {
        (self.state is Running || self.state is Stopping) <==> self.handle is Some
    }

    /// A machine that has never started anything.
    pub fn new() -> (r: Self)
        ensures
            r.state is Stopped,
            r.handle is None,
            r.stop_reason is None,
            r.wf(),
    {
        ProcessMachine { state: ProcState::Stopped, handle: None, stop_reason: None }
    }

    /// A caller asks for a start. Accepted only from `Stopped`; any other
    /// state rejects it with `AlreadyRunning`, and nothing changes.
    pub fn begin_start(&mut self) -> (r: Result<(), ControlError>)
        requires
            old(self).wf(),
        ensures
            final(self).wf(),
            final(self).state == proc_step(old(self).state, ProcEvent::StartRequested),
            final(self).handle == old(self).handle,
            r is Ok <==> old(self).state is Stopped,
            r matches Err(e) ==> e == ControlError::AlreadyRunning && *final(self) == *old(self),
    {
        match self.state {
            ProcState::Stopped => {
                self.state = ProcState::Starting;
                self.stop_reason = None;
                Ok(())
            },
            _ => Err(ControlError::AlreadyRunning),
        }
    }

    /// The spawn succeeded: the machine takes sole ownership of the handle
    /// and the process counts as running.
    pub fn start_spawned(&mut self, handle: u64)
        requires
            old(self).wf(),
            old(self).state is Starting,
        ensures
            final(self).wf(),
            final(self).state == proc_step(old(self).state, ProcEvent::SpawnOk),
            final(self).state is Running,
            final(self).handle == Some(handle),
            final(self).stop_reason == old(self).stop_reason,
    {
        self.state = ProcState::Running;
        self.handle = Some(handle);
    }

    /// The spawn failed: the process is back in `Stopped`, with the reason
    /// recorded.
    pub fn start_failed(&mut self, reason: String)
        requires
            old(self).wf(),
            old(self).state is Starting,
        ensures
            final(self).wf(),
            final(self).state == proc_step(old(self).state, ProcEvent::SpawnFailed),
            final(self).state is Stopped,
            final(self).handle is None,
            final(self).stop_reason == Some(reason),
    {
        self.state = ProcState::Stopped;
        self.handle = None;
        self.stop_reason = Some(reason);
    }

    /// A caller asks for a stop. On an already-stopped process this
    /// succeeds as a no-op and changes nothing; otherwise the machine moves
    /// to `Stopping` and reports whether a child must still be terminated.
    /// Start and stop requests for one kind are serialized by the caller,
    /// so no stop arrives while a spawn is still in flight.
    pub fn begin_stop(&mut self) -> (r: (bool, Option<u64>))
        requires
            old(self).wf(),
            !(old(self).state is Starting),
        ensures
            final(self).wf(),
            final(self).state == proc_step(old(self).state, ProcEvent::StopRequested),
            r.0 <==> !(old(self).state is Stopped),
            !r.0 ==> *final(self) == *old(self),
            r.1 == old(self).handle,
            final(self).handle == old(self).handle,
            final(self).stop_reason == old(self).stop_reason,
    {
        match self.state {
            ProcState::Stopped => (false, None),
            _ => {
                let h = self.handle;
                self.state = ProcState::Stopping;
                (true, h)
            },
        }
    }

    /// Termination is confirmed (gracefully or by force): the machine ends
    /// in `Stopped`, the handle is released, and the reason is recorded.
    /// Stop never returns leaving a process counted as running.
    pub fn stop_confirmed(&mut self, reason: String)
        requires
            old(self).wf(),
            old(self).state is Stopping,
        ensures
            final(self).wf(),
            final(self).state == proc_step(old(self).state, ProcEvent::StopConfirmed),
            final(self).state is Stopped,
            final(self).handle is None,
            final(self).stop_reason == Some(reason),
    {
        self.state = ProcState::Stopped;
        self.handle = None;
        self.stop_reason = Some(reason);
    }

    /// The watcher saw the child exit on its own. Only this path downgrades
    /// a `Running` state; in any other state the report is stale and
    /// changes nothing. The recorded reason is never empty.
    pub fn observe_exit(&mut self, reason: String)
        requires
            old(self).wf(),
        ensures
            final(self).wf(),
            final(self).state == proc_step(old(self).state, ProcEvent::ExitObserved),
            old(self).state is Running ==> final(self).state is Stopped && final(self).handle
                is None && (final(self).stop_reason matches Some(m) && m@.len() > 0),
            !(old(self).state is Running) ==> *final(self) == *old(self),
    {
        match self.state {
            ProcState::Running => {
                self.state = ProcState::Stopped;
                self.handle = None;
                if reason.as_str().is_empty() {
                    let fallback = String::from_str("process exited unexpectedly");
                    proof {
                        reveal_strlit("process exited unexpectedly");
                    }
                    self.stop_reason = Some(fallback);
                } else {
                    self.stop_reason = Some(reason);
                }
            },
            _ => {},
        }
    }
}

/// What one complete, successful `start` command does to the state: from
/// `Stopped` it ends `Running`; from anything else it is rejected and the
/// state stays.
pub open spec fn start_outcome(s: ProcState) -> (ProcState, bool) {
    if s is Stopped {
        (ProcState::Running, true)
    } else {
        (s, false)
    }
}

/// The state after `n` consecutive `start` commands (each spawn
/// succeeding), with no stop in between.
pub open spec fn starts_after(s: ProcState, n: nat) -> ProcState
    decreases n,
{
    if n == 0 {
        s
    } else {
        start_outcome(starts_after(s, (n - 1) as nat)).0
    }
}

/// Of any run of `start` commands on a stopped process, only the first is
/// accepted: the state is `Running` from then on, and every later request
/// is rejected while the state stays `Running`.
pub proof fn lemma_only_first_start_succeeds(n: nat)
    requires
        n >= 1,
    ensures
        starts_after(ProcState::Stopped, n) == ProcState::Running,
        forall|k: nat|
            1 <= k < n ==> !(#[trigger] start_outcome(starts_after(ProcState::Stopped, k))).1,
    decreases n,
{
    if n == 1 {
        assert(starts_after(ProcState::Stopped, 0) == ProcState::Stopped);
    } else {
        lemma_only_first_start_succeeds((n - 1) as nat);
        assert(starts_after(ProcState::Stopped, (n - 1) as nat) == ProcState::Running);
        assert(!(start_outcome(starts_after(ProcState::Stopped, (n - 1) as nat))).1);
    }
}

/// A stop on an already-stopped process changes nothing: the answering
/// transition is the identity.
pub proof fn lemma_stop_on_stopped_is_noop()
    ensures
        proc_step(ProcState::Stopped, ProcEvent::StopRequested) == ProcState::Stopped,
{
}

/// Once a process is `Stopped`, no event but an explicit start request can
/// ever move it again — in particular nothing resurrects it to `Running`.
pub proof fn lemma_no_resurrection(e: ProcEvent)
    ensures
        e != ProcEvent::StartRequested ==> proc_step(ProcState::Stopped, e)
            == ProcState::Stopped,
        proc_step(ProcState::Stopped, e) != ProcState::Running,
{
}

} // verus!
