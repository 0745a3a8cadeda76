//! The traced-process handle: which process is traced and what state it is
//! in, with the transitions that attach, spawn, resume and wait make, and the
//! order of the steps that release the process at the end of a session.
use vstd::prelude::*;

use crate::wait::{decode_wait_status, outcome_of, WaitOutcome};

verus! {

/// The state of a traced process as the tracer last observed it.
#[derive(Clone, Copy, Debug, PartialEq, Eq, Structural)]
pub enum TraceeStatus {
    Running,
    Stopped,
    Exited,
    Terminated,
}

/// Why an operation on a traced process was refused.
#[derive(Debug)]
pub enum TraceError {
    /// The identifier cannot name a process to attach to.
    Attach { pid: i32 },
    /// The spawned child reported this failure before it could run the program.
    Spawn { message: String },
    /// The operation is not valid while the process is in this state.
    InvalidState { status: TraceeStatus },
    /// The wait reported a status word of no known shape.
    UnexpectedWaitStatus { wait_status: i32 },
    /// The wait that completes an attach or spawn did not report a stop.
    NotStopped { outcome: WaitOutcome },
}

/// One step of releasing a traced process, in the order `teardown` lists them.
#[derive(Clone, Copy, Debug, PartialEq, Eq, Structural)]
pub enum TeardownStep {
    /// Send the stop signal.
    SendStop,
    /// Block until the stop is reported.
    AwaitStop,
    /// Issue the detach request.
    Detach,
    /// Send the continue signal.
    SendContinue,
    /// Send the kill signal.
    SendKill,
    /// Block until the process is reaped.
    Reap,
}

/// The mathematical model of a handle.
pub struct TraceeView {
    pub pid: i32,
    pub status: TraceeStatus,
}

/// A handle on one traced process.
#[derive(Debug)]
pub struct Tracee {
    pid: i32,
    status: TraceeStatus,
}

impl View for Tracee {
    type V = TraceeView;

    closed spec fn view(&self) -> TraceeView {
        TraceeView { pid: self.pid, status: self.status }
    }
}

/// A process that has neither exited nor been killed can still be traced.
pub open spec fn is_live(status: TraceeStatus) -> bool {
    status == TraceeStatus::Stopped || status == TraceeStatus::Running
}

/// The state that a decoded wait outcome puts the process in.
pub open spec fn status_after(outcome: WaitOutcome) -> TraceeStatus {
    match outcome {
        WaitOutcome::Stopped { .. } => TraceeStatus::Stopped,
        WaitOutcome::Exited { .. } => TraceeStatus::Exited,
        WaitOutcome::Terminated { .. } => TraceeStatus::Terminated,
    }
}

/// The handle, or the error, that a construction yields once the target has
/// been attached and the blocking wait for its first stop returned `wait_status`.
pub open spec fn first_stop_verdict(pid: i32, wait_status: i32) -> Result<TraceeView, TraceError> {
    if pid <= 0 {
        Err(TraceError::Attach { pid })
    } else {
        match outcome_of(wait_status) {
            None => Err(TraceError::UnexpectedWaitStatus { wait_status }),
            Some(WaitOutcome::Stopped { .. }) => Ok(
                TraceeView { pid, status: TraceeStatus::Stopped },
            ),
            Some(outcome) => Err(TraceError::NotStopped { outcome }),
        }
    }
}

/// A construction's result, with the handle replaced by its model.
pub open spec fn result_view(r: Result<Tracee, TraceError>) -> Result<TraceeView, TraceError> {
    match r {
        Ok(t) => Ok(t@),
        Err(e) => Err(e),
    }
}

/// The steps that release a process in the given state: a running process is
/// stopped, and the stop observed, before it is detached.
pub open spec fn teardown_plan(status: TraceeStatus) -> Seq<TeardownStep> {
    let release = seq![
        TeardownStep::Detach,
        TeardownStep::SendContinue,
        TeardownStep::SendKill,
        TeardownStep::Reap,
    ];
    if status == TraceeStatus::Running {
        seq![TeardownStep::SendStop, TeardownStep::AwaitStop] + release
    } else {
        release
    }
}

fn first_stop(pid: i32, wait_status: i32) -> (r: Result<Tracee, TraceError>)
    ensures
        result_view(r) == first_stop_verdict(pid, wait_status),
{
    if pid <= 0 {
        return Err(TraceError::Attach { pid });
    }
    match decode_wait_status(wait_status) {
        None => Err(TraceError::UnexpectedWaitStatus { wait_status }),
        Some(WaitOutcome::Stopped { .. }) => Ok(Tracee { pid, status: TraceeStatus::Stopped }),
        Some(outcome) => Err(TraceError::NotStopped { outcome }),
    }
}

impl Tracee {
    #[verifier::type_invariant]
    spec fn has_process(self) -> bool {
        self.pid > 0
    }

    /// Builds the handle on a process that the attach request was issued for,
    /// from the status word of the blocking wait that followed it. Only a stop
    /// yields a handle, so a handle always starts out stopped.
    pub fn from_pid(pid: i32, wait_status: i32) -> (r: Result<Tracee, TraceError>)
        ensures
            result_view(r) == first_stop_verdict(pid, wait_status),
            r is Ok ==> r->Ok_0@.status == TraceeStatus::Stopped && r->Ok_0@.pid == pid,
            pid <= 0 ==> r is Err,
    {
        first_stop(pid, wait_status)
    }

    /// Builds the handle on a forked child from what it reported over the
    /// error-report channel and from the status word of the blocking wait that
    /// followed. A non-empty report is the child's failure, handed on verbatim;
    /// the wait has then reaped the child. An empty report means the program
    /// image was replaced, and the wait must have seen its first trap.
    pub fn from_cmd(pid: i32, report: &String, wait_status: i32) -> (r: Result<
        Tracee,
        TraceError,
    >)
        ensures
            report@.len() > 0 ==> r == Err::<Tracee, TraceError>(
                TraceError::Spawn { message: *report },
            ),
            report@.len() == 0 ==> result_view(r) == first_stop_verdict(pid, wait_status),
            r is Ok ==> r->Ok_0@.status == TraceeStatus::Stopped && r->Ok_0@.pid == pid,
    {
        if report.as_str().unicode_len() > 0 {
            return Err(TraceError::Spawn { message: report.clone() });
        }
        first_stop(pid, wait_status)
    }

    /// The identifier of the traced process.
    pub fn pid(&self) -> (r: i32)
        ensures
            r == self@.pid,
            r > 0,
    {
        proof {
            use_type_invariant(self);
        }
        self.pid
    }

    /// The state the process was last observed in.
    pub fn status(&self) -> (r: TraceeStatus)
        ensures
            r == self@.status,
    {
        self.status
    }

    /// Succeeds exactly when the process is stopped: the state in which it may
    /// be resumed and its registers read or written.
    pub fn check_stopped(&self) -> (r: Result<(), TraceError>)
        ensures
            self@.status == TraceeStatus::Stopped ==> r is Ok,
            self@.status != TraceeStatus::Stopped ==> r == Err::<(), TraceError>(
                TraceError::InvalidState { status: self@.status },
            ),
    {
        match self.status {
            TraceeStatus::Stopped => Ok(()),
            status => Err(TraceError::InvalidState { status }),
        }
    }

    /// Succeeds exactly when the process can still change state, so that a
    /// blocking wait on it is valid.
    pub fn check_live(&self) -> (r: Result<(), TraceError>)
        ensures
            is_live(self@.status) ==> r is Ok,
            !is_live(self@.status) ==> r == Err::<(), TraceError>(
                TraceError::InvalidState { status: self@.status },
            ),
    {
        match self.status {
            TraceeStatus::Stopped => Ok(()),
            TraceeStatus::Running => Ok(()),
            status => Err(TraceError::InvalidState { status }),
        }
    }

    /// Records that the continue request was issued. Refused, with the handle
    /// unchanged, unless the process is stopped; it is then running. Waiting
    /// for its next change of state is a separate step.
    pub fn resume(&mut self) -> (r: Result<(), TraceError>)
        ensures
            old(self)@.status == TraceeStatus::Stopped ==> r is Ok && final(self)@ == (TraceeView {
                pid: old(self)@.pid,
                status: TraceeStatus::Running,
            }),
            old(self)@.status != TraceeStatus::Stopped ==> r == Err::<(), TraceError>(
                TraceError::InvalidState { status: old(self)@.status },
            ) && final(self)@ == old(self)@,
    {
        match self.status {
            TraceeStatus::Stopped => {
                proof {
                    use_type_invariant(&*self);
                }
                self.status = TraceeStatus::Running;
                Ok(())
            },
            status => Err(TraceError::InvalidState { status }),
        }
    }

    /// Records what the blocking wait on the process reported. Refused, with
    /// the handle unchanged, once the process has exited or been killed, or
    /// when the status word has no known shape; otherwise the decoded outcome
    /// is returned and sets the state.
    pub fn wait_on_signal(&mut self, wait_status: i32) -> (r: Result<WaitOutcome, TraceError>)
        ensures
            !is_live(old(self)@.status) ==> r == Err::<WaitOutcome, TraceError>(
                TraceError::InvalidState { status: old(self)@.status },
            ) && final(self)@ == old(self)@,
            is_live(old(self)@.status) && outcome_of(wait_status) is None ==> r == Err::<
                WaitOutcome,
                TraceError,
            >(TraceError::UnexpectedWaitStatus { wait_status }) && final(self)@ == old(self)@,
            is_live(old(self)@.status) && outcome_of(wait_status) is Some ==> r == Ok::<
                WaitOutcome,
                TraceError,
            >(outcome_of(wait_status)->Some_0) && final(self)@ == (TraceeView {
                pid: old(self)@.pid,
                status: status_after(outcome_of(wait_status)->Some_0),
            }),
    {
        if self.check_live().is_err() {
            return Err(TraceError::InvalidState { status: self.status });
        }
        match decode_wait_status(wait_status) {
            None => Err(TraceError::UnexpectedWaitStatus { wait_status }),
            Some(outcome) => {
                proof {
                    use_type_invariant(&*self);
                }
                self.status = match outcome {
                    WaitOutcome::Stopped { .. } => TraceeStatus::Stopped,
                    WaitOutcome::Exited { .. } => TraceeStatus::Exited,
                    WaitOutcome::Terminated { .. } => TraceeStatus::Terminated,
                };
                Ok(outcome)
            },
        }
    }

    /// The steps that release the process, whatever state it is in, so that
    /// it is left neither attached nor a zombie.
    pub fn teardown(&self) -> (r: Vec<TeardownStep>)
        ensures
            r@ == teardown_plan(self@.status),
    {
        let mut steps: Vec<TeardownStep> = Vec::new();
        if self.status == TraceeStatus::Running {
            steps.push(TeardownStep::SendStop);
            steps.push(TeardownStep::AwaitStop);
        }
        steps.push(TeardownStep::Detach);
        steps.push(TeardownStep::SendContinue);
        steps.push(TeardownStep::SendKill);
        steps.push(TeardownStep::Reap);
        proof {
            assert(steps@ =~= teardown_plan(self.status));
        }
        steps
    }
}

} // verus!
