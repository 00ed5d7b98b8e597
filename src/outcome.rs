//! What one run of a child process produces, and how the partial results of
//! its workers combine into a single outcome.
use crate::sink::BoundedSink;
use vstd::prelude::*;

verus! {

/// The class of an operating-system error, as far as the executor's
/// decisions depend on it.
#[derive(PartialEq, Eq, Structural, Clone, Copy, Debug)]
pub enum FaultKind {
    NotFound,
    PermissionDenied,
    BrokenPipe,
    TimedOut,
    Interrupted,
    WouldBlock,
    Other,
}

/// An operating-system error: its class and the raw code, kept unmodified.
#[derive(PartialEq, Eq, Structural, Clone, Copy, Debug)]
pub struct OsFault {
    pub kind: FaultKind,
    pub code: Option<i32>,
}

/// How a child terminated: its exit code, or the signal that ended it.
#[derive(PartialEq, Eq, Structural, Clone, Copy, Debug)]
pub struct ExitInfo {
    pub code: Option<i32>,
    pub signal: Option<i32>,
}

impl ExitInfo {
    /// True exactly when the child exited with code zero.
    pub fn success(&self) -> (r: bool)
        ensures
            r == (self.code == Some(0i32)),
    {
        match self.code {
            Some(c) => c == 0,
            None => false,
        }
    }
}

/// The terminal error of one execution. A non-zero exit is not among them.
#[derive(PartialEq, Eq, Structural, Clone, Copy, Debug)]
pub enum ExecError {
    SpawnFailed(OsFault),
    IoFailure(OsFault),
    Timeout,
    WaitFailed(OsFault),
}

/// How waiting for the child ended.
#[derive(PartialEq, Eq, Structural, Clone, Copy, Debug)]
pub enum WaitResult {
    /// The child exited on its own.
    Exited(ExitInfo),
    /// The deadline passed; the child was terminated and, if possible, reaped.
    TimedOut(Option<ExitInfo>),
    /// The wait call itself failed.
    Failed(OsFault),
}

/// The single result of one execution.
pub struct ExecutionOutcome {
    pub status: Option<ExitInfo>,
    pub stdout: Vec<u8>,
    pub stderr: Vec<u8>,
    pub error: Option<ExecError>,
}

/// A failed write to the child's input counts unless the child merely closed it.
pub open spec fn stdin_fault_counts(f: Option<OsFault>) -> bool {
    match f {
        Some(x) => x.kind != FaultKind::BrokenPipe,
        None => false,
    }
}

/// The one error an execution reports: a timeout first, then a failed wait,
/// then a failed read of stdout, then of stderr, then a failed write to stdin
/// other than a broken pipe.
pub open spec fn terminal_error(
    wait: WaitResult,
    stdin_fault: Option<OsFault>,
    stdout_fault: Option<OsFault>,
    stderr_fault: Option<OsFault>,
) -> Option<ExecError> {
    match wait {
        WaitResult::TimedOut(_) => Some(ExecError::Timeout),
        WaitResult::Failed(f) => Some(ExecError::WaitFailed(f)),
        WaitResult::Exited(_) => if stdout_fault is Some {
            Some(ExecError::IoFailure(stdout_fault->0))
        } else if stderr_fault is Some {
            Some(ExecError::IoFailure(stderr_fault->0))
        } else if stdin_fault_counts(stdin_fault) {
            Some(ExecError::IoFailure(stdin_fault->0))
        } else {
            None
        },
    }
}

/// The exit status an outcome carries for a wait result.
pub open spec fn status_of(wait: WaitResult) -> Option<ExitInfo> {
    match wait {
        WaitResult::Exited(s) => Some(s),
        WaitResult::TimedOut(s) => s,
        WaitResult::Failed(_) => None,
    }
}

/// Whether a write failure on the child's input is reported.
pub fn stdin_fault_matters(f: Option<OsFault>) -> (r: bool)
    ensures
        r == stdin_fault_counts(f),
{
    match f {
        Some(x) => x.kind != FaultKind::BrokenPipe,
        None => false,
    }
}

/// The exit status carried for a wait result.
pub fn wait_status(wait: WaitResult) -> (r: Option<ExitInfo>)
    ensures
        r == status_of(wait),
{
    match wait {
        WaitResult::Exited(s) => Some(s),
        WaitResult::TimedOut(s) => s,
        WaitResult::Failed(_) => None,
    }
}

/// Picks the single error to report, by the fixed priority of `terminal_error`.
pub fn select_error(
    wait: WaitResult,
    stdin_fault: Option<OsFault>,
    stdout_fault: Option<OsFault>,
    stderr_fault: Option<OsFault>,
) -> (r: Option<ExecError>)
    ensures
        r == terminal_error(wait, stdin_fault, stdout_fault, stderr_fault),
{
    match wait {
        WaitResult::TimedOut(_) => Some(ExecError::Timeout),
        WaitResult::Failed(f) => Some(ExecError::WaitFailed(f)),
        WaitResult::Exited(_) => {
            if let Some(f) = stdout_fault {
                Some(ExecError::IoFailure(f))
            } else if let Some(f) = stderr_fault {
                Some(ExecError::IoFailure(f))
            } else if stdin_fault_matters(stdin_fault) {
                match stdin_fault {
                    Some(f) => Some(ExecError::IoFailure(f)),
                    None => None,
                }
            } else {
                None
            }
        },
    }
}

/// The outcome of a child that could not be started: no status, no output.
pub fn spawn_failed(fault: OsFault) -> (r: ExecutionOutcome)
    ensures
        r.status is None,
        r.stdout@ == Seq::<u8>::empty(),
        r.stderr@ == Seq::<u8>::empty(),
        r.error == Some(ExecError::SpawnFailed(fault)),
{
    ExecutionOutcome {
        status: None,
        stdout: Vec::new(),
        stderr: Vec::new(),
        error: Some(ExecError::SpawnFailed(fault)),
    }
}

/// Combines what the waiter and the three workers produced, once all of them
/// have finished. Captured bytes are kept whatever the error.
pub fn assemble(
    wait: WaitResult,
    stdin_fault: Option<OsFault>,
    stdout_fault: Option<OsFault>,
    stderr_fault: Option<OsFault>,
    stdout: &BoundedSink,
    stderr: &BoundedSink,
) -> (r: ExecutionOutcome)
    ensures
        r.status == status_of(wait),
        r.stdout@ == stdout@,
        r.stderr@ == stderr@,
        r.error == terminal_error(wait, stdin_fault, stdout_fault, stderr_fault),
{
    ExecutionOutcome {
        status: wait_status(wait),
        stdout: stdout.contents(),
        stderr: stderr.contents(),
        error: select_error(wait, stdin_fault, stdout_fault, stderr_fault),
    }
}

} // verus!
