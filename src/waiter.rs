//! Decisions of a deadline-aware wait on a child process.
//!
//! The caller owns the child handle and runs the loop: it polls the child
//! without blocking, asks `DeadlineWaiter::step` what to do next, and carries
//! out the answer (sleep, or terminate and reap). Keeping the one handle in one
//! place avoids signalling a process id that a concurrent wait has recycled.
use crate::outcome::{status_of, terminal_error, ExecError, ExitInfo, OsFault, WaitResult};
use vstd::prelude::*;

verus! {

/// The first pause between two polls, in milliseconds.
pub const FIRST_PAUSE_MS: u64 = 1;

/// The longest pause between two polls, in milliseconds.
pub const MAX_PAUSE_MS: u64 = 64;

/// What a non-blocking poll of the child found.
#[derive(PartialEq, Eq, Structural, Clone, Copy, Debug)]
pub enum Poll {
    Exited(ExitInfo),
    Running,
    Failed(OsFault),
}

/// What the caller does next.
#[derive(PartialEq, Eq, Structural, Clone, Copy, Debug)]
pub enum WaitAction {
    /// Waiting is over, with this result.
    Finish(WaitResult),
    /// Sleep this many milliseconds, then poll again.
    Pause(u64),
    /// Ask the child to terminate, wait for it, and pass what the wait gave to
    /// `after_termination`.
    Terminate,
}

/// The pause after the one of `ms`: doubled, but never past the longest.
pub open spec fn next_pause(ms: u64) -> u64 {
    if 2 * ms > MAX_PAUSE_MS {
        MAX_PAUSE_MS
    } else {
        (2 * ms) as u64
    }
}

/// The answer to one poll, given the pause that is due and whether the
/// deadline has passed.
pub open spec fn action_for(poll: Poll, pause: u64, past_deadline: bool) -> WaitAction {
    match poll {
        Poll::Exited(s) => WaitAction::Finish(WaitResult::Exited(s)),
        Poll::Failed(f) => WaitAction::Finish(WaitResult::Failed(f)),
        Poll::Running => if past_deadline {
            WaitAction::Terminate
        } else {
            WaitAction::Pause(pause)
        },
    }
}

/// The wait result once a late child was terminated and reaping it gave `reaped`.
pub open spec fn terminated(reaped: Result<ExitInfo, OsFault>) -> WaitResult {
    WaitResult::TimedOut(
        match reaped {
            Ok(s) => Some(s),
            Err(_) => None,
        },
    )
}

/// A child found running once the deadline has passed is terminated, and the
/// execution reports a timeout whatever its workers reported and whether or
/// not reaping it gave a status.
pub proof fn law_late_child_times_out(
    pause: u64,
    reaped: Result<ExitInfo, OsFault>,
    stdin_fault: Option<OsFault>,
    stdout_fault: Option<OsFault>,
    stderr_fault: Option<OsFault>,
)
    ensures
        action_for(Poll::Running, pause, true) == WaitAction::Terminate,
        terminal_error(terminated(reaped), stdin_fault, stdout_fault, stderr_fault) == Some(
            ExecError::Timeout,
        ),
{
}

/// A child found exited, before or after the deadline, is reported with its
/// own exit status and never as timed out.
pub proof fn law_exited_child_keeps_status(
    s: ExitInfo,
    pause: u64,
    past_deadline: bool,
    stdin_fault: Option<OsFault>,
    stdout_fault: Option<OsFault>,
    stderr_fault: Option<OsFault>,
)
    ensures
        action_for(Poll::Exited(s), pause, past_deadline) == WaitAction::Finish(
            WaitResult::Exited(s),
        ),
        status_of(WaitResult::Exited(s)) == Some(s),
        terminal_error(WaitResult::Exited(s), stdin_fault, stdout_fault, stderr_fault) != Some(
            ExecError::Timeout,
        ),
{
}

/// The pause schedule of one wait.
pub struct DeadlineWaiter {
    pause_ms: u64,
}

impl DeadlineWaiter {
    /// The pause that is due at the next `Running` poll before the deadline.
    pub closed spec fn pause(&self) -> u64 {
        self.pause_ms
    }

    /// A waiter whose first pause is the shortest.
    pub fn new() -> (r: DeadlineWaiter)
        ensures
            r.pause() == FIRST_PAUSE_MS,
    {
        DeadlineWaiter { pause_ms: FIRST_PAUSE_MS }
    }

    /// Decides what follows one poll. A child that has exited is reported even
    /// past the deadline; a running one is terminated once the deadline has
    /// passed, else waited on for the due pause, and the next pause grows.
    pub fn step(&mut self, poll: Poll, past_deadline: bool) -> (r: WaitAction)
        ensures
            r == action_for(poll, old(self).pause(), past_deadline),
            r is Pause ==> final(self).pause() == next_pause(old(self).pause()),
            !(r is Pause) ==> final(self).pause() == old(self).pause(),
    {
        match poll {
            Poll::Exited(s) => WaitAction::Finish(WaitResult::Exited(s)),
            Poll::Failed(f) => WaitAction::Finish(WaitResult::Failed(f)),
            Poll::Running => {
                if past_deadline {
                    WaitAction::Terminate
                } else {
                    let due = self.pause_ms;
                    self.pause_ms = if due > MAX_PAUSE_MS / 2 {
                        MAX_PAUSE_MS
                    } else {
                        2 * due
                    };
                    WaitAction::Pause(due)
                }
            },
        }
    }
}

/// The result of a wait whose deadline passed: a timeout, with the status of
/// the terminated child when reaping it succeeded.
pub fn after_termination(reaped: Result<ExitInfo, OsFault>) -> (r: WaitResult)
    ensures
        r == terminated(reaped),
{
    match reaped {
        Ok(s) => WaitResult::TimedOut(Some(s)),
        Err(_) => WaitResult::TimedOut(None),
    }
}

/// The result of a plain blocking wait, used when there is no deadline.
pub fn after_blocking_wait(waited: Result<ExitInfo, OsFault>) -> (r: WaitResult)
    ensures
        r == (match waited {
            Ok(s) => WaitResult::Exited(s),
            Err(f) => WaitResult::Failed(f),
        }),
{
    match waited {
        Ok(s) => WaitResult::Exited(s),
        Err(f) => WaitResult::Failed(f),
    }
}

} // verus!
