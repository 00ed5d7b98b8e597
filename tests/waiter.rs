use xshell::outcome::{assemble, ExecError, ExitInfo, FaultKind, OsFault, WaitResult};
use xshell::sink::BoundedSink;
use xshell::waiter::{
    after_blocking_wait, after_termination, DeadlineWaiter, Poll, WaitAction, MAX_PAUSE_MS,
};

#[test]
fn pauses_double_up_to_the_cap() {
    let mut w = DeadlineWaiter::new();
    let mut seen = Vec::new();
    for _ in 0..9 {
        match w.step(Poll::Running, false) {
            WaitAction::Pause(ms) => seen.push(ms),
            other => panic!("unexpected {:?}", other),
        }
    }
    assert_eq!(seen, vec![1, 2, 4, 8, 16, 32, 64, 64, 64]);
    assert_eq!(MAX_PAUSE_MS, 64);
}

#[test]
fn running_past_deadline_is_terminated() {
    let mut w = DeadlineWaiter::new();
    assert_eq!(w.step(Poll::Running, true), WaitAction::Terminate);
}

#[test]
fn exit_is_reported_even_past_deadline() {
    let s = ExitInfo { code: Some(0), signal: None };
    let mut w = DeadlineWaiter::new();
    assert_eq!(w.step(Poll::Exited(s), true), WaitAction::Finish(WaitResult::Exited(s)));
    assert_eq!(w.step(Poll::Exited(s), false), WaitAction::Finish(WaitResult::Exited(s)));
}

#[test]
fn failed_poll_finishes_the_wait() {
    let f = OsFault { kind: FaultKind::Other, code: Some(10) };
    let mut w = DeadlineWaiter::new();
    assert_eq!(w.step(Poll::Failed(f), false), WaitAction::Finish(WaitResult::Failed(f)));
}

#[test]
fn sleeping_child_with_short_deadline_times_out() {
    // A child that keeps running past its deadline: a few pauses, then the
    // deadline passes, it is terminated, reaped, and reported as timed out.
    let mut w = DeadlineWaiter::new();
    assert_eq!(w.step(Poll::Running, false), WaitAction::Pause(1));
    assert_eq!(w.step(Poll::Running, false), WaitAction::Pause(2));
    assert_eq!(w.step(Poll::Running, true), WaitAction::Terminate);
    let killed = ExitInfo { code: None, signal: Some(9) };
    let result = after_termination(Ok(killed));
    assert_eq!(result, WaitResult::TimedOut(Some(killed)));
    let out = BoundedSink::new(None);
    let err = BoundedSink::new(None);
    let o = assemble(result, None, None, None, &out, &err);
    assert_eq!(o.error, Some(ExecError::Timeout));
}

#[test]
fn unreaped_timeout_has_no_status() {
    let f = OsFault { kind: FaultKind::Other, code: Some(10) };
    assert_eq!(after_termination(Err(f)), WaitResult::TimedOut(None));
}

#[test]
fn blocking_wait_results() {
    let s = ExitInfo { code: Some(3), signal: None };
    let f = OsFault { kind: FaultKind::Interrupted, code: Some(4) };
    assert_eq!(after_blocking_wait(Ok(s)), WaitResult::Exited(s));
    assert_eq!(after_blocking_wait(Err(f)), WaitResult::Failed(f));
}
