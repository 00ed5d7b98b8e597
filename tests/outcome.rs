use xshell::outcome::{
    assemble, select_error, spawn_failed, ExecError, ExitInfo, FaultKind, OsFault, WaitResult,
};
use xshell::sink::BoundedSink;

fn fault(kind: FaultKind, code: i32) -> OsFault {
    OsFault { kind, code: Some(code) }
}

fn exited(code: i32) -> WaitResult {
    WaitResult::Exited(ExitInfo { code: Some(code), signal: None })
}

#[test]
fn clean_run_reports_status_and_both_streams() {
    let mut out = BoundedSink::new(None);
    let mut err = BoundedSink::new(None);
    out.append(b"stdout-line");
    err.append(b"stderr-line");
    let o = assemble(exited(0), None, None, None, &out, &err);
    assert!(o.status.unwrap().success());
    assert_eq!(o.stdout, b"stdout-line".to_vec());
    assert_eq!(o.stderr, b"stderr-line".to_vec());
    assert_eq!(o.error, None);
}

#[test]
fn missing_program_is_a_spawn_failure() {
    let o = spawn_failed(fault(FaultKind::NotFound, 2));
    assert_eq!(o.error, Some(ExecError::SpawnFailed(fault(FaultKind::NotFound, 2))));
    assert!(o.status.is_none());
    assert!(o.stdout.is_empty());
    assert!(o.stderr.is_empty());
}

#[test]
fn nonzero_exit_is_not_an_error() {
    let out = BoundedSink::new(None);
    let err = BoundedSink::new(None);
    let o = assemble(exited(1), None, None, None, &out, &err);
    assert_eq!(o.status, Some(ExitInfo { code: Some(1), signal: None }));
    assert!(!o.status.unwrap().success());
    assert_eq!(o.error, None);
}

#[test]
fn timeout_wins_over_io_errors_and_keeps_output() {
    let mut out = BoundedSink::new(None);
    out.append(b"partial");
    let err = BoundedSink::new(None);
    let killed = ExitInfo { code: None, signal: Some(9) };
    let o = assemble(
        WaitResult::TimedOut(Some(killed)),
        Some(fault(FaultKind::Other, 5)),
        Some(fault(FaultKind::Other, 5)),
        None,
        &out,
        &err,
    );
    assert_eq!(o.error, Some(ExecError::Timeout));
    assert_eq!(o.status, Some(killed));
    assert_eq!(o.stdout, b"partial".to_vec());
}

#[test]
fn failed_wait_has_no_status() {
    let out = BoundedSink::new(None);
    let err = BoundedSink::new(None);
    let f = fault(FaultKind::Other, 10);
    let o = assemble(WaitResult::Failed(f), None, Some(fault(FaultKind::Other, 5)), None, &out, &err);
    assert_eq!(o.error, Some(ExecError::WaitFailed(f)));
    assert_eq!(o.status, None);
}

#[test]
fn read_error_wins_over_stdin_error() {
    let read = fault(FaultKind::Other, 5);
    let write = fault(FaultKind::PermissionDenied, 13);
    assert_eq!(select_error(exited(0), Some(write), None, Some(read)), Some(ExecError::IoFailure(read)));
    assert_eq!(select_error(exited(0), Some(write), None, None), Some(ExecError::IoFailure(write)));
}

#[test]
fn stdout_error_wins_over_stderr_error() {
    let a = fault(FaultKind::Other, 5);
    let b = fault(FaultKind::Interrupted, 4);
    assert_eq!(select_error(exited(0), None, Some(a), Some(b)), Some(ExecError::IoFailure(a)));
}

#[test]
fn broken_pipe_on_stdin_is_benign() {
    let bp = fault(FaultKind::BrokenPipe, 32);
    assert_eq!(select_error(exited(0), Some(bp), None, None), None);
    assert!(!xshell::outcome::stdin_fault_matters(Some(bp)));
    assert!(xshell::outcome::stdin_fault_matters(Some(fault(FaultKind::Other, 5))));
}

#[test]
fn ceilings_bound_the_captured_tails() {
    let mut out = BoundedSink::new(Some(4));
    let mut err = BoundedSink::new(Some(2));
    out.append(b"0123456789");
    err.append(b"xyz");
    let o = assemble(exited(0), None, None, None, &out, &err);
    assert_eq!(o.stdout, b"6789".to_vec());
    assert_eq!(o.stderr, b"yz".to_vec());
}
