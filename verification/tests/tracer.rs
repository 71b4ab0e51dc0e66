use systrace::process::SpawnError;
use systrace::syscalls::SYS_WRITE;
use systrace::tracer::{
    classify_first_stop, step, trace, trace_with_events, StopAction, TraceError, TraceOutcome,
    WaitEvent,
};

#[test]
fn test_trace_simple_command() {
    let result = trace("true", &[]);
    assert!(result.is_ok());
}

#[test]
fn test_trace_command_with_args() {
    let result = trace("echo", &["hello".to_string()]);
    assert!(result.is_ok());
}

#[test]
fn test_trace_command_with_multiple_args() {
    let result = trace("echo", &["hello".to_string(), "world".to_string()]);
    assert!(result.is_ok());
}

#[test]
fn test_trace_nonzero_exit_code() {
    let result = trace("false", &[]);
    assert!(result.is_ok());
}

#[test]
fn test_trace_multiple_times() {
    for _ in 0..3 {
        let result = trace("true", &[]);
        assert!(result.is_ok());
    }
}

#[test]
fn test_trace_reports_exit_codes() {
    assert_eq!(trace("true", &[]), Ok(TraceOutcome::Exited(0)));
    assert_eq!(trace("false", &[]), Ok(TraceOutcome::Exited(1)));
}

#[test]
fn test_trace_three_sessions_all_exit_zero() {
    for _ in 0..3 {
        let result = trace("true", &[]);
        assert_eq!(result, Ok(TraceOutcome::Exited(0)));
    }
}

#[test]
fn test_trace_signal_terminated_program() {
    let result = trace("sh", &["-c".to_string(), "kill -9 $$".to_string()]);
    assert_eq!(result, Ok(TraceOutcome::Terminated(9)));
}

#[test]
fn test_trace_nonexistent_program_surfaces_exec_failure() {
    let result = trace("nonexistent_command_xyz", &[]);
    assert_eq!(
        result,
        Err(TraceError::LaunchFailed(SpawnError::ExecFailed))
    );
}

#[test]
fn test_trace_emits_one_write_event_with_its_arguments() {
    let (outcome, events) =
        trace_with_events("echo", &["hello".to_string()]).expect("trace failed");
    assert_eq!(outcome, TraceOutcome::Exited(0));

    let writes: Vec<_> = events.iter().filter(|e| e.number == SYS_WRITE).collect();
    assert_eq!(writes.len(), 1);
    let write = writes[0];
    assert_eq!(write.name, "write");
    // echo writes "hello\n" to standard output: fd 1, six bytes.
    assert_eq!(write.arg0, 1);
    assert_eq!(write.arg2, 6);
}

#[test]
fn test_trace_events_carry_resolved_names() {
    let (_, events) = trace_with_events("true", &[]).expect("trace failed");
    assert!(!events.is_empty());
    for event in &events {
        if event.number <= 3 {
            assert!(["read", "write", "open", "close"].contains(&event.name.as_str()));
        } else {
            assert_eq!(event.name, "unknown");
        }
    }
}

#[test]
fn test_step_on_exit_finishes_with_code() {
    let ev = WaitEvent::Exited { code: 5 };
    assert_eq!(
        step(&ev, true),
        (StopAction::Finish(TraceOutcome::Exited(5)), true)
    );
    assert_eq!(
        step(&ev, false),
        (StopAction::Finish(TraceOutcome::Exited(5)), false)
    );
}

#[test]
fn test_step_on_signal_finishes_with_signal() {
    let ev = WaitEvent::Signaled { signal: 9 };
    assert_eq!(
        step(&ev, true),
        (StopAction::Finish(TraceOutcome::Terminated(9)), true)
    );
}

#[test]
fn test_step_alternates_entry_and_exit_stops() {
    let stop = WaitEvent::Stopped { signal: 5 };
    assert_eq!(step(&stop, true), (StopAction::DecodeStop, false));
    assert_eq!(step(&stop, false), (StopAction::SkipStop, true));
}

#[test]
fn test_step_on_spurious_event_skips_and_keeps_parity() {
    assert_eq!(step(&WaitEvent::Other, true), (StopAction::SkipStop, true));
    assert_eq!(step(&WaitEvent::Other, false), (StopAction::SkipStop, false));
}

#[test]
fn test_first_stop_classification() {
    assert!(classify_first_stop(&WaitEvent::Stopped { signal: 5 }).is_ok());
    assert_eq!(
        classify_first_stop(&WaitEvent::Exited { code: 0 }),
        Err(TraceError::LaunchFailed(SpawnError::ExecFailed))
    );
    assert_eq!(
        classify_first_stop(&WaitEvent::Signaled { signal: 9 }),
        Err(TraceError::LaunchFailed(SpawnError::ExecFailed))
    );
}
