use postgresql_commands::execution::exit_result;
use postgresql_commands::execution::next;
use postgresql_commands::execution::CommandError;
use postgresql_commands::execution::ExecutionModel;
use postgresql_commands::execution::ProcessEvent;
use postgresql_commands::execution::RunAction;
use postgresql_commands::execution::RunState;

fn exited(success: bool, stdout: &[u8], stderr: &[u8]) -> ProcessEvent {
    ProcessEvent::Exited { success, stdout: stdout.to_vec(), stderr: stderr.to_vec() }
}

#[test]
fn spawn_then_await() {
    let (state, action) = next(ExecutionModel::Cooperative, RunState::NotStarted, ProcessEvent::Spawned);
    assert_eq!(RunState::Running, state);
    assert!(matches!(action, RunAction::AwaitExit));
}

#[test]
fn missing_binary_is_spawn_error() {
    let event = ProcessEvent::SpawnFailed { reason: "No such file or directory".to_string() };
    let (state, action) = next(ExecutionModel::Cooperative, RunState::NotStarted, event);
    assert_eq!(RunState::Finished, state);
    match action {
        RunAction::Report(Err(CommandError::Spawn { reason })) => assert_eq!("No such file or directory", reason),
        _ => panic!("expected a spawn error"),
    }
    let event = ProcessEvent::SpawnFailed { reason: "denied".to_string() };
    let (_, action) = next(ExecutionModel::Blocking, RunState::NotStarted, event);
    assert!(matches!(action, RunAction::Report(Err(CommandError::Spawn { .. }))));
}

#[test]
fn listing_succeeds_with_output() {
    let (state, action) = next(ExecutionModel::Cooperative, RunState::Running, exited(true, b"Cargo.toml\nsrc\n", b""));
    assert_eq!(RunState::Finished, state);
    match action {
        RunAction::Report(Ok((stdout, stderr))) => {
            assert_eq!("Cargo.toml\nsrc\n", stdout);
            assert!(!stdout.is_empty());
            assert!(stderr.is_empty());
        },
        _ => panic!("expected a successful report"),
    }
}

#[test]
fn failure_status_is_error_when_cooperative() {
    let (_, action) = next(ExecutionModel::Cooperative, RunState::Running, exited(false, b"out", b"err"));
    match action {
        RunAction::Report(Err(CommandError::NonZeroExit { stdout, stderr })) => {
            assert_eq!("out", stdout);
            assert_eq!("err", stderr);
        },
        _ => panic!("expected NonZeroExit"),
    }
}

#[test]
fn failure_status_is_returned_when_blocking() {
    let (_, action) = next(ExecutionModel::Blocking, RunState::Running, exited(false, b"out", b"err"));
    match action {
        RunAction::Report(Ok((stdout, stderr))) => {
            assert_eq!("out", stdout);
            assert_eq!("err", stderr);
        },
        _ => panic!("expected the output"),
    }
}

#[test]
fn invalid_utf8_is_decoded_lossily() {
    let (_, action) = next(ExecutionModel::Blocking, RunState::Running, exited(true, b"a\xffb", b"\xc3\xa9"));
    match action {
        RunAction::Report(Ok((stdout, stderr))) => {
            assert_eq!("a\u{fffd}b", stdout);
            assert_eq!("é", stderr);
        },
        _ => panic!("expected the output"),
    }
}

#[test]
fn elapsed_limit_terminates_and_times_out() {
    let (state, action) = next(ExecutionModel::Cooperative, RunState::Running, ProcessEvent::Elapsed);
    assert_eq!(RunState::Finished, state);
    assert!(matches!(action, RunAction::TerminateAndReport(Err(CommandError::Timeout))));
}

#[test]
fn blocking_ignores_elapsed_limit() {
    let (state, action) = next(ExecutionModel::Blocking, RunState::Running, ProcessEvent::Elapsed);
    assert_eq!(RunState::Running, state);
    assert!(matches!(action, RunAction::Ignore));
}

#[test]
fn finished_run_ignores_late_events() {
    let (state, action) = next(ExecutionModel::Cooperative, RunState::Finished, exited(true, b"late", b""));
    assert_eq!(RunState::Finished, state);
    assert!(matches!(action, RunAction::Ignore));
    let (state, action) = next(ExecutionModel::Cooperative, RunState::NotStarted, ProcessEvent::Elapsed);
    assert_eq!(RunState::NotStarted, state);
    assert!(matches!(action, RunAction::Ignore));
}

#[test]
fn exit_result_by_model() {
    assert!(matches!(
        exit_result(ExecutionModel::Cooperative, true, "o".to_string(), String::new()),
        Ok(_)
    ));
    assert!(matches!(
        exit_result(ExecutionModel::Cooperative, false, "o".to_string(), String::new()),
        Err(CommandError::NonZeroExit { .. })
    ));
    assert!(matches!(
        exit_result(ExecutionModel::Blocking, false, "o".to_string(), String::new()),
        Ok(_)
    ));
}
