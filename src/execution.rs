//! The decisions of running an invocation: which state follows which event,
//! what to do next, and how the way a process ended becomes a result.
//!
//! Spawning, waiting and the clock are the caller's: it performs each action
//! and hands back the event that followed.

use vstd::prelude::*;
use vstd::utf8::decode_utf8;
use vstd::utf8::valid_utf8;

verus! {

/// The text that decoding `bytes` as UTF-8 gives, each invalid sequence
/// replaced by U+FFFD.
pub uninterp spec fn lossy_text(bytes: Seq<u8>) -> Seq<char>;

/// Relies on `String::from_utf8_lossy`: valid UTF-8 is decoded as it is, and
/// the result depends on the bytes alone.
#[verifier::external_body]
fn decode_lossy(bytes: &Vec<u8>) -> (r: String)
    ensures
        r@ == lossy_text(bytes@),
        valid_utf8(bytes@) ==> r@ == decode_utf8(bytes@),
{
    String::from_utf8_lossy(bytes.as_slice()).into_owned()
}

/// Which execution path runs the process.
#[derive(Clone, Copy, Debug, PartialEq, Eq, Structural)]
pub enum ExecutionModel {
    /// The caller blocks until the process exits; any exit status is a success.
    Blocking,
    /// The process runs under a task scheduler, bounded by the time limit
    /// where one is set; a failure status is an error.
    Cooperative,
}

/// Why running a command failed.
#[derive(Clone, Debug)]
pub enum CommandError {
    /// The program could not be started, for the reason given.
    Spawn { reason: String },
    /// The time limit passed before the program exited.
    Timeout,
    /// The program exited with a failure status, after writing these.
    NonZeroExit { stdout: String, stderr: String },
}

/// A [`CommandError`] as the contracts see it.
pub enum CommandErrorView {
    Spawn { reason: Seq<char> },
    Timeout,
    NonZeroExit { stdout: Seq<char>, stderr: Seq<char> },
}

impl View for CommandError {
    type V = CommandErrorView;

    open spec fn view(&self) -> CommandErrorView {
        match self {
            CommandError::Spawn { reason } => CommandErrorView::Spawn { reason: reason@ },
            CommandError::Timeout => CommandErrorView::Timeout,
            CommandError::NonZeroExit { stdout, stderr } => CommandErrorView::NonZeroExit {
                stdout: stdout@,
                stderr: stderr@,
            },
        }
    }
}

/// What a run returns: standard output and standard error, or why it failed.
pub type RunResult = Result<(String, String), CommandError>;

/// A [`RunResult`] as the contracts see it.
pub type RunResultView = Result<(Seq<char>, Seq<char>), CommandErrorView>;

/// The characters of a run's result.
pub open spec fn result_view(r: RunResult) -> RunResultView {
    match r {
        Ok((out, err)) => Ok((out@, err@)),
        Err(e) => Err(e@),
    }
}

/// Where a run stands.
#[derive(Clone, Copy, Debug, PartialEq, Eq, Structural)]
pub enum RunState {
    NotStarted,
    Running,
    Finished,
}

/// What happened to the process since the last step.
pub enum ProcessEvent {
    /// It was started.
    Spawned,
    /// It could not be started, for the reason given.
    SpawnFailed { reason: String },
    /// It exited, with its status and what it wrote to each stream.
    Exited { success: bool, stdout: Vec<u8>, stderr: Vec<u8> },
    /// The time limit passed first.
    Elapsed,
}

/// A [`ProcessEvent`] as the contracts see it.
pub enum ProcessEventView {
    Spawned,
    SpawnFailed { reason: Seq<char> },
    Exited { success: bool, stdout: Seq<u8>, stderr: Seq<u8> },
    Elapsed,
}

impl View for ProcessEvent {
    type V = ProcessEventView;

    open spec fn view(&self) -> ProcessEventView {
        match self {
            ProcessEvent::Spawned => ProcessEventView::Spawned,
            ProcessEvent::SpawnFailed { reason } => ProcessEventView::SpawnFailed { reason: reason@ },
            ProcessEvent::Exited { success, stdout, stderr } => ProcessEventView::Exited {
                success: *success,
                stdout: stdout@,
                stderr: stderr@,
            },
            ProcessEvent::Elapsed => ProcessEventView::Elapsed,
        }
    }
}

/// What the caller does next.
pub enum RunAction {
    /// Wait for the process to exit, or for the time limit where one is set.
    AwaitExit,
    /// Terminate the process, then hand back this result.
    TerminateAndReport(RunResult),
    /// Hand back this result.
    Report(RunResult),
    /// The event does not apply in this state: nothing to do.
    Ignore,
}

/// A [`RunAction`] as the contracts see it.
pub enum RunActionView {
    AwaitExit,
    TerminateAndReport(RunResultView),
    Report(RunResultView),
    Ignore,
}

impl View for RunAction {
    type V = RunActionView;

    open spec fn view(&self) -> RunActionView {
        match self {
            RunAction::AwaitExit => RunActionView::AwaitExit,
            RunAction::TerminateAndReport(r) => RunActionView::TerminateAndReport(result_view(*r)),
            RunAction::Report(r) => RunActionView::Report(result_view(*r)),
            RunAction::Ignore => RunActionView::Ignore,
        }
    }
}

/// The result of a process that exited, its streams already decoded: a
/// failure status is an error only on the cooperative path.
pub open spec fn exit_result_spec(model: ExecutionModel, success: bool, stdout: Seq<char>, stderr: Seq<char>) -> RunResultView {
    if model == ExecutionModel::Cooperative && !success {
        Err(CommandErrorView::NonZeroExit { stdout, stderr })
    } else {
        Ok((stdout, stderr))
    }
}

/// The state and action that follow `event` in `state`.
pub open spec fn next_spec(model: ExecutionModel, state: RunState, event: ProcessEventView) -> (RunState, RunActionView) {
    match (state, event) {
        (RunState::NotStarted, ProcessEventView::Spawned) => (RunState::Running, RunActionView::AwaitExit),
        (RunState::NotStarted, ProcessEventView::SpawnFailed { reason }) => (
            RunState::Finished,
            RunActionView::Report(Err(CommandErrorView::Spawn { reason })),
        ),
        (RunState::Running, ProcessEventView::Exited { success, stdout, stderr }) => (
            RunState::Finished,
            RunActionView::Report(exit_result_spec(model, success, lossy_text(stdout), lossy_text(stderr))),
        ),
        (RunState::Running, ProcessEventView::Elapsed) => if model == ExecutionModel::Cooperative {
            (RunState::Finished, RunActionView::TerminateAndReport(Err(CommandErrorView::Timeout)))
        } else {
            (RunState::Running, RunActionView::Ignore)
        },
        _ => (state, RunActionView::Ignore),
    }
}

/// The result of a process that exited, given its decoded streams: on the
/// cooperative path a failure status is `NonZeroExit` with both streams;
/// otherwise both streams are returned.
pub fn exit_result(model: ExecutionModel, success: bool, stdout: String, stderr: String) -> (r: RunResult)
    ensures
        result_view(r) == exit_result_spec(model, success, stdout@, stderr@),
{
    if model == ExecutionModel::Cooperative && !success {
        Err(CommandError::NonZeroExit { stdout, stderr })
    } else {
        Ok((stdout, stderr))
    }
}

/// One step of a run: the state that follows `event` in `state`, and what
/// the caller does next.
pub fn next(model: ExecutionModel, state: RunState, event: ProcessEvent) -> (r: (RunState, RunAction))
    ensures
        (r.0, r.1@) == next_spec(model, state, event@),
{
    match (state, event) {
        (RunState::NotStarted, ProcessEvent::Spawned) => (RunState::Running, RunAction::AwaitExit),
        (RunState::NotStarted, ProcessEvent::SpawnFailed { reason }) => (
            RunState::Finished,
            RunAction::Report(Err(CommandError::Spawn { reason })),
        ),
        (RunState::Running, ProcessEvent::Exited { success, stdout, stderr }) => {
            let out = decode_lossy(&stdout);
            let err = decode_lossy(&stderr);
            (RunState::Finished, RunAction::Report(exit_result(model, success, out, err)))
        },
        (RunState::Running, ProcessEvent::Elapsed) => {
            if model == ExecutionModel::Cooperative {
                (RunState::Finished, RunAction::TerminateAndReport(Err(CommandError::Timeout)))
            } else {
                (RunState::Running, RunAction::Ignore)
            }
        },
        (s, _) => (s, RunAction::Ignore),
    }
}

/// On the cooperative path, a time limit that passes while the process runs
/// ends the run: the process is terminated and the result is `Timeout`, not a
/// success. A finished run ignores every later event, so no late exit can
/// replace that result.
pub proof fn lemma_elapsed_times_out(model: ExecutionModel, event: ProcessEventView)
    ensures
        next_spec(ExecutionModel::Cooperative, RunState::Running, ProcessEventView::Elapsed) == (
            RunState::Finished,
            RunActionView::TerminateAndReport(Err(CommandErrorView::Timeout)),
        ),
        next_spec(model, RunState::Finished, event) == (RunState::Finished, RunActionView::Ignore),
{
}

} // verus!
