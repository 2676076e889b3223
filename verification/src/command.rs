//! The command invoker: one function for each operation.
//!
//! Each of them checks its arguments, builds the argument vector, has the
//! process run, and makes the answer of what came back. Running the process is
//! the caller's part: every operation takes the function that does it.

use crate::answer::{answer_of, answer_view, capture_of, checked, checked_view};
use crate::error::{ErrorView, TmuxError};
use crate::process::{outcome_view, OutputView, ProcessOutcome, ProcessOutput};
use crate::request::{arguments_of, missing_argument, operation_of};
use crate::types::{
    views, CommandView, ResponseView, TmuxCommand, TmuxPane, TmuxResponse, TmuxSession,
    TmuxWindow,
};
use vstd::prelude::*;

verus! {

/// An answer with a payload, as `answer_of` gives it.
pub open spec fn with_payload(answer: Result<TmuxResponse, TmuxError>) -> Result<
    Option<ResponseView>,
    ErrorView,
> {
    match answer {
        Ok(response) => Ok(Some(response@)),
        Err(error) => Err(error@),
    }
}

/// An answer without a payload, as `answer_of` gives it.
pub open spec fn without_payload(answer: Result<(), TmuxError>) -> Result<
    Option<ResponseView>,
    ErrorView,
> {
    match answer {
        Ok(done) => Ok(None),
        Err(error) => Err(error@),
    }
}

/// Whether `run` may be called with the arguments of `command`, if the command
/// lacks none.
pub open spec fn accepts<F: FnOnce(Vec<String>) -> ProcessOutcome>(
    run: F,
    command: CommandView,
) -> bool {
    missing_argument(command) is None ==> forall|arguments: Vec<String>|
        views(arguments@) == arguments_of(command) ==> call_requires(run, (arguments,))
}

/// Whether `run`, called with the arguments of `command`, may have come to
/// `outcome`.
pub open spec fn ran<F: FnOnce(Vec<String>) -> ProcessOutcome>(
    run: F,
    command: CommandView,
    outcome: ProcessOutcome,
) -> bool {
    exists|arguments: Vec<String>|
        views(arguments@) == arguments_of(command) && #[trigger] call_ensures(
            run,
            (arguments,),
            outcome,
        )
}

/// Whether `answer` is what invoking `command` through `run` comes to. A
/// command that lacks an argument is refused, whatever `run` would do. Any
/// other is answered from an outcome of `run` on the command's arguments.
pub open spec fn answers<F: FnOnce(Vec<String>) -> ProcessOutcome>(
    run: F,
    command: CommandView,
    answer: Result<Option<ResponseView>, ErrorView>,
) -> bool {
    match missing_argument(command) {
        Some(argument) => answer == Err::<Option<ResponseView>, ErrorView>(
            ErrorView::ValidationFailed { operation: operation_of(command), argument },
        ),
        None => exists|outcome: ProcessOutcome| #[trigger]
            ran(run, command, outcome) && answer == answer_of(command, outcome_view(outcome)),
    }
}

/// Whether `checked_output` is what running `command` through `run` comes to,
/// before any output is read.
pub open spec fn runs<F: FnOnce(Vec<String>) -> ProcessOutcome>(
    run: F,
    command: CommandView,
    checked_output: Result<OutputView, ErrorView>,
) -> bool {
    match missing_argument(command) {
        Some(argument) => checked_output == Err::<OutputView, ErrorView>(
            ErrorView::ValidationFailed { operation: operation_of(command), argument },
        ),
        None => exists|outcome: ProcessOutcome| #[trigger]
            ran(run, command, outcome) && checked_output == checked(
                command,
                outcome_view(outcome),
            ),
    }
}

/// Runs a command: refuses it where it lacks an argument, else hands its
/// arguments to `run`, and sorts what comes back.
pub fn run_command<F: FnOnce(Vec<String>) -> ProcessOutcome>(command: &TmuxCommand, run: F) -> (r:
    Result<ProcessOutput, TmuxError>)
    requires
        accepts(run, command@),
    ensures
        runs(run, command@, checked_view(r)),
{
    command.validate()?;
    let arguments = command.arguments();
    let outcome = run(arguments);
    assert(ran(run, command@, outcome));
    command.check(outcome)
}

/// Invokes a command through `run`, and gives its answer: the payload, where
/// the operation has one.
pub fn invoke<F: FnOnce(Vec<String>) -> ProcessOutcome>(command: &TmuxCommand, run: F) -> (r:
    Result<Option<TmuxResponse>, TmuxError>)
    requires
        accepts(run, command@),
    ensures
        answers(run, command@, answer_view(r)),
{
    let output = run_command(command, run)?;
    command.payload(output.stdout.as_slice())
}

/// Lists the sessions of the server.
pub fn get_sessions<F: FnOnce(Vec<String>) -> ProcessOutcome>(run: F) -> (r: Result<
    TmuxResponse,
    TmuxError,
>)
    requires
        accepts(run, CommandView::GetSessions),
    ensures
        answers(run, CommandView::GetSessions, with_payload(r)),
{
    let command = TmuxCommand::GetSessions;
    let output = run_command(&command, run)?;
    let sessions = command.listed::<TmuxSession>(output.stdout.as_slice())?;
    Ok(TmuxResponse::Sessions(sessions))
}

/// Lists the windows of a session.
pub fn get_windows<F: FnOnce(Vec<String>) -> ProcessOutcome>(session_name: &str, run: F) -> (r:
    Result<TmuxResponse, TmuxError>)
    requires
        accepts(run, CommandView::GetWindows { session_name: session_name@ }),
    ensures
        answers(run, CommandView::GetWindows { session_name: session_name@ }, with_payload(r)),
{
    let command = TmuxCommand::GetWindows { session_name };
    let output = run_command(&command, run)?;
    let windows = command.listed::<TmuxWindow>(output.stdout.as_slice())?;
    Ok(TmuxResponse::Windows(windows))
}

/// Lists the panes of a window.
pub fn get_panes<F: FnOnce(Vec<String>) -> ProcessOutcome>(
    session_name: &str,
    window_index: u64,
    run: F,
) -> (r: Result<TmuxResponse, TmuxError>)
    requires
        accepts(run, CommandView::GetPanes { session_name: session_name@, window_index }),
    ensures
        answers(
            run,
            CommandView::GetPanes { session_name: session_name@, window_index },
            with_payload(r),
        ),
{
    let command = TmuxCommand::GetPanes { session_name, window_index };
    let output = run_command(&command, run)?;
    let panes = command.listed::<TmuxPane>(output.stdout.as_slice())?;
    Ok(TmuxResponse::Panes(panes))
}

/// Captures the screen of a pane.
pub fn capture_pane<F: FnOnce(Vec<String>) -> ProcessOutcome>(
    session_name: &str,
    window_index: u64,
    pane_index: u64,
    run: F,
) -> (r: Result<TmuxResponse, TmuxError>)
    requires
        accepts(
            run,
            CommandView::CapturePane { session_name: session_name@, window_index, pane_index },
        ),
    ensures
        answers(
            run,
            CommandView::CapturePane { session_name: session_name@, window_index, pane_index },
            with_payload(r),
        ),
{
    let command = TmuxCommand::CapturePane { session_name, window_index, pane_index };
    let output = run_command(&command, run)?;
    let capture = capture_of(session_name, window_index, pane_index, output.stdout.as_slice());
    Ok(TmuxResponse::PaneCapture(capture))
}

/// Makes a session, detached, and describes it.
pub fn new_session<F: FnOnce(Vec<String>) -> ProcessOutcome>(session_name: &str, run: F) -> (r:
    Result<TmuxResponse, TmuxError>)
    requires
        accepts(run, CommandView::NewSession { session_name: session_name@ }),
    ensures
        answers(run, CommandView::NewSession { session_name: session_name@ }, with_payload(r)),
{
    let command = TmuxCommand::NewSession { session_name };
    let output = run_command(&command, run)?;
    let session = command.created(output.stdout.as_slice())?;
    Ok(TmuxResponse::NewSession(session))
}

/// Kills a session.
pub fn kill_session<F: FnOnce(Vec<String>) -> ProcessOutcome>(session_name: &str, run: F) -> (r:
    Result<(), TmuxError>)
    requires
        accepts(run, CommandView::KillSession { session_name: session_name@ }),
    ensures
        answers(run, CommandView::KillSession { session_name: session_name@ }, without_payload(r)),
{
    let command = TmuxCommand::KillSession { session_name };
    let _ = run_command(&command, run)?;
    Ok(())
}

/// Gives a session another name.
pub fn rename_session<F: FnOnce(Vec<String>) -> ProcessOutcome>(
    old_session_name: &str,
    new_session_name: &str,
    run: F,
) -> (r: Result<(), TmuxError>)
    requires
        accepts(
            run,
            CommandView::RenameSession {
                old_session_name: old_session_name@,
                new_session_name: new_session_name@,
            },
        ),
    ensures
        answers(
            run,
            CommandView::RenameSession {
                old_session_name: old_session_name@,
                new_session_name: new_session_name@,
            },
            without_payload(r),
        ),
{
    let command = TmuxCommand::RenameSession { old_session_name, new_session_name };
    let _ = run_command(&command, run)?;
    Ok(())
}

} // verus!
