//! What to make of the answer of tmux: the process could not be started, it
//! ran and refused, its output could not be decoded, or there is a payload.

use crate::decode::DecodeError;
use crate::error::{ErrorView, TmuxError};
use crate::listing::{
    decode_listing, is_nonempty, lemma_listing_fails_at, lemma_listing_total, lines_of,
    listing_of, nonempty_lines, BadLine,
};
use crate::process::{outcome_view, LaunchView, OutcomeView, OutputView, ProcessOutcome, ProcessOutput};
use crate::record::{decode_line, line_record, Record};
use crate::request::{operation_of, target_of};
use crate::text::{lossy_text, read_lossy};
use crate::types::{
    views, CaptureView, CommandView, ResponseView, SessionView, TmuxCapturePane, TmuxCommand,
    TmuxPane, TmuxResponse, TmuxSession, TmuxWindow,
};
use vstd::prelude::*;
use vstd::slice::slice_to_vec;
use vstd::utf8::{decode_utf8, valid_utf8};

verus! {

/// What is made of an outcome before any output is read: a process that
/// did not start is a launch failure, one that did not exit with zero is a
/// command failure, and only the output of one that succeeded is passed on.
pub open spec fn checked(command: CommandView, outcome: OutcomeView) -> Result<
    OutputView,
    ErrorView,
> {
    match outcome {
        Err(cause) => Err(
            ErrorView::LaunchFailed {
                operation: operation_of(command),
                target: target_of(command),
                cause,
            },
        ),
        Ok(output) => if output.succeeded() {
            Ok(output)
        } else {
            Err(
                ErrorView::CommandFailed {
                    operation: operation_of(command),
                    target: target_of(command),
                    output,
                },
            )
        },
    }
}

/// The error for a line of a command's output that did not decode.
pub open spec fn decode_failure(command: CommandView, fault: (Seq<u8>, DecodeError)) -> ErrorView {
    ErrorView::DecodeFailed {
        operation: operation_of(command),
        target: target_of(command),
        line: fault.0,
        reason: fault.1,
    }
}

/// What the output of a command that succeeded holds for the caller. A
/// listing gives its records, or fails as a whole on its first bad line. A
/// capture gives the output as text, read permissively. A new session gives
/// the one session that the whole output spells. Killing and renaming give
/// nothing.
pub open spec fn payload_of(command: CommandView, output: Seq<u8>) -> Result<
    Option<ResponseView>,
    ErrorView,
> {
    match command {
        CommandView::GetSessions => match listing_of::<TmuxSession>(output) {
            Ok(sessions) => Ok(Some(ResponseView::Sessions(sessions))),
            Err(fault) => Err(decode_failure(command, fault)),
        },
        CommandView::GetWindows { session_name } => match listing_of::<TmuxWindow>(output) {
            Ok(windows) => Ok(Some(ResponseView::Windows(windows))),
            Err(fault) => Err(decode_failure(command, fault)),
        },
        CommandView::GetPanes { session_name, window_index } => match listing_of::<TmuxPane>(
            output,
        ) {
            Ok(panes) => Ok(Some(ResponseView::Panes(panes))),
            Err(fault) => Err(decode_failure(command, fault)),
        },
        CommandView::CapturePane { session_name, window_index, pane_index } => Ok(
            Some(
                ResponseView::PaneCapture(
                    CaptureView {
                        session_name,
                        window_index,
                        pane_index,
                        buffer: lossy_text(output),
                    },
                ),
            ),
        ),
        CommandView::NewSession { session_name } => match line_record::<TmuxSession>(output) {
            Ok(session) => Ok(Some(ResponseView::NewSession(session))),
            Err(reason) => Err(decode_failure(command, (output, reason))),
        },
        CommandView::KillSession { session_name } => Ok(None),
        CommandView::RenameSession { old_session_name, new_session_name } => Ok(None),
    }
}

/// The answer to a command whose process came to `outcome`.
pub open spec fn answer_of(command: CommandView, outcome: OutcomeView) -> Result<
    Option<ResponseView>,
    ErrorView,
> {
    match checked(command, outcome) {
        Err(error) => Err(error),
        Ok(output) => payload_of(command, output.stdout),
    }
}

/// The view of an answer.
pub open spec fn answer_view(answer: Result<Option<TmuxResponse>, TmuxError>) -> Result<
    Option<ResponseView>,
    ErrorView,
> {
    match answer {
        Ok(Some(response)) => Ok(Some(response@)),
        Ok(None) => Ok(None),
        Err(error) => Err(error@),
    }
}

/// The view of an output that was checked.
pub open spec fn checked_view(checked_output: Result<ProcessOutput, TmuxError>) -> Result<
    OutputView,
    ErrorView,
> {
    match checked_output {
        Ok(output) => Ok(output@),
        Err(error) => Err(error@),
    }
}

/// The capture of a pane whose screen held `output`: the output as text,
/// read permissively, which for valid UTF-8 is the text that it encodes.
pub fn capture_of(session_name: &str, window_index: u64, pane_index: u64, output: &[u8]) -> (capture:
    TmuxCapturePane)
    ensures
        capture@ == (CaptureView {
            session_name: session_name@,
            window_index,
            pane_index,
            buffer: lossy_text(output@),
        }),
        valid_utf8(output@) ==> capture.buffer@ == decode_utf8(output@),
{
    TmuxCapturePane {
        session_name: session_name.to_owned(),
        window_index,
        pane_index,
        buffer: read_lossy(output),
    }
}

impl<'a> TmuxCommand<'a> {
    /// Sorts an outcome: the output of a process that succeeded, or the
    /// error that says how it did not.
    pub fn check(&self, outcome: ProcessOutcome) -> (r: Result<ProcessOutput, TmuxError>)
        ensures
            checked_view(r) == checked(self@, outcome_view(outcome)),
    {
        match outcome {
            Err(cause) => Err(
                TmuxError::LaunchFailed {
                    operation: self.operation(),
                    target: self.target(),
                    cause,
                },
            ),
            Ok(output) => {
                if output.succeeded() {
                    Ok(output)
                } else {
                    Err(
                        TmuxError::CommandFailed {
                            operation: self.operation(),
                            target: self.target(),
                            output,
                        },
                    )
                }
            },
        }
    }

    /// The error for a line of this command's output that did not decode.
    pub fn decode_failed(&self, bad: BadLine) -> (error: TmuxError)
        ensures
            error@ == decode_failure(self@, bad@),
    {
        TmuxError::DecodeFailed {
            operation: self.operation(),
            target: self.target(),
            line: bad.line,
            reason: bad.reason,
        }
    }

    /// Decodes the output of a listing that succeeded.
    pub fn listed<R: Record>(&self, output: &[u8]) -> (r: Result<Vec<R>, TmuxError>)
        ensures
            match r {
                Ok(records) => listing_of::<R>(output@) == Ok::<
                    Seq<R::V>,
                    (Seq<u8>, DecodeError),
                >(views(records@)),
                Err(error) => listing_of::<R>(output@) is Err && error@ == decode_failure(
                    self@,
                    listing_of::<R>(output@)->Err_0,
                ),
            },
    {
        match decode_listing::<R>(output) {
            Ok(records) => Ok(records),
            Err(bad) => Err(self.decode_failed(bad)),
        }
    }

    /// Decodes the output of a command that made a session and succeeded.
    pub fn created(&self, output: &[u8]) -> (r: Result<TmuxSession, TmuxError>)
        ensures
            match r {
                Ok(session) => line_record::<TmuxSession>(output@) == Ok::<
                    SessionView,
                    DecodeError,
                >(session@),
                Err(error) => line_record::<TmuxSession>(output@) is Err && error@
                    == decode_failure(
                    self@,
                    (output@, line_record::<TmuxSession>(output@)->Err_0),
                ),
            },
    {
        match decode_line::<TmuxSession>(output) {
            Ok(session) => Ok(session),
            Err(reason) => Err(self.decode_failed(BadLine { line: slice_to_vec(output), reason })),
        }
    }

    /// Reads the output of a command that succeeded.
    pub fn payload(&self, output: &[u8]) -> (r: Result<Option<TmuxResponse>, TmuxError>)
        ensures
            answer_view(r) == payload_of(self@, output@),
    {
        match self {
            TmuxCommand::GetSessions => Ok(
                Some(TmuxResponse::Sessions(self.listed::<TmuxSession>(output)?)),
            ),
            TmuxCommand::GetWindows { .. } => Ok(
                Some(TmuxResponse::Windows(self.listed::<TmuxWindow>(output)?)),
            ),
            TmuxCommand::GetPanes { .. } => Ok(
                Some(TmuxResponse::Panes(self.listed::<TmuxPane>(output)?)),
            ),
            TmuxCommand::CapturePane { session_name, window_index, pane_index } => Ok(
                Some(
                    TmuxResponse::PaneCapture(
                        capture_of(session_name, *window_index, *pane_index, output),
                    ),
                ),
            ),
            TmuxCommand::NewSession { .. } => Ok(
                Some(TmuxResponse::NewSession(self.created(output)?)),
            ),
            TmuxCommand::KillSession { .. } => Ok(None),
            TmuxCommand::RenameSession { .. } => Ok(None),
        }
    }

    /// Makes the answer to this command of what its process came to.
    pub fn conclude(&self, outcome: ProcessOutcome) -> (r: Result<Option<TmuxResponse>, TmuxError>)
        ensures
            answer_view(r) == answer_of(self@, outcome_view(outcome)),
    {
        let output = self.check(outcome)?;
        self.payload(output.stdout.as_slice())
    }
}

/// A process that ran and did not succeed is a command failure, whatever
/// the command and whatever the process wrote: never a decode failure, and
/// never a success, with or without records.
pub proof fn lemma_refusal_is_command_failure(command: CommandView, output: OutputView)
    requires
        !output.succeeded(),
    ensures
        answer_of(command, Ok(output)) == Err::<Option<ResponseView>, ErrorView>(
            ErrorView::CommandFailed {
                operation: operation_of(command),
                target: target_of(command),
                output,
            },
        ),
{
}

/// A process that could not be started is a launch failure, whatever the
/// command.
pub proof fn lemma_no_launch_is_launch_failure(command: CommandView, cause: LaunchView)
    ensures
        answer_of(command, Err(cause)) == Err::<Option<ResponseView>, ErrorView>(
            ErrorView::LaunchFailed {
                operation: operation_of(command),
                target: target_of(command),
                cause,
            },
        ),
{
}

/// A capture that succeeded never fails on what the pane held: its buffer is
/// the output, read permissively, whatever bytes the output holds.
pub proof fn lemma_capture_never_fails(
    session_name: Seq<char>,
    window_index: u64,
    pane_index: u64,
    output: OutputView,
)
    requires
        output.succeeded(),
    ensures
        answer_of(CommandView::CapturePane { session_name, window_index, pane_index }, Ok(output))
            == Ok::<Option<ResponseView>, ErrorView>(
            Some(
                ResponseView::PaneCapture(
                    CaptureView {
                        session_name,
                        window_index,
                        pane_index,
                        buffer: lossy_text(output.stdout),
                    },
                ),
            ),
        ),
{
}

/// Every command is answered with the payload of its own family, and the two
/// commands that have none with none: a caller never meets another variant
/// than the one it asked for.
pub proof fn lemma_payload_fits_the_command(command: CommandView, outcome: OutcomeView)
    ensures
        match answer_of(command, outcome) {
            Ok(Some(response)) => match command {
                CommandView::GetSessions => response is Sessions,
                CommandView::GetWindows { .. } => response is Windows,
                CommandView::GetPanes { .. } => response is Panes,
                CommandView::CapturePane { .. } => response is PaneCapture,
                CommandView::NewSession { .. } => response is NewSession,
                CommandView::KillSession { .. } => false,
                CommandView::RenameSession { .. } => false,
            },
            Ok(None) => command is KillSession || command is RenameSession,
            Err(error) => true,
        },
{
}

/// Whether a command asks for a listing.
pub open spec fn is_listing(command: CommandView) -> bool {
    command is GetSessions || command is GetWindows || command is GetPanes
}

/// The error with which `line` fails to decode as a record of the listing
/// that `command` asks for, if it fails.
pub open spec fn line_fault(command: CommandView, line: Seq<u8>) -> Option<DecodeError>
    recommends
        is_listing(command),
{
    match command {
        CommandView::GetSessions => match line_record::<TmuxSession>(line) {
            Ok(session) => None,
            Err(reason) => Some(reason),
        },
        CommandView::GetWindows { session_name } => match line_record::<TmuxWindow>(line) {
            Ok(window) => None,
            Err(reason) => Some(reason),
        },
        CommandView::GetPanes { session_name, window_index } => match line_record::<TmuxPane>(
            line,
        ) {
            Ok(pane) => None,
            Err(reason) => Some(reason),
        },
        _ => None,
    }
}

/// The number of records that a listing holds.
pub open spec fn record_count(response: ResponseView) -> nat
    recommends
        response is Sessions || response is Windows || response is Panes,
{
    match response {
        ResponseView::Sessions(sessions) => sessions.len(),
        ResponseView::Windows(windows) => windows.len(),
        ResponseView::Panes(panes) => panes.len(),
        _ => 0,
    }
}

/// A listing whose process succeeded, and in whose output every line that is
/// not empty decodes, is answered with a payload that holds as many records as
/// the output holds such lines.
pub proof fn lemma_valid_listing_is_answered(command: CommandView, output: OutputView)
    requires
        is_listing(command),
        output.succeeded(),
        forall|i: int|
            0 <= i < lines_of(output.stdout).len() && is_nonempty(
                #[trigger] lines_of(output.stdout)[i],
            ) ==> line_fault(command, lines_of(output.stdout)[i]) is None,
    ensures
        answer_of(command, Ok(output)) matches Ok(Some(response)) && record_count(response)
            == nonempty_lines(lines_of(output.stdout)).len(),
{
    let lines = lines_of(output.stdout);
    match command {
        CommandView::GetSessions => {
            lemma_listing_total::<TmuxSession>(lines);
        },
        CommandView::GetWindows { session_name } => {
            lemma_listing_total::<TmuxWindow>(lines);
        },
        CommandView::GetPanes { session_name, window_index } => {
            lemma_listing_total::<TmuxPane>(lines);
        },
        _ => {},
    }
}

/// A listing whose process succeeded, and in whose output a line does not
/// decode, fails as a whole: the answer is a decode failure that holds the
/// first such line and that line's error, and no record.
pub proof fn lemma_bad_line_fails_listing(command: CommandView, output: OutputView, k: int)
    requires
        is_listing(command),
        output.succeeded(),
        0 <= k < lines_of(output.stdout).len(),
        is_nonempty(lines_of(output.stdout)[k]),
        line_fault(command, lines_of(output.stdout)[k]) is Some,
        forall|i: int|
            0 <= i < k && is_nonempty(#[trigger] lines_of(output.stdout)[i]) ==> line_fault(
                command,
                lines_of(output.stdout)[i],
            ) is None,
    ensures
        answer_of(command, Ok(output)) == Err::<Option<ResponseView>, ErrorView>(
            ErrorView::DecodeFailed {
                operation: operation_of(command),
                target: target_of(command),
                line: lines_of(output.stdout)[k],
                reason: line_fault(command, lines_of(output.stdout)[k])->0,
            },
        ),
{
    let lines = lines_of(output.stdout);
    match command {
        CommandView::GetSessions => {
            lemma_listing_fails_at::<TmuxSession>(lines, k);
        },
        CommandView::GetWindows { session_name } => {
            lemma_listing_fails_at::<TmuxWindow>(lines, k);
        },
        CommandView::GetPanes { session_name, window_index } => {
            lemma_listing_fails_at::<TmuxPane>(lines, k);
        },
        _ => {},
    }
}

} // verus!
