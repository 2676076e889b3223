//! The operations, and the errors with which one of them may end.

use crate::decode::DecodeError;
use crate::process::{LaunchError, LaunchView, OutputView, ProcessOutput};
use vstd::prelude::*;

verus! {

/// The operations that this crate asks of tmux.
#[derive(Debug, Clone, Copy, PartialEq, Eq, Structural)]
pub enum Operation {
    ListSessions,
    ListWindows,
    ListPanes,
    CapturePane,
    NewSession,
    KillSession,
    RenameSession,
}

/// The name of an operation: the tmux command that performs it.
pub open spec fn operation_name(operation: Operation) -> Seq<char> {
    match operation {
        Operation::ListSessions => "list-sessions"@,
        Operation::ListWindows => "list-windows"@,
        Operation::ListPanes => "list-panes"@,
        Operation::CapturePane => "capture-pane"@,
        Operation::NewSession => "new-session"@,
        Operation::KillSession => "kill-session"@,
        Operation::RenameSession => "rename-session"@,
    }
}

impl Operation {
    /// The name of the operation: the tmux command that performs it.
    pub fn name(self) -> (name: &'static str)
        ensures
            name@ == operation_name(self),
    {
        match self {
            Operation::ListSessions => "list-sessions",
            Operation::ListWindows => "list-windows",
            Operation::ListPanes => "list-panes",
            Operation::CapturePane => "capture-pane",
            Operation::NewSession => "new-session",
            Operation::KillSession => "kill-session",
            Operation::RenameSession => "rename-session",
        }
    }
}

/// An argument that a command cannot do without.
#[derive(Debug, Clone, Copy, PartialEq, Eq, Structural)]
pub enum Argument {
    /// The name of the session that the command is about.
    SessionName,
    /// The name that a session is to be given.
    NewSessionName,
}

/// Why an operation gave no answer.
#[derive(Debug, Clone, PartialEq, Eq)]
pub enum TmuxError {
    /// The caller left out an argument; no process was started.
    ValidationFailed { operation: Operation, argument: Argument },
    /// The process could not be started, or its output could not be read.
    LaunchFailed { operation: Operation, target: Option<String>, cause: LaunchError },
    /// The process ran and did not succeed.
    CommandFailed { operation: Operation, target: Option<String>, output: ProcessOutput },
    /// The process succeeded, and a line of its output did not decode.
    DecodeFailed {
        operation: Operation,
        target: Option<String>,
        line: Vec<u8>,
        reason: DecodeError,
    },
}

/// What a [`TmuxError`] is.
pub enum ErrorView {
    ValidationFailed { operation: Operation, argument: Argument },
    LaunchFailed { operation: Operation, target: Option<Seq<char>>, cause: LaunchView },
    CommandFailed { operation: Operation, target: Option<Seq<char>>, output: OutputView },
    DecodeFailed {
        operation: Operation,
        target: Option<Seq<char>>,
        line: Seq<u8>,
        reason: DecodeError,
    },
}

/// The view of a target.
pub open spec fn target_view(target: Option<String>) -> Option<Seq<char>> {
    match target {
        Some(text) => Some(text@),
        None => None,
    }
}

impl View for TmuxError {
    type V = ErrorView;

    open spec fn view(&self) -> ErrorView {
        match self {
            TmuxError::ValidationFailed { operation, argument } => ErrorView::ValidationFailed {
                operation: *operation,
                argument: *argument,
            },
            TmuxError::LaunchFailed { operation, target, cause } => ErrorView::LaunchFailed {
                operation: *operation,
                target: target_view(*target),
                cause: cause@,
            },
            TmuxError::CommandFailed { operation, target, output } => ErrorView::CommandFailed {
                operation: *operation,
                target: target_view(*target),
                output: output@,
            },
            TmuxError::DecodeFailed { operation, target, line, reason } => ErrorView::DecodeFailed {
                operation: *operation,
                target: target_view(*target),
                line: line@,
                reason: *reason,
            },
        }
    }
}

impl ErrorView {
    /// The operation that failed.
    pub open spec fn operation(self) -> Operation {
        match self {
            ErrorView::ValidationFailed { operation, .. } => operation,
            ErrorView::LaunchFailed { operation, .. } => operation,
            ErrorView::CommandFailed { operation, .. } => operation,
            ErrorView::DecodeFailed { operation, .. } => operation,
        }
    }

    /// The address of the object that the operation was about, where one was
    /// made out: none for a call that was refused.
    pub open spec fn target(self) -> Option<Seq<char>> {
        match self {
            ErrorView::ValidationFailed { .. } => None,
            ErrorView::LaunchFailed { target, .. } => target,
            ErrorView::CommandFailed { target, .. } => target,
            ErrorView::DecodeFailed { target, .. } => target,
        }
    }
}

impl TmuxError {
    /// The operation that failed.
    pub fn operation(&self) -> (operation: Operation)
        ensures
            operation == self@.operation(),
    {
        match self {
            TmuxError::ValidationFailed { operation, .. } => *operation,
            TmuxError::LaunchFailed { operation, .. } => *operation,
            TmuxError::CommandFailed { operation, .. } => *operation,
            TmuxError::DecodeFailed { operation, .. } => *operation,
        }
    }

    /// The address of the object that the operation was about, where one was
    /// made out.
    pub fn target(&self) -> (target: Option<&str>)
        ensures
            match target {
                Some(text) => self@.target() == Some(text@),
                None => self@.target() is None,
            },
    {
        match self {
            TmuxError::ValidationFailed { .. } => None,
            TmuxError::LaunchFailed { target, .. }
            | TmuxError::CommandFailed { target, .. }
            | TmuxError::DecodeFailed { target, .. } => match target {
                Some(text) => Some(text.as_str()),
                None => None,
            },
        }
    }
}

} // verus!
