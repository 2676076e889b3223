//! What to ask of tmux: the arguments of each command, the address of the
//! object it is about, and the check that nothing it needs is missing.

use crate::error::{operation_name, target_view, Argument, ErrorView, Operation, TmuxError};
use crate::text::{decimal_text, push_decimal};
use crate::types::{views, CommandView, TmuxCommand};
use vstd::prelude::*;
use vstd::string::*;

verus! {

/// The format in which sessions are asked for: one JSON object on a line,
/// with the fields of a session in the order of its schema.
pub const SESSION_FORMAT: &'static str =
    "{\"session_id\": \"#{session_id}\", \"session_index\": \"#{session_index}\", \"session_name\": \"#{session_name}\", \"session_attached\": \"#{session_attached}\", \"session_activity\": \"#{session_activity}\"}";

/// The format in which windows are asked for.
pub const WINDOW_FORMAT: &'static str =
    "{\"window_id\": \"#{window_id}\", \"window_index\": \"#{window_index}\", \"window_name\": \"#{window_name}\", \"window_activity\": \"#{window_activity}\", \"window_width\": \"#{window_width}\", \"window_height\": \"#{window_height}\", \"window_cell_width\": \"#{window_cell_width}\", \"window_cell_height\": \"#{window_cell_height}\", \"window_zoomed_flag\": \"#{window_zoomed_flag}\", \"window_marked_flag\": \"#{window_marked_flag}\"}";

/// The format in which panes are asked for.
pub const PANE_FORMAT: &'static str =
    "{\"pane_id\": \"#{pane_id}\", \"pane_index\": \"#{pane_index}\", \"pane_width\": \"#{pane_width}\", \"pane_height\": \"#{pane_height}\", \"pane_active\": \"#{pane_active}\", \"pane_current_command\": \"#{pane_current_command}\"}";

/// The operation that a command asks for.
pub open spec fn operation_of(command: CommandView) -> Operation {
    match command {
        CommandView::NewSession { .. } => Operation::NewSession,
        CommandView::KillSession { .. } => Operation::KillSession,
        CommandView::RenameSession { .. } => Operation::RenameSession,
        CommandView::CapturePane { .. } => Operation::CapturePane,
        CommandView::GetSessions => Operation::ListSessions,
        CommandView::GetWindows { .. } => Operation::ListWindows,
        CommandView::GetPanes { .. } => Operation::ListPanes,
    }
}

/// The address of a window: the session's name, a colon, the window's index.
pub open spec fn window_target(session_name: Seq<char>, window_index: u64) -> Seq<char> {
    session_name + ":"@ + decimal_text(window_index as nat)
}

/// The address of a pane: the address of its window, a dot, the pane's index.
pub open spec fn pane_target(session_name: Seq<char>, window_index: u64, pane_index: u64) -> Seq<
    char,
> {
    window_target(session_name, window_index) + "."@ + decimal_text(pane_index as nat)
}

/// The address of the object that a command is about, if it is about one.
pub open spec fn target_of(command: CommandView) -> Option<Seq<char>> {
    match command {
        CommandView::NewSession { session_name } => Some(session_name),
        CommandView::KillSession { session_name } => Some(session_name),
        CommandView::RenameSession { old_session_name, new_session_name } => Some(
            old_session_name,
        ),
        CommandView::CapturePane { session_name, window_index, pane_index } => Some(
            pane_target(session_name, window_index, pane_index),
        ),
        CommandView::GetSessions => None,
        CommandView::GetWindows { session_name } => Some(session_name),
        CommandView::GetPanes { session_name, window_index } => Some(
            window_target(session_name, window_index),
        ),
    }
}

/// The first argument that a command needs and lacks: a name that is empty.
pub open spec fn missing_argument(command: CommandView) -> Option<Argument> {
    match command {
        CommandView::NewSession { session_name } => if session_name.len() == 0 {
            Some(Argument::NewSessionName)
        } else {
            None
        },
        CommandView::KillSession { session_name } => if session_name.len() == 0 {
            Some(Argument::SessionName)
        } else {
            None
        },
        CommandView::RenameSession { old_session_name, new_session_name } => if old_session_name.len()
            == 0 {
            Some(Argument::SessionName)
        } else if new_session_name.len() == 0 {
            Some(Argument::NewSessionName)
        } else {
            None
        },
        CommandView::CapturePane { session_name, window_index, pane_index } => if session_name.len()
            == 0 {
            Some(Argument::SessionName)
        } else {
            None
        },
        CommandView::GetSessions => None,
        CommandView::GetWindows { session_name } => if session_name.len() == 0 {
            Some(Argument::SessionName)
        } else {
            None
        },
        CommandView::GetPanes { session_name, window_index } => if session_name.len() == 0 {
            Some(Argument::SessionName)
        } else {
            None
        },
    }
}

/// The arguments with which tmux is run for a command.
pub open spec fn arguments_of(command: CommandView) -> Seq<Seq<char>> {
    match command {
        CommandView::NewSession { session_name } => seq![
            "new-session"@,
            "-d"@,
            "-s"@,
            session_name,
            "-P"@,
            "-F"@,
            SESSION_FORMAT@,
        ],
        CommandView::KillSession { session_name } => seq!["kill-session"@, "-t"@, session_name],
        CommandView::RenameSession { old_session_name, new_session_name } => seq![
            "rename-session"@,
            "-t"@,
            old_session_name,
            new_session_name,
        ],
        CommandView::CapturePane { session_name, window_index, pane_index } => seq![
            "capture-pane"@,
            "-e"@,
            "-p"@,
            "-J"@,
            "-t"@,
            pane_target(session_name, window_index, pane_index),
        ],
        CommandView::GetSessions => seq!["list-sessions"@, "-F"@, SESSION_FORMAT@],
        CommandView::GetWindows { session_name } => seq![
            "list-windows"@,
            "-t"@,
            session_name,
            "-F"@,
            WINDOW_FORMAT@,
        ],
        CommandView::GetPanes { session_name, window_index } => seq![
            "list-panes"@,
            "-t"@,
            window_target(session_name, window_index),
            "-F"@,
            PANE_FORMAT@,
        ],
    }
}

/// Writes the address of a window.
pub fn format_window_target(session_name: &str, window_index: u64) -> (target: String)
    ensures
        target@ == window_target(session_name@, window_index),
{
    let mut target = session_name.to_owned();
    target.append(":");
    push_decimal(&mut target, window_index);
    target
}

/// Writes the address of a pane.
pub fn format_pane_target(session_name: &str, window_index: u64, pane_index: u64) -> (target:
    String)
    ensures
        target@ == pane_target(session_name@, window_index, pane_index),
{
    let mut target = format_window_target(session_name, window_index);
    target.append(".");
    push_decimal(&mut target, pane_index);
    target
}

impl<'a> TmuxCommand<'a> {
    /// The operation that this command asks for.
    pub fn operation(&self) -> (operation: Operation)
        ensures
            operation == operation_of(self@),
    {
        match self {
            TmuxCommand::NewSession { .. } => Operation::NewSession,
            TmuxCommand::KillSession { .. } => Operation::KillSession,
            TmuxCommand::RenameSession { .. } => Operation::RenameSession,
            TmuxCommand::CapturePane { .. } => Operation::CapturePane,
            TmuxCommand::GetSessions => Operation::ListSessions,
            TmuxCommand::GetWindows { .. } => Operation::ListWindows,
            TmuxCommand::GetPanes { .. } => Operation::ListPanes,
        }
    }

    /// The address of the object that this command is about.
    pub fn target(&self) -> (target: Option<String>)
        ensures
            target_view(target) == target_of(self@),
    {
        match self {
            TmuxCommand::NewSession { session_name } => Some((*session_name).to_owned()),
            TmuxCommand::KillSession { session_name } => Some((*session_name).to_owned()),
            TmuxCommand::RenameSession { old_session_name, new_session_name } => Some(
                (*old_session_name).to_owned(),
            ),
            TmuxCommand::CapturePane { session_name, window_index, pane_index } => Some(
                format_pane_target(session_name, *window_index, *pane_index),
            ),
            TmuxCommand::GetSessions => None,
            TmuxCommand::GetWindows { session_name } => Some((*session_name).to_owned()),
            TmuxCommand::GetPanes { session_name, window_index } => Some(
                format_window_target(session_name, *window_index),
            ),
        }
    }

    /// The first argument that this command needs and lacks.
    pub fn missing(&self) -> (argument: Option<Argument>)
        ensures
            argument == missing_argument(self@),
    {
        match self {
            TmuxCommand::NewSession { session_name } => {
                if session_name.is_empty() {
                    Some(Argument::NewSessionName)
                } else {
                    None
                }
            },
            TmuxCommand::RenameSession { old_session_name, new_session_name } => {
                if old_session_name.is_empty() {
                    Some(Argument::SessionName)
                } else if new_session_name.is_empty() {
                    Some(Argument::NewSessionName)
                } else {
                    None
                }
            },
            TmuxCommand::GetSessions => None,
            TmuxCommand::KillSession { session_name }
            | TmuxCommand::CapturePane { session_name, .. }
            | TmuxCommand::GetWindows { session_name }
            | TmuxCommand::GetPanes { session_name, .. } => {
                if session_name.is_empty() {
                    Some(Argument::SessionName)
                } else {
                    None
                }
            },
        }
    }

    /// The arguments with which tmux is to be run.
    pub fn arguments(&self) -> (arguments: Vec<String>)
        ensures
            views(arguments@) == arguments_of(self@),
    {
        let mut arguments: Vec<String> = Vec::new();
        arguments.push(self.operation().name().to_owned());
        match self {
            TmuxCommand::NewSession { session_name } => {
                arguments.push("-d".to_owned());
                arguments.push("-s".to_owned());
                arguments.push((*session_name).to_owned());
                arguments.push("-P".to_owned());
                arguments.push("-F".to_owned());
                arguments.push(SESSION_FORMAT.to_owned());
            },
            TmuxCommand::KillSession { session_name } => {
                arguments.push("-t".to_owned());
                arguments.push((*session_name).to_owned());
            },
            TmuxCommand::RenameSession { old_session_name, new_session_name } => {
                arguments.push("-t".to_owned());
                arguments.push((*old_session_name).to_owned());
                arguments.push((*new_session_name).to_owned());
            },
            TmuxCommand::CapturePane { session_name, window_index, pane_index } => {
                arguments.push("-e".to_owned());
                arguments.push("-p".to_owned());
                arguments.push("-J".to_owned());
                arguments.push("-t".to_owned());
                arguments.push(format_pane_target(session_name, *window_index, *pane_index));
            },
            TmuxCommand::GetSessions => {
                arguments.push("-F".to_owned());
                arguments.push(SESSION_FORMAT.to_owned());
            },
            TmuxCommand::GetWindows { session_name } => {
                arguments.push("-t".to_owned());
                arguments.push((*session_name).to_owned());
                arguments.push("-F".to_owned());
                arguments.push(WINDOW_FORMAT.to_owned());
            },
            TmuxCommand::GetPanes { session_name, window_index } => {
                arguments.push("-t".to_owned());
                arguments.push(format_window_target(session_name, *window_index));
                arguments.push("-F".to_owned());
                arguments.push(PANE_FORMAT.to_owned());
            },
        }
        arguments
    }

    /// Refuses a command that lacks an argument.
    pub fn validate(&self) -> (r: Result<(), TmuxError>)
        ensures
            match missing_argument(self@) {
                Some(argument) => r.is_err() && r->Err_0@ == (ErrorView::ValidationFailed {
                    operation: operation_of(self@),
                    argument,
                }),
                None => r.is_ok(),
            },
    {
        match self.missing() {
            Some(argument) => Err(
                TmuxError::ValidationFailed { operation: self.operation(), argument },
            ),
            None => Ok(()),
        }
    }
}

/// The arguments of a command begin with the name of its operation, and
/// name its target, if it has one: after `-s` where a session is made, and
/// after `-t` everywhere else.
pub proof fn lemma_arguments_name_the_target(command: CommandView)
    ensures
        arguments_of(command)[0] == operation_name(operation_of(command)),
        target_of(command) matches Some(target) ==> exists|i: int|
            0 < i < arguments_of(command).len() && #[trigger] arguments_of(command)[i] == target
                && arguments_of(command)[i - 1] == (if command is NewSession {
                "-s"@
            } else {
                "-t"@
            }),
{
    let arguments = arguments_of(command);
    match command {
        CommandView::NewSession { session_name } => {
            assert(arguments[3] == session_name && arguments[2] == "-s"@);
        },
        CommandView::CapturePane { session_name, window_index, pane_index } => {
            assert(arguments[5] == pane_target(session_name, window_index, pane_index)
                && arguments[4] == "-t"@);
        },
        CommandView::GetSessions => {},
        CommandView::GetPanes { session_name, window_index } => {
            assert(arguments[2] == window_target(session_name, window_index) && arguments[1]
                == "-t"@);
        },
        _ => {
            assert(arguments[2] == target_of(command)->0 && arguments[1] == "-t"@);
        },
    }
}

} // verus!
