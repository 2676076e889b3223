//! The facade: one method for each operation, and nothing of its own.

use crate::command::{
    accepts, answers, capture_pane, get_panes, get_sessions, get_windows, kill_session,
    new_session, rename_session, with_payload, without_payload,
};
use crate::error::TmuxError;
use crate::process::ProcessOutcome;
use crate::types::{CommandView, TmuxResponse};
use vstd::prelude::*;

verus! {

/// The operations on a tmux server. Each method takes, after its own
/// arguments, the function that runs `tmux` with the arguments it is given and
/// reports what the process came to; it is called once, and not at all where
/// the call is refused for want of an argument.
pub struct Tmux {}

impl Tmux {
    /// Lists the sessions of the server.
    pub fn get_sessions<F: FnOnce(Vec<String>) -> ProcessOutcome>(run: F) -> (r: Result<
        TmuxResponse,
        TmuxError,
    >)
        requires
            accepts(run, CommandView::GetSessions),
        ensures
            answers(run, CommandView::GetSessions, with_payload(r)),
    {
        get_sessions(run)
    }

    /// Lists the windows of a session.
    pub fn get_windows<F: FnOnce(Vec<String>) -> ProcessOutcome>(session_name: &str, run: F) -> (r:
        Result<TmuxResponse, TmuxError>)
        requires
            accepts(run, CommandView::GetWindows { session_name: session_name@ }),
        ensures
            answers(run, CommandView::GetWindows { session_name: session_name@ }, with_payload(r)),
    {
        get_windows(session_name, run)
    }

    /// Lists the panes of a window.
    pub fn get_panes<F: FnOnce(Vec<String>) -> ProcessOutcome>(
        session_name: &str,
        window_index: u64,
        run: F,
    ) -> (r: Result<TmuxResponse, TmuxError>)
        requires
            accepts(run, CommandView::GetPanes { session_name: session_name@, window_index }),
        ensures
            answers(
                run,
                CommandView::GetPanes { session_name: session_name@, window_index },
                with_payload(r),
            ),
    {
        get_panes(session_name, window_index, run)
    }

    /// Gives a session another name.
    pub fn rename_session<F: FnOnce(Vec<String>) -> ProcessOutcome>(
        old_session_name: &str,
        new_session_name: &str,
        run: F,
    ) -> (r: Result<(), TmuxError>)
        requires
            accepts(
                run,
                CommandView::RenameSession {
                    old_session_name: old_session_name@,
                    new_session_name: new_session_name@,
                },
            ),
        ensures
            answers(
                run,
                CommandView::RenameSession {
                    old_session_name: old_session_name@,
                    new_session_name: new_session_name@,
                },
                without_payload(r),
            ),
    {
        rename_session(old_session_name, new_session_name, run)
    }

    /// Kills a session.
    pub fn kill_session<F: FnOnce(Vec<String>) -> ProcessOutcome>(session_name: &str, run: F) -> (r:
        Result<(), TmuxError>)
        requires
            accepts(run, CommandView::KillSession { session_name: session_name@ }),
        ensures
            answers(
                run,
                CommandView::KillSession { session_name: session_name@ },
                without_payload(r),
            ),
    {
        kill_session(session_name, run)
    }

    /// Makes a session, detached, and describes it.
    pub fn new_session<F: FnOnce(Vec<String>) -> ProcessOutcome>(session_name: &str, run: F) -> (r:
        Result<TmuxResponse, TmuxError>)
        requires
            accepts(run, CommandView::NewSession { session_name: session_name@ }),
        ensures
            answers(run, CommandView::NewSession { session_name: session_name@ }, with_payload(r)),
    {
        new_session(session_name, run)
    }

    /// Captures the screen of a pane.
    pub fn capture_pane<F: FnOnce(Vec<String>) -> ProcessOutcome>(
        session_name: &str,
        window_index: u64,
        pane_index: u64,
        run: F,
    ) -> (r: Result<TmuxResponse, TmuxError>)
        requires
            accepts(
                run,
                CommandView::CapturePane { session_name: session_name@, window_index, pane_index },
            ),
        ensures
            answers(
                run,
                CommandView::CapturePane { session_name: session_name@, window_index, pane_index },
                with_payload(r),
            ),
    {
        capture_pane(session_name, window_index, pane_index, run)
    }
}

} // verus!
