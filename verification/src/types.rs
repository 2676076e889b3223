//! The records that tmux reports, the commands it is asked, and the envelope
//! that carries an answer back.
//!
//! Every record is a plain value made afresh from one answer of the server.
//! Each type has a view: the same value with text as `Seq<char>` and lists as
//! `Seq`, which is what the contracts of this crate speak of.

use vstd::prelude::*;

verus! {

/// The views of a list of values, in order.
pub open spec fn views<T: View>(items: Seq<T>) -> Seq<T::V> {
    Seq::new(items.len(), |i: int| items[i]@)
}

/// One pane of a window.
#[derive(Debug, Clone, PartialEq, Eq)]
pub struct TmuxPane {
    pub id: String,
    /// The pane's index, unique within its window.
    pub index: u64,
    /// Width in cells.
    pub width: u64,
    /// Height in cells.
    pub height: u64,
    /// Whether this is the window's active pane.
    pub active: bool,
    /// The name of the command that runs in the foreground.
    pub current_command: String,
}

/// What a [`TmuxPane`] is.
pub struct PaneView {
    pub id: Seq<char>,
    pub index: u64,
    pub width: u64,
    pub height: u64,
    pub active: bool,
    pub current_command: Seq<char>,
}

impl View for TmuxPane {
    type V = PaneView;

    open spec fn view(&self) -> PaneView {
        PaneView {
            id: self.id@,
            index: self.index,
            width: self.width,
            height: self.height,
            active: self.active,
            current_command: self.current_command@,
        }
    }
}


/// One window of a session.
#[derive(Debug, Clone, PartialEq, Eq)]
pub struct TmuxWindow {
    pub id: String,
    /// The window's index, unique within its session.
    pub index: u64,
    pub name: String,
    /// Time of the last activity, in seconds since the epoch.
    pub activity: u64,
    /// Width in pixels.
    pub width: u64,
    /// Height in pixels.
    pub height: u64,
    /// Width of one cell.
    pub cell_width: u64,
    /// Height of one cell.
    pub cell_height: u64,
    pub is_zoomed: bool,
    pub is_marked: bool,
    /// The window's panes. No listing fills this: it is empty in every
    /// window that this crate decodes.
    pub panes: Vec<TmuxPane>,
}

/// What a [`TmuxWindow`] is.
pub struct WindowView {
    pub id: Seq<char>,
    pub index: u64,
    pub name: Seq<char>,
    pub activity: u64,
    pub width: u64,
    pub height: u64,
    pub cell_width: u64,
    pub cell_height: u64,
    pub is_zoomed: bool,
    pub is_marked: bool,
    pub panes: Seq<PaneView>,
}

impl View for TmuxWindow {
    type V = WindowView;

    open spec fn view(&self) -> WindowView {
        WindowView {
            id: self.id@,
            index: self.index,
            name: self.name@,
            activity: self.activity,
            width: self.width,
            height: self.height,
            cell_width: self.cell_width,
            cell_height: self.cell_height,
            is_zoomed: self.is_zoomed,
            is_marked: self.is_marked,
            panes: views(self.panes@),
        }
    }
}

impl WindowView {
    /// The panes have distinct indices, and at most one of them is active.
    pub open spec fn well_formed(self) -> bool {
        &&& forall|i: int, j: int|
            0 <= i < j < self.panes.len() ==> self.panes[i].index != self.panes[j].index
        &&& forall|i: int, j: int|
            0 <= i < j < self.panes.len() ==> !(self.panes[i].active && self.panes[j].active)
    }
}

/// One session of the server.
#[derive(Debug, Clone, PartialEq, Eq)]
pub struct TmuxSession {
    pub id: String,
    /// The session's index, where the server reports one.
    pub index: Option<u64>,
    pub name: String,
    /// Whether a client is attached.
    pub attached: bool,
    /// Time of the last activity, in seconds since the epoch.
    pub activity: u64,
    /// The session's windows. No listing fills this: it is empty in every
    /// session that this crate decodes.
    pub windows: Vec<TmuxWindow>,
}

/// What a [`TmuxSession`] is.
pub struct SessionView {
    pub id: Seq<char>,
    pub index: Option<u64>,
    pub name: Seq<char>,
    pub attached: bool,
    pub activity: u64,
    pub windows: Seq<WindowView>,
}

impl View for TmuxSession {
    type V = SessionView;

    open spec fn view(&self) -> SessionView {
        SessionView {
            id: self.id@,
            index: self.index,
            name: self.name@,
            attached: self.attached,
            activity: self.activity,
            windows: views(self.windows@),
        }
    }
}

impl SessionView {
    /// The windows are well formed and have distinct indices.
    pub open spec fn well_formed(self) -> bool {
        &&& forall|i: int| 0 <= i < self.windows.len() ==> (#[trigger] self.windows[i]).well_formed()
        &&& forall|i: int, j: int|
            0 <= i < j < self.windows.len() ==> self.windows[i].index != self.windows[j].index
    }
}

/// The text on a pane's screen, with the pane it was taken from.
#[derive(Debug, Clone, PartialEq, Eq)]
pub struct TmuxCapturePane {
    pub session_name: String,
    pub window_index: u64,
    pub pane_index: u64,
    /// The screen's content, escape sequences included.
    pub buffer: String,
}

/// What a [`TmuxCapturePane`] is.
pub struct CaptureView {
    pub session_name: Seq<char>,
    pub window_index: u64,
    pub pane_index: u64,
    pub buffer: Seq<char>,
}

impl View for TmuxCapturePane {
    type V = CaptureView;

    open spec fn view(&self) -> CaptureView {
        CaptureView {
            session_name: self.session_name@,
            window_index: self.window_index,
            pane_index: self.pane_index,
            buffer: self.buffer@,
        }
    }
}

/// A request to the server, with what it needs to find its object.
#[derive(Debug, Clone, Copy, PartialEq, Eq)]
pub enum TmuxCommand<'a> {
    NewSession { session_name: &'a str },
    KillSession { session_name: &'a str },
    RenameSession { old_session_name: &'a str, new_session_name: &'a str },
    CapturePane { session_name: &'a str, window_index: u64, pane_index: u64 },
    GetSessions,
    GetWindows { session_name: &'a str },
    GetPanes { session_name: &'a str, window_index: u64 },
}

/// What a [`TmuxCommand`] is.
pub enum CommandView {
    NewSession { session_name: Seq<char> },
    KillSession { session_name: Seq<char> },
    RenameSession { old_session_name: Seq<char>, new_session_name: Seq<char> },
    CapturePane { session_name: Seq<char>, window_index: u64, pane_index: u64 },
    GetSessions,
    GetWindows { session_name: Seq<char> },
    GetPanes { session_name: Seq<char>, window_index: u64 },
}

impl<'a> View for TmuxCommand<'a> {
    type V = CommandView;

    open spec fn view(&self) -> CommandView {
        match self {
            TmuxCommand::NewSession { session_name } => CommandView::NewSession {
                session_name: session_name@,
            },
            TmuxCommand::KillSession { session_name } => CommandView::KillSession {
                session_name: session_name@,
            },
            TmuxCommand::RenameSession {
                old_session_name,
                new_session_name,
            } => CommandView::RenameSession {
                old_session_name: old_session_name@,
                new_session_name: new_session_name@,
            },
            TmuxCommand::CapturePane {
                session_name,
                window_index,
                pane_index,
            } => CommandView::CapturePane {
                session_name: session_name@,
                window_index: *window_index,
                pane_index: *pane_index,
            },
            TmuxCommand::GetSessions => CommandView::GetSessions,
            TmuxCommand::GetWindows { session_name } => CommandView::GetWindows {
                session_name: session_name@,
            },
            TmuxCommand::GetPanes { session_name, window_index } => CommandView::GetPanes {
                session_name: session_name@,
                window_index: *window_index,
            },
        }
    }
}

/// The payload of an answer: one variant for each family of operations that
/// has one.
#[derive(Debug, Clone, PartialEq, Eq)]
pub enum TmuxResponse {
    /// The text captured from a pane.
    PaneCapture(TmuxCapturePane),
    /// The sessions of the server, in the order in which it listed them.
    Sessions(Vec<TmuxSession>),
    /// The windows of a session, in the order in which the server listed them.
    Windows(Vec<TmuxWindow>),
    /// The panes of a window, in the order in which the server listed them.
    Panes(Vec<TmuxPane>),
    /// The session that was just created.
    NewSession(TmuxSession),
}

/// What a [`TmuxResponse`] is.
pub enum ResponseView {
    PaneCapture(CaptureView),
    Sessions(Seq<SessionView>),
    Windows(Seq<WindowView>),
    Panes(Seq<PaneView>),
    NewSession(SessionView),
}

impl View for TmuxResponse {
    type V = ResponseView;

    open spec fn view(&self) -> ResponseView {
        match self {
            TmuxResponse::PaneCapture(capture) => ResponseView::PaneCapture(capture@),
            TmuxResponse::Sessions(sessions) => ResponseView::Sessions(views(sessions@)),
            TmuxResponse::Windows(windows) => ResponseView::Windows(views(windows@)),
            TmuxResponse::Panes(panes) => ResponseView::Panes(views(panes@)),
            TmuxResponse::NewSession(session) => ResponseView::NewSession(session@),
        }
    }
}

} // verus!
