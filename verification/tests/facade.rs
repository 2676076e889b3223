use std::cell::RefCell;
use tmux_adapter::request::{PANE_FORMAT, SESSION_FORMAT, WINDOW_FORMAT};
use tmux_adapter::{
    Argument, DecodeError, Field, LaunchError, Operation, ProcessOutcome, ProcessOutput, Tmux,
    TmuxCapturePane, TmuxError, TmuxPane, TmuxResponse, TmuxSession, TmuxWindow,
};

fn exited(code: i32, stdout: &str, stderr: &str) -> ProcessOutcome {
    Ok(ProcessOutput {
        code: Some(code),
        stdout: stdout.as_bytes().to_vec(),
        stderr: stderr.as_bytes().to_vec(),
    })
}

fn session_line(id: u64, name: &str) -> String {
    SESSION_FORMAT
        .replace("#{session_id}", &format!("${}", id))
        .replace("#{session_index}", "")
        .replace("#{session_name}", name)
        .replace("#{session_attached}", "0")
        .replace("#{session_activity}", "1700000000")
}

fn session(id: u64, name: &str) -> TmuxSession {
    TmuxSession {
        id: format!("${}", id),
        index: None,
        name: name.to_string(),
        attached: false,
        activity: 1_700_000_000,
        windows: Vec::new(),
    }
}

/// A server that knows sessions by name, and answers the four session
/// operations as tmux does.
struct FakeServer {
    sessions: RefCell<Vec<(u64, String)>>,
    next_id: RefCell<u64>,
}

impl FakeServer {
    fn new() -> FakeServer {
        FakeServer { sessions: RefCell::new(Vec::new()), next_id: RefCell::new(0) }
    }

    fn has(&self, name: &str) -> bool {
        self.sessions.borrow().iter().any(|(_, n)| n == name)
    }

    fn run(&self, arguments: Vec<String>) -> ProcessOutcome {
        let words: Vec<&str> = arguments.iter().map(|word| word.as_str()).collect();
        match words.as_slice() {
            ["list-sessions", "-F", format] if *format == SESSION_FORMAT => {
                let mut out = String::new();
                for (id, name) in self.sessions.borrow().iter() {
                    out.push_str(&session_line(*id, name));
                    out.push('\n');
                }
                exited(0, &out, "")
            }
            ["new-session", "-d", "-s", name, "-P", "-F", format] if *format == SESSION_FORMAT => {
                if self.has(name) {
                    return exited(1, "", &format!("duplicate session: {}\n", name));
                }
                let id = *self.next_id.borrow();
                *self.next_id.borrow_mut() = id + 1;
                self.sessions.borrow_mut().push((id, name.to_string()));
                exited(0, &format!("{}\n", session_line(id, name)), "")
            }
            ["kill-session", "-t", name] => {
                if !self.has(name) {
                    return exited(1, "", &format!("can't find session: {}\n", name));
                }
                self.sessions.borrow_mut().retain(|(_, n)| n != name);
                exited(0, "", "")
            }
            ["rename-session", "-t", old, new] => {
                if !self.has(old) {
                    return exited(1, "", &format!("can't find session: {}\n", old));
                }
                if self.has(new) {
                    return exited(1, "", &format!("duplicate session: {}\n", new));
                }
                for entry in self.sessions.borrow_mut().iter_mut() {
                    if entry.1 == *old {
                        entry.1 = new.to_string();
                    }
                }
                exited(0, "", "")
            }
            ["list-windows", "-t", name, "-F", _] => {
                exited(1, "", &format!("can't find session: {}\n", name))
            }
            _ => exited(1, "", "unknown command\n"),
        }
    }

    fn names(&self) -> Vec<String> {
        match Tmux::get_sessions(|arguments| self.run(arguments)) {
            Ok(TmuxResponse::Sessions(sessions)) => {
                sessions.into_iter().map(|session| session.name).collect()
            }
            other => panic!("unexpected answer: {:?}", other),
        }
    }
}

#[test]
fn test_get_sessions() {
    let output = format!("{}\n{}\n", session_line(0, "main"), session_line(3, "side"));
    let mut seen: Vec<String> = Vec::new();
    let answer = Tmux::get_sessions(|arguments| {
        seen = arguments;
        exited(0, &output, "")
    });
    assert_eq!(answer, Ok(TmuxResponse::Sessions(vec![session(0, "main"), session(3, "side")])));
    assert_eq!(seen, vec!["list-sessions".to_string(), "-F".to_string(), SESSION_FORMAT.to_string()]);
}

#[test]
fn get_sessions_with_no_server_running_is_a_command_failure() {
    let answer = Tmux::get_sessions(|_arguments| {
        exited(1, "", "no server running on /tmp/tmux-0/default\n")
    });
    assert_eq!(
        answer,
        Err(TmuxError::CommandFailed {
            operation: Operation::ListSessions,
            target: None,
            output: ProcessOutput {
                code: Some(1),
                stdout: Vec::new(),
                stderr: b"no server running on /tmp/tmux-0/default\n".to_vec(),
            },
        })
    );
}

#[test]
fn get_sessions_without_tmux_is_a_launch_failure() {
    let cause = LaunchError { code: Some(2), message: "No such file or directory".to_string() };
    let answer = Tmux::get_sessions(|_arguments| Err(cause.clone()));
    assert_eq!(
        answer,
        Err(TmuxError::LaunchFailed { operation: Operation::ListSessions, target: None, cause })
    );
}

#[test]
fn get_windows_lists_the_windows_of_a_session() {
    let line = WINDOW_FORMAT
        .replace("#{window_id}", "@7")
        .replace("#{window_index}", "1")
        .replace("#{window_name}", "editor")
        .replace("#{window_activity}", "1700000123")
        .replace("#{window_width}", "200")
        .replace("#{window_height}", "60")
        .replace("#{window_cell_width}", "8")
        .replace("#{window_cell_height}", "16")
        .replace("#{window_zoomed_flag}", "1")
        .replace("#{window_marked_flag}", "0");
    let mut seen: Vec<String> = Vec::new();
    let answer = Tmux::get_windows("work", |arguments| {
        seen = arguments;
        exited(0, &format!("{}\n", line), "")
    });
    assert_eq!(
        answer,
        Ok(TmuxResponse::Windows(vec![TmuxWindow {
            id: "@7".to_string(),
            index: 1,
            name: "editor".to_string(),
            activity: 1_700_000_123,
            width: 200,
            height: 60,
            cell_width: 8,
            cell_height: 16,
            is_zoomed: true,
            is_marked: false,
            panes: Vec::new(),
        }]))
    );
    assert_eq!(seen, vec!["list-windows", "-t", "work", "-F", WINDOW_FORMAT]);
}

#[test]
fn get_windows_of_a_session_that_is_not_there_is_a_command_failure() {
    let server = FakeServer::new();
    let answer = Tmux::get_windows("nowhere", |arguments| server.run(arguments));
    assert_eq!(
        answer,
        Err(TmuxError::CommandFailed {
            operation: Operation::ListWindows,
            target: Some("nowhere".to_string()),
            output: ProcessOutput {
                code: Some(1),
                stdout: Vec::new(),
                stderr: b"can't find session: nowhere\n".to_vec(),
            },
        })
    );
}

#[test]
fn get_panes_lists_the_panes_of_a_window() {
    let line = |index: u64, active: u64| {
        PANE_FORMAT
            .replace("#{pane_id}", &format!("%{}", index))
            .replace("#{pane_index}", &index.to_string())
            .replace("#{pane_width}", "100")
            .replace("#{pane_height}", "30")
            .replace("#{pane_active}", &active.to_string())
            .replace("#{pane_current_command}", "htop")
    };
    let pane = |index: u64, active: bool| TmuxPane {
        id: format!("%{}", index),
        index,
        width: 100,
        height: 30,
        active,
        current_command: "htop".to_string(),
    };
    let mut seen: Vec<String> = Vec::new();
    let answer = Tmux::get_panes("work", 3, |arguments| {
        seen = arguments;
        exited(0, &format!("{}\n{}\n", line(0, 0), line(1, 1)), "")
    });
    assert_eq!(answer, Ok(TmuxResponse::Panes(vec![pane(0, false), pane(1, true)])));
    assert_eq!(seen, vec!["list-panes", "-t", "work:3", "-F", PANE_FORMAT]);
}

#[test]
fn get_panes_fails_as_a_whole_on_a_line_that_is_cut_short() {
    let whole = PANE_FORMAT
        .replace("#{pane_id}", "%0")
        .replace("#{pane_index}", "0")
        .replace("#{pane_width}", "100")
        .replace("#{pane_height}", "30")
        .replace("#{pane_active}", "1")
        .replace("#{pane_current_command}", "htop");
    let cut = &whole[..whole.len() / 2];
    let answer = Tmux::get_panes("work", 3, |_arguments| {
        exited(0, &format!("{}\n{}\n", whole, cut), "")
    });
    assert_eq!(
        answer,
        Err(TmuxError::DecodeFailed {
            operation: Operation::ListPanes,
            target: Some("work:3".to_string()),
            line: cut.as_bytes().to_vec(),
            reason: DecodeError::Malformed,
        })
    );
    let lacking = whole.replace("\"pane_height\": \"30\", ", "");
    let answer = Tmux::get_panes("work", 3, |_arguments| {
        exited(0, &format!("{}\n{}\n", whole, lacking), "")
    });
    assert_eq!(
        answer,
        Err(TmuxError::DecodeFailed {
            operation: Operation::ListPanes,
            target: Some("work:3".to_string()),
            line: lacking.as_bytes().to_vec(),
            reason: DecodeError::MissingField(Field::PaneHeight),
        })
    );
}

#[test]
fn capture_pane_returns_the_screen() {
    let mut seen: Vec<String> = Vec::new();
    let answer = Tmux::capture_pane("work", 1, 0, |arguments| {
        seen = arguments;
        Ok(ProcessOutput {
            code: Some(0),
            stdout: b"\x1b[32m~\x1b[0m $ echo \xe2\x9c\x93 \xe2\x9c\n".to_vec(),
            stderr: Vec::new(),
        })
    });
    assert_eq!(
        answer,
        Ok(TmuxResponse::PaneCapture(TmuxCapturePane {
            session_name: "work".to_string(),
            window_index: 1,
            pane_index: 0,
            buffer: "\u{1b}[32m~\u{1b}[0m $ echo \u{2713} \u{fffd}\n".to_string(),
        }))
    );
    assert_eq!(seen, vec!["capture-pane", "-e", "-p", "-J", "-t", "work:1.0"]);
}

#[test]
fn capture_pane_of_a_pane_that_is_not_there_is_a_command_failure() {
    let answer = Tmux::capture_pane("work", 9, 9, |_arguments| exited(1, "", "can't find pane: 9\n"));
    assert!(matches!(
        answer,
        Err(TmuxError::CommandFailed { operation: Operation::CapturePane, target: Some(t), .. })
            if t == "work:9.9"
    ));
}

#[test]
fn a_session_that_was_created_is_listed_until_it_is_killed() {
    let server = FakeServer::new();
    assert_eq!(server.names(), Vec::<String>::new());
    let created = Tmux::new_session("spec-test", |arguments| server.run(arguments));
    assert_eq!(created, Ok(TmuxResponse::NewSession(session(0, "spec-test"))));
    let names = server.names();
    assert_eq!(names.iter().filter(|name| *name == "spec-test").count(), 1);
    assert_eq!(Tmux::kill_session("spec-test", |arguments| server.run(arguments)), Ok(()));
    assert!(!server.names().contains(&"spec-test".to_string()));
}

#[test]
fn a_session_name_that_is_taken_is_a_command_failure() {
    let server = FakeServer::new();
    assert!(Tmux::new_session("twice", |arguments| server.run(arguments)).is_ok());
    let again = Tmux::new_session("twice", |arguments| server.run(arguments));
    assert_eq!(
        again,
        Err(TmuxError::CommandFailed {
            operation: Operation::NewSession,
            target: Some("twice".to_string()),
            output: ProcessOutput {
                code: Some(1),
                stdout: Vec::new(),
                stderr: b"duplicate session: twice\n".to_vec(),
            },
        })
    );
    assert_eq!(server.names(), vec!["twice".to_string()]);
}

#[test]
fn a_renamed_session_is_listed_under_its_new_name() {
    let server = FakeServer::new();
    assert!(Tmux::new_session("a", |arguments| server.run(arguments)).is_ok());
    assert_eq!(Tmux::rename_session("a", "b", |arguments| server.run(arguments)), Ok(()));
    let names = server.names();
    assert!(names.contains(&"b".to_string()));
    assert!(!names.contains(&"a".to_string()));
}

#[test]
fn renaming_to_a_name_that_is_taken_is_a_command_failure() {
    let server = FakeServer::new();
    assert!(Tmux::new_session("a", |arguments| server.run(arguments)).is_ok());
    assert!(Tmux::new_session("b", |arguments| server.run(arguments)).is_ok());
    let answer = Tmux::rename_session("a", "b", |arguments| server.run(arguments));
    assert_eq!(
        answer,
        Err(TmuxError::CommandFailed {
            operation: Operation::RenameSession,
            target: Some("a".to_string()),
            output: ProcessOutput {
                code: Some(1),
                stdout: Vec::new(),
                stderr: b"duplicate session: b\n".to_vec(),
            },
        })
    );
    assert_eq!(server.names(), vec!["a".to_string(), "b".to_string()]);
}

#[test]
fn killing_a_session_that_is_not_there_is_a_command_failure() {
    let server = FakeServer::new();
    let answer = Tmux::kill_session("ghost", |arguments| server.run(arguments));
    assert!(matches!(
        answer,
        Err(TmuxError::CommandFailed { operation: Operation::KillSession, target: Some(t), .. })
            if t == "ghost"
    ));
}

#[test]
fn a_call_that_lacks_a_name_is_refused_before_anything_runs() {
    fn never(_arguments: Vec<String>) -> ProcessOutcome {
        panic!("the runner was called")
    }
    let refused = |operation: Operation, argument: Argument| {
        TmuxError::ValidationFailed { operation, argument }
    };
    assert_eq!(
        Tmux::get_windows("", never),
        Err(refused(Operation::ListWindows, Argument::SessionName))
    );
    assert_eq!(
        Tmux::get_panes("", 0, never),
        Err(refused(Operation::ListPanes, Argument::SessionName))
    );
    assert_eq!(
        Tmux::capture_pane("", 0, 0, never),
        Err(refused(Operation::CapturePane, Argument::SessionName))
    );
    assert_eq!(
        Tmux::new_session("", never),
        Err(refused(Operation::NewSession, Argument::NewSessionName))
    );
    assert_eq!(
        Tmux::kill_session("", never),
        Err(refused(Operation::KillSession, Argument::SessionName))
    );
    assert_eq!(
        Tmux::rename_session("", "b", never),
        Err(refused(Operation::RenameSession, Argument::SessionName))
    );
    assert_eq!(
        Tmux::rename_session("a", "", never),
        Err(refused(Operation::RenameSession, Argument::NewSessionName))
    );
}
