//! A typed surface over a running tmux server.
//!
//! The server reports its sessions, windows and panes as lines of text. This
//! crate builds the argument vector of each supported tmux operation, and turns
//! what the process printed into records, or into an error that says what went
//! wrong. It never starts a process itself: the caller hands in a function that
//! runs `tmux` with the arguments it is given.
//!
//! [`Tmux`] has one method for each operation. A caller who would rather run
//! the process on its own asks a [`TmuxCommand`] for its `arguments`, and hands
//! what the process came to, a [`ProcessOutcome`], to `conclude`.

pub mod answer;
pub mod command;
pub mod decode;
pub mod error;
pub mod json;
pub mod listing;
pub mod process;
pub mod record;
pub mod request;
pub mod text;
pub mod tmux;
pub mod types;

pub use decode::{DecodeError, Field};
pub use error::{Argument, Operation, TmuxError};
pub use json::{JsonObject, JsonScalar};
pub use listing::BadLine;
pub use process::{LaunchError, ProcessOutcome, ProcessOutput};
pub use record::Record;
pub use tmux::Tmux;
pub use types::{
    TmuxCapturePane, TmuxCommand, TmuxPane, TmuxResponse, TmuxSession, TmuxWindow,
};
