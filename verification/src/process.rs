//! What running a process comes to, as plain values.

use vstd::prelude::*;

verus! {

/// What a process left behind when it ended.
#[derive(Debug, Clone, PartialEq, Eq)]
pub struct ProcessOutput {
    /// The exit code, where the process ended by exiting.
    pub code: Option<i32>,
    /// What it wrote to its standard output.
    pub stdout: Vec<u8>,
    /// What it wrote to its standard error.
    pub stderr: Vec<u8>,
}

/// What a [`ProcessOutput`] is.
pub struct OutputView {
    pub code: Option<i32>,
    pub stdout: Seq<u8>,
    pub stderr: Seq<u8>,
}

impl OutputView {
    /// A process succeeded when it exited with the code zero.
    pub open spec fn succeeded(self) -> bool {
        self.code == Some(0i32)
    }
}

impl View for ProcessOutput {
    type V = OutputView;

    open spec fn view(&self) -> OutputView {
        OutputView { code: self.code, stdout: self.stdout@, stderr: self.stderr@ }
    }
}

impl ProcessOutput {
    /// Whether the process exited with the code zero.
    pub fn succeeded(&self) -> (yes: bool)
        ensures
            yes == self@.succeeded(),
    {
        match self.code {
            Some(code) => code == 0,
            None => false,
        }
    }
}

/// Why a process could not be started, or its output not be read.
#[derive(Debug, Clone, PartialEq, Eq)]
pub struct LaunchError {
    /// The error code of the platform, where it gave one.
    pub code: Option<i32>,
    /// The platform's description of the error.
    pub message: String,
}

/// What a [`LaunchError`] is.
pub struct LaunchView {
    pub code: Option<i32>,
    pub message: Seq<char>,
}

impl View for LaunchError {
    type V = LaunchView;

    open spec fn view(&self) -> LaunchView {
        LaunchView { code: self.code, message: self.message@ }
    }
}

/// What running a process comes to.
pub type ProcessOutcome = Result<ProcessOutput, LaunchError>;

/// What a [`ProcessOutcome`] is.
pub type OutcomeView = Result<OutputView, LaunchView>;

/// The view of an outcome.
pub open spec fn outcome_view(outcome: ProcessOutcome) -> OutcomeView {
    match outcome {
        Ok(output) => Ok(output@),
        Err(cause) => Err(cause@),
    }
}

} // verus!
