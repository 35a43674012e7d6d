//! How a command can fail, and what the process reports when it does.

use vstd::prelude::*;
use vstd::string::*;

verus! {

/// The two subprocesses that a command relies on.
#[derive(Clone, Copy, Debug, PartialEq, Eq, Structural)]
pub enum Subprocess {
    /// The interactive picker over the commit history.
    Picker,
    /// The pipeline that renders the report for the terminal.
    Display,
}

/// Why a command ended without its report.
#[derive(Debug, PartialEq, Eq)]
pub enum CommandError {
    /// The identifier names no commit.
    NotFound { id: String },
    /// The explanation backend failed; `message` is what it said.
    ProviderFailure { message: String },
    /// A subprocess could not be started (`status` is `None`), was stopped, or
    /// ended with a status other than zero.
    SubprocessFailure { process: Subprocess, status: Option<i32> },
}

/// What a [`CommandError`] stands for in contracts.
pub enum CommandErrorView {
    NotFound { id: Seq<char> },
    ProviderFailure { message: Seq<char> },
    SubprocessFailure { process: Subprocess, status: Option<i32> },
}

impl View for CommandError {
    type V = CommandErrorView;

    open spec fn view(&self) -> CommandErrorView {
        match *self {
            CommandError::NotFound { id } => CommandErrorView::NotFound { id: id@ },
            CommandError::ProviderFailure { message } => CommandErrorView::ProviderFailure {
                message: message@,
            },
            CommandError::SubprocessFailure { process, status } => {
                CommandErrorView::SubprocessFailure { process, status }
            },
        }
    }
}

/// How a command ended: with its work done, or with the reason why not.
pub type Outcome = Result<(), CommandError>;

/// What an [`Outcome`] stands for in contracts.
pub type OutcomeView = Result<(), CommandErrorView>;

/// The view of an outcome.
pub open spec fn outcome_view(outcome: Outcome) -> OutcomeView {
    match outcome {
        Ok(_) => Ok(()),
        Err(error) => Err(error@),
    }
}

/// The line that tells the user of `error`. What a backend said is passed on
/// word for word.
pub open spec fn message_text(error: CommandErrorView) -> Seq<char> {
    match error {
        CommandErrorView::NotFound { id } => "commit not found: "@ + id,
        CommandErrorView::ProviderFailure { message } => message,
        CommandErrorView::SubprocessFailure { process: Subprocess::Picker, .. } => {
            "the commit picker failed"@
        },
        CommandErrorView::SubprocessFailure { process: Subprocess::Display, .. } => {
            "the display pipeline failed"@
        },
    }
}

/// The status with which the process ends: zero for success, one for every
/// failure.
pub open spec fn exit_status(outcome: OutcomeView) -> int {
    if outcome is Ok {
        0
    } else {
        1
    }
}

impl CommandError {
    /// The line to print on standard error for this failure.
    pub fn message(&self) -> (line: String)
        ensures
            line@ == message_text(self@),
    {
        match self {
            CommandError::NotFound { id } => {
                let mut line = "commit not found: ".to_owned();
                line.append(id.as_str());
                line
            },
            CommandError::ProviderFailure { message } => message.clone(),
            CommandError::SubprocessFailure { process: Subprocess::Picker, .. } => {
                "the commit picker failed".to_owned()
            },
            CommandError::SubprocessFailure { process: Subprocess::Display, .. } => {
                "the display pipeline failed".to_owned()
            },
        }
    }
}

/// The exit code of the process for `outcome`.
pub fn exit_code(outcome: &Outcome) -> (code: i32)
    ensures
        code == exit_status(outcome_view(*outcome)),
{
    match outcome {
        Ok(_) => 0,
        Err(_) => 1,
    }
}

} // verus!
