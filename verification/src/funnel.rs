//! The error funnel: every failure of setup, of a command or of the
//! framework itself is sorted into one of three reporting paths. Nothing is
//! retried.

use vstd::prelude::*;

verus! {

/// A failure, with its cause already rendered as text.
#[derive(Debug, PartialEq, Eq)]
pub enum FrameworkError {
    /// Setup failed; nothing can run.
    Setup { cause: String },
    /// The body of the command `command_name` failed.
    Command { command_name: String, cause: String },
    /// Any other failure inside the framework.
    Other { cause: String },
}

/// What is to be done about a failure.
#[derive(Debug, PartialEq, Eq)]
pub enum ErrorAction {
    /// Stop the process with this message.
    Abort(String),
    /// Write this line to the log and go on.
    Log(String),
    /// Hand the failure to the default textual reporter; should that fail
    /// too, log what [`on_report_failure`] writes.
    Delegate,
}

/// The mathematical content of an [`ErrorAction`].
pub enum ErrorActionView {
    Abort(Seq<char>),
    Log(Seq<char>),
    Delegate,
}

impl View for ErrorAction {
    type V = ErrorActionView;

    open spec fn view(&self) -> ErrorActionView {
        match self {
            ErrorAction::Abort(message) => ErrorActionView::Abort(message@),
            ErrorAction::Log(line) => ErrorActionView::Log(line@),
            ErrorAction::Delegate => ErrorActionView::Delegate,
        }
    }
}

pub const ABORT_HEAD: &'static str = "Failed to start bot: ";

pub const COMMAND_HEAD: &'static str = "Error in command `";

pub const COMMAND_JOINT: &'static str = "`: ";

pub const SECONDARY_HEAD: &'static str = "Error while handling error: ";

/// The path that a failure takes: a setup failure is fatal, a command's
/// failure is logged with the command's name, anything else goes to the
/// default reporter.
pub open spec fn error_action(error: FrameworkError) -> ErrorActionView {
    match error {
        FrameworkError::Setup { cause } => ErrorActionView::Abort(ABORT_HEAD@ + cause@),
        FrameworkError::Command { command_name, cause } => ErrorActionView::Log(
            COMMAND_HEAD@ + command_name@ + COMMAND_JOINT@ + cause@,
        ),
        FrameworkError::Other { .. } => ErrorActionView::Delegate,
    }
}

/// The line that records that reporting a failure failed itself.
pub open spec fn secondary_line(cause: Seq<char>) -> Seq<char> {
    SECONDARY_HEAD@ + cause
}

/// Sorts a failure into its reporting path.
pub fn on_error(error: &FrameworkError) -> (action: ErrorAction)
    ensures
        action@ == error_action(*error),
{
    match error {
        FrameworkError::Setup { cause } => {
            let mut message = ABORT_HEAD.to_owned();
            message.append(cause.as_str());
            ErrorAction::Abort(message)
        },
        FrameworkError::Command { command_name, cause } => {
            let mut line = COMMAND_HEAD.to_owned();
            line.append(command_name.as_str());
            line.append(COMMAND_JOINT);
            line.append(cause.as_str());
            ErrorAction::Log(line)
        },
        FrameworkError::Other { .. } => ErrorAction::Delegate,
    }
}

/// What to log after the default reporter has run: nothing where it
/// succeeded, one line with its own failure where it did not. The failure
/// goes no further.
pub fn on_report_failure(reported: Result<(), String>) -> (line: Option<String>)
    ensures
        match reported {
            Ok(_) => line is None,
            Err(cause) => line matches Some(text) && text@ == secondary_line(cause@),
        },
{
    match reported {
        Ok(_) => None,
        Err(cause) => {
            let mut text = SECONDARY_HEAD.to_owned();
            text.append(cause.as_str());
            Some(text)
        },
    }
}

} // verus!
