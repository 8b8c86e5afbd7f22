//! The hooks around a command's run: one line before it, one line after it
//! where it succeeded, and the failure to report where it did not.

use crate::funnel::FrameworkError;
use vstd::prelude::*;

verus! {

pub const PRE_HEAD: &'static str = "Executing command ";

pub const PRE_TAIL: &'static str = "...";

pub const POST_HEAD: &'static str = "Executed command ";

pub const POST_TAIL: &'static str = "!";

/// The line logged before the command `name` runs.
pub open spec fn pre_line(name: Seq<char>) -> Seq<char> {
    PRE_HEAD@ + name + PRE_TAIL@
}

/// The line logged after the command `name` has run with success.
pub open spec fn post_line(name: Seq<char>) -> Seq<char> {
    POST_HEAD@ + name + POST_TAIL@
}

/// How a command's run ended.
#[derive(Debug, PartialEq, Eq)]
pub enum Completion {
    /// With success: log this line.
    Completed(String),
    /// With a failure: hand it to the error funnel. Nothing is logged here.
    Failed(FrameworkError),
}

/// The hook before a command's body: the line to log.
pub fn pre_command(qualified_name: &str) -> (line: String)
    ensures
        line@ == pre_line(qualified_name@),
{
    let mut line = PRE_HEAD.to_owned();
    line.append(qualified_name);
    line.append(PRE_TAIL);
    line
}

/// The hook after a command's body that succeeded: the line to log.
pub fn post_command(qualified_name: &str) -> (line: String)
    ensures
        line@ == post_line(qualified_name@),
{
    let mut line = POST_HEAD.to_owned();
    line.append(qualified_name);
    line.append(POST_TAIL);
    line
}

/// What follows the body of the command `qualified_name`: after success the
/// post-hook's line, after a failure the command error with the body's
/// cause, and no post-hook.
pub fn finish_command(qualified_name: &str, outcome: Result<(), String>) -> (end: Completion)
    ensures
        match outcome {
            Ok(_) => end matches Completion::Completed(line) && line@ == post_line(
                qualified_name@,
            ),
            Err(cause) => end matches Completion::Failed(
                FrameworkError::Command { command_name, cause: reported },
            ) && command_name@ == qualified_name@ && reported@ == cause@,
        },
{
    match outcome {
        Ok(_) => Completion::Completed(post_command(qualified_name)),
        Err(cause) => Completion::Failed(
            FrameworkError::Command { command_name: qualified_name.to_owned(), cause },
        ),
    }
}

} // verus!
