use gateway_bot::funnel::{on_error, on_report_failure, ErrorAction, FrameworkError};
use gateway_bot::lifecycle::{finish_command, post_command, pre_command, Completion};

#[test]
fn a_setup_failure_is_fatal() {
    let error = FrameworkError::Setup { cause: "bad token".to_string() };
    assert_eq!(on_error(&error), ErrorAction::Abort("Failed to start bot: bad token".to_string()));
}

#[test]
fn a_command_failure_is_logged_with_the_commands_name() {
    let error = FrameworkError::Command {
        command_name: "copy-markdown".to_string(),
        cause: "Unknown Message".to_string(),
    };
    assert_eq!(
        on_error(&error),
        ErrorAction::Log("Error in command `copy-markdown`: Unknown Message".to_string())
    );
}

#[test]
fn any_other_failure_goes_to_the_default_reporter() {
    let error = FrameworkError::Other { cause: "missing permissions".to_string() };
    assert_eq!(on_error(&error), ErrorAction::Delegate);
}

#[test]
fn a_reporter_that_succeeds_leaves_nothing_to_log() {
    assert_eq!(on_report_failure(Ok(())), None);
}

#[test]
fn a_reporter_that_fails_is_logged() {
    assert_eq!(
        on_report_failure(Err("cannot send".to_string())),
        Some("Error while handling error: cannot send".to_string())
    );
}

#[test]
fn the_hooks_name_the_command() {
    assert_eq!(pre_command("help"), "Executing command help...");
    assert_eq!(post_command("help"), "Executed command help!");
    assert_eq!(pre_command(""), "Executing command ...");
}

#[test]
fn success_runs_the_post_hook() {
    assert_eq!(
        finish_command("register", Ok(())),
        Completion::Completed("Executed command register!".to_string())
    );
}

#[test]
fn failure_skips_the_post_hook_and_gives_a_command_error() {
    assert_eq!(
        finish_command("copy-markdown", Err("Unknown Message".to_string())),
        Completion::Failed(FrameworkError::Command {
            command_name: "copy-markdown".to_string(),
            cause: "Unknown Message".to_string(),
        })
    );
}

#[test]
fn a_failed_command_ends_in_one_log_line() {
    let end = finish_command("help", Err("boom".to_string()));
    match end {
        Completion::Failed(error) => {
            assert_eq!(on_error(&error), ErrorAction::Log("Error in command `help`: boom".to_string()))
        }
        Completion::Completed(_) => panic!("a failure must not complete"),
    }
}
