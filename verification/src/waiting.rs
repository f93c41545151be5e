//! Waiting for launched programs and running commands.
use vstd::prelude::*;
use crate::adapter::{plain_error, AdapterError};
use crate::run::{FailureKind, RunErrorKind};
use crate::time::{millis_long, Duration};

verus! {

/// What to do while a launched program has not shown its window yet.
#[derive(Debug, PartialEq)]
pub enum LaunchStep {
    /// The time is up.
    GiveUp,
    Cancelled,
    /// Look for the window.
    Look,
}

/// Decides what to do before the window of a launched program is looked for.
pub fn judge_launch(elapsed: Duration, timeout: Option<Duration>, cancelled: bool) -> (r: LaunchStep)
    ensures
        ({
            let limit = match timeout {
                Some(limit) => limit,
                None => millis_long(5_000),
            };
            if elapsed.nanos >= limit.nanos {
                r is GiveUp
            } else if cancelled {
                r is Cancelled
            } else {
                r is Look
            }
        }),
{
    let limit = match timeout {
        Some(limit) => limit,
        None => Duration::from_millis(5_000),
    };
    if elapsed.nanos >= limit.nanos {
        LaunchStep::GiveUp
    } else if cancelled {
        LaunchStep::Cancelled
    } else {
        LaunchStep::Look
    }
}

/// Whether the search for the window of a launched program goes on after an error: only where
/// there was no such window, or more than one.
pub fn launch_goes_on(error: &AdapterError) -> (r: bool)
    ensures
        r == (error@.failure_kind == Some(FailureKind::NotFound) || error@.failure_kind == Some(
            FailureKind::Ambiguous,
        )),
{
    match error.failure_kind() {
        Some(FailureKind::NotFound) => true,
        Some(FailureKind::Ambiguous) => true,
        _ => false,
    }
}

/// The error of a launch that gave up: the last one met, or that the time is up.
pub fn launch_error(last: Option<AdapterError>) -> (r: AdapterError)
    ensures
        match last {
            Some(e) => r == e,
            None => r@ == plain_error(RunErrorKind::Timeout, "step timed out"@),
        },
{
    match last {
        Some(e) => e,
        None => AdapterError::timeout(),
    }
}

/// What to do while a command is running.
#[derive(Debug, Clone, Copy, PartialEq, Eq, Structural)]
pub enum CommandStep {
    /// Stop it, because the run was cancelled.
    StopCancelled,
    /// Stop it, because the time is up.
    StopTimedOut,
    /// See whether it has ended.
    Look,
}

/// Decides what to do before a running command is looked at.
pub fn judge_command(elapsed: Duration, timeout: Option<Duration>, cancelled: bool) -> (r: CommandStep)
    ensures
        r == (if cancelled {
            CommandStep::StopCancelled
        } else if timeout matches Some(limit) && elapsed.nanos >= limit.nanos {
            CommandStep::StopTimedOut
        } else {
            CommandStep::Look
        }),
{
    if cancelled {
        return CommandStep::StopCancelled;
    }
    if let Some(limit) = timeout {
        if elapsed.nanos >= limit.nanos {
            return CommandStep::StopTimedOut;
        }
    }
    CommandStep::Look
}

/// Whether the time of a command that is still running is up.
pub fn command_overdue(elapsed: Duration, timeout: Option<Duration>) -> (r: bool)
    ensures
        r == (timeout matches Some(limit) && elapsed.nanos >= limit.nanos),
{
    match timeout {
        Some(limit) => elapsed.nanos >= limit.nanos,
        None => false,
    }
}

} // verus!
