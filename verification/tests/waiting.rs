use cueflow::adapter::{AdapterError, ConditionState};
use cueflow::control::{RunControl, Switches};
use cueflow::definition::{
    Action, BackoffPolicy, DurationSpec, OnErrorPolicy, Platform, RetryPolicy, Step,
};
use cueflow::attempts::{Poll, judge_poll, judge_sleep};
use cueflow::executor::{Verdict, judge_attempt, retry_delay};
use cueflow::looking::{judge_focus, judge_foreground};
use cueflow::run::{Artifact, FailureKind};
use cueflow::time::Duration;
use cueflow::waiting::{
    CommandStep, LaunchStep, command_overdue, judge_command, judge_launch, launch_error,
    launch_goes_on,
};

fn millis(n: u64) -> Duration {
    Duration::from_millis(n)
}

fn step(retry: RetryPolicy, timeout: Option<DurationSpec>) -> Step {
    Step {
        id: "step".to_string(),
        label: None,
        action: Action::LaunchUrl {
            url: "https://cueflow.dev".to_string(),
            target: None,
        },
        timeout,
        retry,
        on_error: OnErrorPolicy::Stop,
        conditions: Vec::new(),
        platform_overrides: Vec::new(),
    }
}

fn retry(max_attempts: u32, delay: u64, backoff: BackoffPolicy) -> RetryPolicy {
    RetryPolicy {
        max_attempts,
        delay: Some(DurationSpec::from_millis(delay)),
        backoff,
    }
}

#[test]
fn delays_grow_with_the_backoff() {
    let constant = step(retry(5, 10, BackoffPolicy::Constant), None);
    let linear = step(retry(5, 10, BackoffPolicy::Linear), None);
    let exponential = step(retry(5, 10, BackoffPolicy::Exponential), None);
    assert_eq!(retry_delay(&constant, 4), millis(10));
    assert_eq!(retry_delay(&linear, 4), millis(40));
    assert_eq!(retry_delay(&exponential, 1), millis(10));
    assert_eq!(retry_delay(&exponential, 4), millis(80));
    assert_eq!(retry_delay(&exponential, 64), millis(u64::MAX));
    assert_eq!(retry_delay(&exponential, 1000), millis(u64::MAX));
    let none = step(RetryPolicy::default(), None);
    assert_eq!(retry_delay(&none, 3), Duration::zero());
}

#[test]
fn an_attempt_is_judged_by_cancellation_then_time_then_result() {
    let step = step(
        retry(2, 10, BackoffPolicy::Constant),
        Some(DurationSpec::from_millis(5)),
    );
    let judged = |result: Result<Vec<Artifact>, AdapterError>, elapsed, cancelled, attempt| {
        judge_attempt(&step, &step.action, result, elapsed, cancelled, attempt)
    };
    assert_eq!(judged(Ok(Vec::new()), millis(1), true, 1), Verdict::Cancelled);
    assert_eq!(
        judged(Ok(Vec::new()), millis(4), false, 1),
        Verdict::Succeeded(Vec::new())
    );
    assert!(matches!(
        judged(Ok(Vec::new()), millis(5), false, 1),
        Verdict::Retry { delay, error } if delay == millis(10) && error.message() == "step timed out"
    ));
    let broken = AdapterError::new("broken".to_string());
    assert!(matches!(
        judged(Err(broken), millis(1), false, 2),
        Verdict::Failed(error) if error.message() == "broken"
    ));
}

#[test]
fn a_pending_condition_is_looked_at_again_within_its_time() {
    assert_eq!(
        judge_poll(ConditionState::Satisfied, millis(900), millis(500)),
        Poll::Done
    );
    assert_eq!(
        judge_poll(ConditionState::Pending, millis(100), millis(500)),
        Poll::SleepFor(millis(100))
    );
    assert_eq!(
        judge_poll(ConditionState::Pending, millis(470), millis(500)),
        Poll::SleepFor(millis(30))
    );
    assert_eq!(
        judge_poll(ConditionState::Pending, millis(500), millis(500)),
        Poll::TimedOut
    );
}

#[test]
fn a_wait_that_was_cut_short_is_an_error() {
    let long = DurationSpec::from_millis(100);
    let short = Some(DurationSpec::from_millis(5));
    assert_eq!(judge_sleep(long, None, true), Ok(()));
    assert_eq!(
        judge_sleep(long, short, true)
            .expect_err("too long")
            .message(),
        "step timed out"
    );
    assert_eq!(
        judge_sleep(long, None, false)
            .expect_err("cancelled")
            .message(),
        "run cancelled"
    );
}

#[test]
fn a_launch_goes_on_until_the_window_is_there_or_the_time_is_up() {
    assert_eq!(judge_launch(millis(4_999), None, false), LaunchStep::Look);
    assert_eq!(judge_launch(millis(5_000), None, false), LaunchStep::GiveUp);
    assert_eq!(
        judge_launch(millis(1), Some(millis(10)), true),
        LaunchStep::Cancelled
    );
    let absent = AdapterError::new("absent".to_string()).with_failure_kind(FailureKind::NotFound);
    let denied =
        AdapterError::new("denied".to_string()).with_failure_kind(FailureKind::PolicyDenied);
    assert!(launch_goes_on(&absent));
    assert!(!launch_goes_on(&denied));
    assert_eq!(launch_error(None).message(), "step timed out");
    assert_eq!(launch_error(Some(absent)).message(), "absent");
}

#[test]
fn a_command_is_stopped_when_cancelled_or_overdue() {
    assert_eq!(
        judge_command(millis(1), Some(millis(10)), true),
        CommandStep::StopCancelled
    );
    assert_eq!(
        judge_command(millis(10), Some(millis(10)), false),
        CommandStep::StopTimedOut
    );
    assert_eq!(judge_command(millis(10), None, false), CommandStep::Look);
    assert!(command_overdue(millis(10), Some(millis(10))));
    assert!(!command_overdue(millis(10), None));
}

#[test]
fn a_window_has_a_moment_to_come_to_the_front() {
    assert!(matches!(
        judge_foreground(Platform::Windows, millis(749), true, "requested window"),
        Some(Ok(()))
    ));
    assert!(judge_foreground(Platform::Windows, millis(749), false, "requested window").is_none());
    let late = judge_foreground(Platform::MacOs, millis(750), true, "requested window");
    match late {
        Some(Err(error)) => {
            assert_eq!(error.message(), "macOS did not foreground the requested window");
            assert_eq!(error.failure_kind(), Some(FailureKind::FocusDenied));
        }
        other => panic!("expected an error, got {other:?}"),
    }
    assert!(judge_focus(Platform::Windows, true).is_ok());
    assert_eq!(
        judge_focus(Platform::Windows, false)
            .expect_err("no focus")
            .message(),
        "Windows did not give keyboard focus to the requested semantic target"
    );
}

#[test]
fn a_run_is_held_resumed_and_cancelled() {
    let control = RunControl::default();
    let other = control.clone();
    assert!(!control.is_cancelled());
    assert!(!control.is_paused());
    other.pause();
    assert!(control.is_paused());
    other.resume();
    assert!(!control.is_paused());
    assert!(control.wait_for_resume());
    other.pause();
    other.cancel();
    assert!(!control.wait_for_resume());
    assert!(control.is_cancelled());
    other.resume();
    assert!(control.is_cancelled());
}

#[test]
fn switches_remember_what_was_asked() {
    let off = Switches::off();
    assert!(!off.holds());
    assert!(off.pause().holds());
    assert!(!off.pause().resume().holds());
    assert!(!off.pause().cancel().holds());
    assert!(off.cancel().pause().resume().cancelled);
}
