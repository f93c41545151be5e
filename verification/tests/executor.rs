use std::collections::VecDeque;
use std::sync::atomic::{AtomicBool, AtomicU64, Ordering};

use cueflow::adapter::{AdapterError, ConditionState, ExecutionAdapter};
use cueflow::attempts::wait_for_condition;
use cueflow::collections::TextMap;
use cueflow::control::RunControl;
use cueflow::definition::{
    Action, Assertion, AutomationDefinition, BackoffPolicy, CURRENT_SCHEMA_VERSION, DurationSpec,
    OnErrorPolicy, Platform, PlatformActionOverride, RetryPolicy, Step, Target, WaitCondition,
};
use cueflow::executor::{
    AutomationExecutor, ExecutionClock, ExecutorError, NoopEventSink, RunEventSink, RunOutcome,
};
use cueflow::run::{
    Artifact, PreflightDiagnostic, PreflightSeverity, RunConfig, RunError, RunErrorKind, RunEvent,
};
use cueflow::time::Duration;

#[derive(Default)]
struct RecordingAdapter {
    calls: usize,
    actions: Vec<String>,
    failures_before_success: usize,
}

impl ExecutionAdapter for RecordingAdapter {
    fn execute(
        &mut self,
        action: &Action,
        _config: &RunConfig,
    ) -> Result<Vec<Artifact>, AdapterError> {
        self.calls += 1;
        self.actions.push(action.kind().to_string());
        if self.calls <= self.failures_before_success {
            Err(AdapterError::new("simulated adapter failure".to_string()))
        } else {
            Ok(Vec::new())
        }
    }
}

#[derive(Default)]
struct CollectingSink(Vec<RunEvent>);

impl RunEventSink for CollectingSink {
    fn emit(&mut self, event: &RunEvent) {
        self.0.push(event.clone());
    }
}

#[derive(Default)]
struct FakeClock {
    millis: AtomicU64,
}

impl FakeClock {
    fn advance(&self, duration: Duration) {
        self.millis
            .fetch_add(duration.as_millis() as u64, Ordering::Relaxed);
    }
}

impl ExecutionClock for FakeClock {
    fn now(&self) -> Duration {
        Duration::from_millis(self.millis.load(Ordering::Relaxed))
    }

    fn sleep(&self, duration: Duration) {
        self.advance(duration);
    }
}

struct TimedAdapter<'a> {
    clock: &'a FakeClock,
    elapsed: Duration,
}

struct CancellingAdapter {
    control: RunControl,
}

impl ExecutionAdapter for CancellingAdapter {
    fn execute(
        &mut self,
        _action: &Action,
        _config: &RunConfig,
    ) -> Result<Vec<Artifact>, AdapterError> {
        self.control.cancel();
        Ok(Vec::new())
    }
}

struct CancellingClock {
    clock: FakeClock,
    control: RunControl,
    cancelled: AtomicBool,
}

impl ExecutionClock for CancellingClock {
    fn now(&self) -> Duration {
        self.clock.now()
    }

    fn sleep(&self, duration: Duration) {
        self.clock.sleep(duration);
        if !self.cancelled.swap(true, Ordering::Relaxed) {
            self.control.cancel();
        }
    }
}

impl ExecutionAdapter for TimedAdapter<'_> {
    fn execute(
        &mut self,
        _action: &Action,
        _config: &RunConfig,
    ) -> Result<Vec<Artifact>, AdapterError> {
        self.clock.advance(self.elapsed);
        Ok(Vec::new())
    }
}

struct QueryAdapter {
    wait_states: VecDeque<ConditionState>,
    assertion_result: bool,
    execute_calls: usize,
    preflight_diagnostics: Vec<PreflightDiagnostic>,
}

impl ExecutionAdapter for QueryAdapter {
    fn execute(
        &mut self,
        _action: &Action,
        _config: &RunConfig,
    ) -> Result<Vec<Artifact>, AdapterError> {
        self.execute_calls += 1;
        Ok(Vec::new())
    }

    fn evaluate_wait(
        &mut self,
        _condition: &WaitCondition,
        _config: &RunConfig,
    ) -> Result<ConditionState, AdapterError> {
        Ok(self
            .wait_states
            .pop_front()
            .unwrap_or(ConditionState::Pending))
    }

    fn evaluate_assertion(
        &mut self,
        _assertion: &Assertion,
        _config: &RunConfig,
    ) -> Result<bool, AdapterError> {
        Ok(self.assertion_result)
    }

    fn preflight(&self, _action: &Action, _config: &RunConfig) -> Vec<PreflightDiagnostic> {
        self.preflight_diagnostics.clone()
    }
}

fn definition() -> AutomationDefinition {
    AutomationDefinition {
        id: "demo-ready".to_string(),
        title: "Prepare demo".to_string(),
        description: None,
        schema_version: CURRENT_SCHEMA_VERSION,
        version: None,
        variables: TextMap::new(),
        metadata: TextMap::new(),
        steps: vec![Step {
            id: "focus-browser".to_string(),
            label: None,
            action: Action::FocusWindow {
                target: Target::app("Browser".to_string()),
            },
            timeout: None,
            retry: RetryPolicy::default(),
            on_error: OnErrorPolicy::Stop,
            conditions: Vec::new(),
            platform_overrides: Vec::new(),
        }],
    }
}

#[test]
fn dry_run_emits_deterministic_success_events_without_adapter_calls() {
    let executor = AutomationExecutor::new();
    let mut adapter = RecordingAdapter::default();
    let config = RunConfig {
        run_id: Some("run-test".to_string()),
        dry_run: true,
        ..RunConfig::default()
    };

    let report = executor
        .run(&definition(), config, &mut adapter, &FakeClock::default())
        .expect("dry run");

    assert_eq!(adapter.calls, 0);
    assert_eq!(report.outcome, RunOutcome::Succeeded);
    assert_eq!(report.events.len(), 4);
}

#[test]
fn cancellation_before_a_step_is_terminal() {
    let executor = AutomationExecutor::new();
    let mut adapter = RecordingAdapter::default();
    let control = RunControl::default();
    control.cancel();
    let mut sink = CollectingSink::default();
    let report = executor
        .run_with(
            &definition(),
            RunConfig::default(),
            &mut adapter,
            &control,
            &mut sink,
            &FakeClock::default(),
        )
        .expect("run is cancelled");

    assert_eq!(report.outcome, RunOutcome::Cancelled);
    assert_eq!(adapter.calls, 0);
    assert!(matches!(
        report.events.last(),
        Some(RunEvent::Cancelled { .. })
    ));
    assert_eq!(sink.0, report.events);
}

#[test]
fn retries_obey_backoff_and_emit_a_single_terminal_success() {
    let executor = AutomationExecutor::new();
    let mut definition = definition();
    definition.steps[0].retry = RetryPolicy {
        max_attempts: 3,
        delay: Some(DurationSpec::from_millis(10)),
        backoff: BackoffPolicy::Exponential,
    };
    let mut adapter = RecordingAdapter {
        failures_before_success: 2,
        ..RecordingAdapter::default()
    };
    let clock = FakeClock::default();
    let control = RunControl::default();
    let mut sink = NoopEventSink;

    let report = executor
        .run_with(
            &definition,
            RunConfig {
                dry_run: false,
                ..RunConfig::default()
            },
            &mut adapter,
            &control,
            &mut sink,
            &clock,
        )
        .expect("eventual success");

    assert_eq!(adapter.calls, 3);
    assert_eq!(clock.now(), Duration::from_millis(30));
    assert_eq!(report.outcome, RunOutcome::Succeeded);
    assert_eq!(
        report
            .events
            .iter()
            .filter(|event| matches!(event, RunEvent::Completed { .. }))
            .count(),
        1
    );
}

#[test]
fn configured_platform_selects_a_step_override() {
    let executor = AutomationExecutor::new();
    let mut definition = definition();
    definition.steps[0]
        .platform_overrides
        .push(PlatformActionOverride {
            platform: Platform::Windows,
            action: Box::new(Action::LaunchApp {
                app: "demo.exe".to_string(),
                target: None,
            }),
        });
    let mut adapter = RecordingAdapter::default();
    let control = RunControl::default();
    let mut sink = NoopEventSink;

    let report = executor
        .run_with(
            &definition,
            RunConfig {
                dry_run: false,
                platform: Some(Platform::Windows),
                ..RunConfig::default()
            },
            &mut adapter,
            &control,
            &mut sink,
            &FakeClock::default(),
        )
        .expect("run succeeds");

    assert_eq!(adapter.actions, vec!["launchApp"]);
    assert!(matches!(
        report.events[1],
        RunEvent::StepStarted { ref step_kind, .. } if step_kind == "launchApp"
    ));
}

#[test]
fn prompt_policy_emits_manual_intervention_before_failing() {
    let executor = AutomationExecutor::new();
    let mut definition = definition();
    definition.steps[0].on_error = OnErrorPolicy::Prompt;
    let mut adapter = RecordingAdapter {
        failures_before_success: 1,
        ..RecordingAdapter::default()
    };
    let control = RunControl::default();
    let mut sink = NoopEventSink;

    let report = executor
        .run_with(
            &definition,
            RunConfig {
                dry_run: false,
                ..RunConfig::default()
            },
            &mut adapter,
            &control,
            &mut sink,
            &FakeClock::default(),
        )
        .expect("failed report");

    assert_eq!(report.outcome, RunOutcome::Failed);
    assert!(
        report
            .events
            .iter()
            .any(|event| matches!(event, RunEvent::ManualIntervention { .. }))
    );
}

#[test]
fn timeout_after_a_synchronous_adapter_call_is_reported_as_a_failure() {
    let executor = AutomationExecutor::new();
    let mut definition = definition();
    definition.steps[0].timeout = Some(DurationSpec::from_millis(5));
    let clock = FakeClock::default();
    let mut adapter = TimedAdapter {
        clock: &clock,
        elapsed: Duration::from_millis(6),
    };
    let control = RunControl::default();
    let mut sink = NoopEventSink;

    let report = executor
        .run_with(
            &definition,
            RunConfig {
                dry_run: false,
                ..RunConfig::default()
            },
            &mut adapter,
            &control,
            &mut sink,
            &clock,
        )
        .expect("failed report");

    assert_eq!(report.outcome, RunOutcome::Failed);
    assert!(matches!(
        report.events[2],
        RunEvent::StepFailed {
            error: RunError {
                kind: RunErrorKind::Timeout,
                ..
            },
            ..
        }
    ));
}

#[test]
fn cancellation_during_adapter_execution_wins_over_success() {
    let executor = AutomationExecutor::new();
    let control = RunControl::default();
    let mut adapter = CancellingAdapter {
        control: control.clone(),
    };
    let mut sink = NoopEventSink;

    let report = executor
        .run_with(
            &definition(),
            RunConfig {
                dry_run: false,
                ..RunConfig::default()
            },
            &mut adapter,
            &control,
            &mut sink,
            &FakeClock::default(),
        )
        .expect("cancelled report");

    assert_eq!(report.outcome, RunOutcome::Cancelled);
    assert!(matches!(
        report.events.last(),
        Some(RunEvent::Cancelled { .. })
    ));
    assert!(
        !report
            .events
            .iter()
            .any(|event| matches!(event, RunEvent::StepSucceeded { .. }))
    );
}

#[test]
fn cancellation_during_retry_backoff_is_observed_before_the_full_delay() {
    let executor = AutomationExecutor::new();
    let mut definition = definition();
    definition.steps[0].retry = RetryPolicy {
        max_attempts: 2,
        delay: Some(DurationSpec::from_millis(100)),
        backoff: BackoffPolicy::Constant,
    };
    let control = RunControl::default();
    let clock = CancellingClock {
        clock: FakeClock::default(),
        control: control.clone(),
        cancelled: AtomicBool::new(false),
    };
    let mut adapter = RecordingAdapter {
        failures_before_success: 1,
        ..RecordingAdapter::default()
    };
    let mut sink = NoopEventSink;

    let report = executor
        .run_with(
            &definition,
            RunConfig {
                dry_run: false,
                ..RunConfig::default()
            },
            &mut adapter,
            &control,
            &mut sink,
            &clock,
        )
        .expect("cancelled report");

    assert_eq!(report.outcome, RunOutcome::Cancelled);
    assert_eq!(adapter.calls, 1);
    assert_eq!(clock.now(), Duration::from_millis(10));
}

#[test]
fn wait_conditions_poll_adapter_queries_until_satisfied() {
    let executor = AutomationExecutor::new();
    let mut definition = definition();
    definition.steps[0].action = Action::WaitFor {
        condition: WaitCondition::ProcessRunning {
            target: Target::app("Browser".to_string()),
        },
    };
    definition.steps[0].timeout = Some(DurationSpec::from_millis(500));
    let mut adapter = QueryAdapter {
        wait_states: VecDeque::from([ConditionState::Pending, ConditionState::Satisfied]),
        assertion_result: true,
        execute_calls: 0,
        preflight_diagnostics: Vec::new(),
    };
    let clock = FakeClock::default();
    let control = RunControl::default();
    let mut sink = NoopEventSink;

    let report = executor
        .run_with(
            &definition,
            RunConfig {
                dry_run: false,
                ..RunConfig::default()
            },
            &mut adapter,
            &control,
            &mut sink,
            &clock,
        )
        .expect("wait succeeds");

    assert_eq!(report.outcome, RunOutcome::Succeeded);
    assert_eq!(clock.now(), Duration::from_millis(100));
    assert_eq!(adapter.execute_calls, 0);
}

#[test]
fn assertions_produce_structured_assertion_failures() {
    let executor = AutomationExecutor::new();
    let mut definition = definition();
    definition.steps[0].action = Action::Assert {
        assertion: Assertion::TargetExists {
            target: Target::app("Browser".to_string()),
        },
    };
    let mut adapter = QueryAdapter {
        wait_states: VecDeque::new(),
        assertion_result: false,
        execute_calls: 0,
        preflight_diagnostics: Vec::new(),
    };
    let control = RunControl::default();
    let mut sink = NoopEventSink;

    let report = executor
        .run_with(
            &definition,
            RunConfig {
                dry_run: false,
                ..RunConfig::default()
            },
            &mut adapter,
            &control,
            &mut sink,
            &FakeClock::default(),
        )
        .expect("assertion failure returns report");

    assert!(matches!(
        report.events[2],
        RunEvent::StepFailed {
            error: RunError {
                kind: RunErrorKind::Assertion,
                ..
            },
            ..
        }
    ));
}

#[test]
fn preflight_blocks_side_effects_when_an_adapter_reports_errors() {
    let executor = AutomationExecutor::new();
    let mut adapter = QueryAdapter {
        wait_states: VecDeque::new(),
        assertion_result: true,
        execute_calls: 0,
        preflight_diagnostics: vec![PreflightDiagnostic {
            severity: PreflightSeverity::Error,
            code: "missing-permission".to_string(),
            message: "Accessibility permission is required".to_string(),
            step_id: None,
        }],
    };
    let control = RunControl::default();
    let mut sink = NoopEventSink;

    assert!(matches!(
        executor.run_with(
            &definition(),
            RunConfig {
                dry_run: false,
                ..RunConfig::default()
            },
            &mut adapter,
            &control,
            &mut sink,
            &FakeClock::default(),
        ),
        Err(ExecutorError::Preflight(_))
    ));
    assert_eq!(adapter.execute_calls, 0);
}

#[test]
fn duration_wait_honors_its_step_timeout_without_sleeping_past_it() {
    let executor = AutomationExecutor::new();
    let mut definition = definition();
    definition.steps[0].action = Action::WaitFor {
        condition: WaitCondition::Duration {
            duration: DurationSpec::from_millis(100),
        },
    };
    definition.steps[0].timeout = Some(DurationSpec::from_millis(5));
    let mut adapter = RecordingAdapter::default();
    let clock = FakeClock::default();
    let control = RunControl::default();
    let mut sink = NoopEventSink;

    let report = executor
        .run_with(
            &definition,
            RunConfig {
                dry_run: false,
                ..RunConfig::default()
            },
            &mut adapter,
            &control,
            &mut sink,
            &clock,
        )
        .expect("timeout returns a report");

    assert_eq!(report.outcome, RunOutcome::Failed);
    assert_eq!(clock.now(), Duration::from_millis(5));
    assert_eq!(adapter.calls, 0);
}

#[test]
fn adapters_that_only_implement_execute_keep_wait_support() {
    let executor = AutomationExecutor::new();
    let mut definition = definition();
    definition.steps[0].action = Action::WaitFor {
        condition: WaitCondition::ProcessRunning {
            target: Target::app("Browser".to_string()),
        },
    };
    let mut adapter = RecordingAdapter::default();
    let control = RunControl::default();
    let mut sink = NoopEventSink;

    let report = executor
        .run_with(
            &definition,
            RunConfig {
                dry_run: false,
                ..RunConfig::default()
            },
            &mut adapter,
            &control,
            &mut sink,
            &FakeClock::default(),
        )
        .expect("legacy adapter wait succeeds");

    assert_eq!(report.outcome, RunOutcome::Succeeded);
    assert_eq!(adapter.actions, vec!["waitFor"]);
}

/// Keeps a record of the time that it is given for each look.
#[derive(Default)]
struct LimitedAdapter {
    limits: Vec<Option<Duration>>,
    looks_before_success: usize,
}

impl ExecutionAdapter for LimitedAdapter {
    fn execute(
        &mut self,
        _action: &Action,
        _config: &RunConfig,
    ) -> Result<Vec<Artifact>, AdapterError> {
        Ok(Vec::new())
    }

    fn evaluate_wait_with_control(
        &mut self,
        _condition: &WaitCondition,
        _config: &RunConfig,
        _control: &RunControl,
        timeout: Option<Duration>,
    ) -> Result<ConditionState, AdapterError> {
        self.limits.push(timeout);
        Ok(if self.limits.len() > self.looks_before_success {
            ConditionState::Satisfied
        } else {
            ConditionState::Pending
        })
    }
}

/// A clock that goes half as fast as it sleeps.
#[derive(Default)]
struct SlowClock(FakeClock);

impl ExecutionClock for SlowClock {
    fn now(&self) -> Duration {
        Duration::from_millis((self.0.now().as_millis() / 2) as u64)
    }

    fn sleep(&self, duration: Duration) {
        self.0.sleep(duration);
    }
}

fn file_exists() -> WaitCondition {
    WaitCondition::FileExists {
        path: "a.txt".to_string(),
    }
}

#[test]
fn each_look_is_given_what_is_left_of_the_time() {
    let mut adapter = LimitedAdapter {
        looks_before_success: 2,
        ..LimitedAdapter::default()
    };
    let waited = wait_for_condition(
        &mut adapter,
        &file_exists(),
        &RunConfig::default(),
        Some(DurationSpec::from_millis(250)),
        &RunControl::default(),
        &FakeClock::default(),
    );
    assert!(waited.is_ok());
    assert_eq!(
        adapter.limits,
        vec![
            Some(Duration::from_millis(250)),
            Some(Duration::from_millis(150)),
            Some(Duration::from_millis(50)),
        ]
    );
}

#[test]
fn waiting_goes_by_the_clock() {
    let mut adapter = LimitedAdapter {
        looks_before_success: 3,
        ..LimitedAdapter::default()
    };
    let waited = wait_for_condition(
        &mut adapter,
        &file_exists(),
        &RunConfig::default(),
        Some(DurationSpec::from_millis(200)),
        &RunControl::default(),
        &SlowClock::default(),
    );
    assert!(waited.is_ok());
    assert_eq!(adapter.limits.len(), 4);
    let error = wait_for_condition(
        &mut LimitedAdapter {
            looks_before_success: 100,
            ..LimitedAdapter::default()
        },
        &file_exists(),
        &RunConfig::default(),
        Some(DurationSpec::from_millis(200)),
        &RunControl::default(),
        &FakeClock::default(),
    )
    .expect_err("the time is up");
    assert_eq!(error.kind(), RunErrorKind::Timeout);
}

#[test]
fn the_sink_receives_what_the_report_keeps() {
    let mut definition = definition();
    definition.steps[0].retry.max_attempts = 2;
    let mut adapter = RecordingAdapter {
        failures_before_success: 1,
        ..RecordingAdapter::default()
    };
    let mut sink = CollectingSink::default();
    let report = AutomationExecutor::new()
        .run_with(
            &definition,
            RunConfig {
                dry_run: false,
                ..RunConfig::default()
            },
            &mut adapter,
            &RunControl::default(),
            &mut sink,
            &FakeClock::default(),
        )
        .expect("the run begins");
    assert_eq!(report.outcome, RunOutcome::Succeeded);
    assert_eq!(adapter.calls, 2);
    assert_eq!(sink.0, report.events);
}
