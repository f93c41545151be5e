use cueflow::adapter::{ExecutionAdapter, NoopDesktopAdapter};
use cueflow::bridge::{RunAutomationRequest, plugin_info, run_automation};
use cueflow::collections::TextMap;
use cueflow::control::RunControl;
use cueflow::current::{CurrentPlatformAdapter, current_platform};
use cueflow::definition::{Action, AutomationDefinition, CURRENT_SCHEMA_VERSION, Step};
use cueflow::executor::{ExecutionClock, RunEventSink, RunOutcome};
use cueflow::recorder::{AutomationRecorder, RecorderConfig, RecorderError, UnsupportedRecorder};
use cueflow::run::{RunConfig, RunEvent};
use cueflow::time::Duration;

#[derive(Default)]
struct CollectingSink(Vec<RunEvent>);

impl RunEventSink for CollectingSink {
    fn emit(&mut self, event: &RunEvent) {
        self.0.push(event.clone());
    }
}

#[test]
fn exposes_stable_plugin_identity() {
    let info = plugin_info();

    assert_eq!(info.name, "cueflow");
    assert!(info.description.contains("automation"));
}

#[test]
fn bridge_runs_a_dry_run_with_structured_events() {
    let request = RunAutomationRequest {
        automation: AutomationDefinition {
            id: "dry-run".to_string(),
            title: "Dry run".to_string(),
            description: None,
            schema_version: CURRENT_SCHEMA_VERSION,
            version: None,
            variables: TextMap::new(),
            metadata: TextMap::new(),
            steps: vec![Step {
                id: "launch".to_string(),
                label: None,
                action: Action::LaunchUrl {
                    url: "https://cueflow.dev".to_string(),
                    target: None,
                },
                timeout: None,
                retry: Default::default(),
                on_error: Default::default(),
                conditions: Vec::new(),
                platform_overrides: Vec::new(),
            }],
        },
    };
    let control = RunControl::default();
    let mut sink = CollectingSink::default();

    let mut adapter = CurrentPlatformAdapter::new();
    let report = run_automation(
        request,
        RunConfig::default(),
        current_platform("linux"),
        &mut adapter,
        &control,
        &mut sink,
        &StoppedClock,
    )
        .expect("dry run succeeds");

    assert_eq!(report.outcome, RunOutcome::Succeeded);
    assert_eq!(sink.0, report.events);
}

struct StoppedClock;

impl ExecutionClock for StoppedClock {
    fn now(&self) -> Duration {
        Duration::zero()
    }

    fn sleep(&self, _duration: Duration) {}
}

#[test]
fn unsupported_recorder_makes_recording_optional() {
    let mut recorder = UnsupportedRecorder;
    let error = recorder
        .start(RecorderConfig::default())
        .expect_err("recorder is unsupported in the first scaffold");

    assert!(matches!(error, RecorderError::Unsupported(_)));
}

#[test]
fn noop_adapter_accepts_actions() {
    let mut adapter = NoopDesktopAdapter;
    let artifacts = adapter
        .execute(
            &Action::LaunchUrl {
                url: "https://cueflow.dev".to_string(),
                target: None,
            },
            &RunConfig::default(),
        )
        .expect("noop execution succeeds");

    assert!(artifacts.is_empty());
}
