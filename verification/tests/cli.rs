use cueflow::cli::drills::expected_duration_matches;
use cueflow::cli::manifest::{DrillEntry, DrillExpectedOutcome};
use cueflow::cli::profiles::AutomationPolicyProfile;
use cueflow::cli::reports::report_failure_summary;
use cueflow::executor::{ExecutorError, RunOutcome, RunReport};
use cueflow::run::{FailureKind, RunConfig, RunError, RunErrorKind, RunEvent};
use cueflow::value::Json;

fn object(entries: &[(&str, &str)]) -> Json {
    let mut sorted: Vec<(String, Json)> = entries
        .iter()
        .map(|(key, text)| (key.to_string(), Json::String(text.to_string())))
        .collect();
    sorted.sort_by(|a, b| a.0.cmp(&b.0));
    Json::Object(sorted)
}

#[test]
fn drill_expected_outcomes_match_run_outcomes() {
    assert!(DrillExpectedOutcome::Succeeded.matches(RunOutcome::Succeeded));
    assert!(DrillExpectedOutcome::Failed.matches(RunOutcome::Failed));
    assert!(!DrillExpectedOutcome::Succeeded.matches(RunOutcome::Failed));
    assert!(!DrillExpectedOutcome::Failed.matches(RunOutcome::Succeeded));
    assert!(!DrillExpectedOutcome::Failed.matches(RunOutcome::Cancelled));
    assert!(!DrillExpectedOutcome::ExecutorError.matches(RunOutcome::Failed));
}

#[test]
fn drill_expected_outcomes_have_stable_json_labels() {
    assert_eq!(DrillExpectedOutcome::Succeeded.as_str(), "succeeded");
    assert_eq!(DrillExpectedOutcome::Failed.as_str(), "failed");
    assert_eq!(
        DrillExpectedOutcome::ExecutorError.as_str(),
        "executorError"
    );
}

#[test]
fn policy_profiles_apply_named_approval_sets() {
    let mut evidence = RunConfig::default();
    AutomationPolicyProfile::Evidence.apply_to(&mut evidence);
    assert!(evidence.capture_step_evidence);
    assert!(!evidence.allow_image_targets);

    let mut visual = RunConfig::default();
    AutomationPolicyProfile::VisualFallback.apply_to(&mut visual);
    assert!(visual.capture_step_evidence);
    assert!(visual.allow_screenshot_capture);
    assert!(visual.allow_image_targets);
    assert!(!visual.allow_coordinate_targets);

    let mut lab = RunConfig::default();
    AutomationPolicyProfile::UnsafeLab.apply_to(&mut lab);
    assert!(lab.allow_coordinate_targets);
    assert!(lab.allow_path_only_selectors);
    assert!(lab.allow_value_capture);
    assert!(lab.capture_step_evidence);
    assert!(lab.allow_screenshot_capture);
    assert!(lab.allow_image_targets);
}

#[test]
fn policy_profiles_parse_cli_aliases() {
    assert_eq!(
        AutomationPolicyProfile::from_cli("visual-fallback"),
        Some(AutomationPolicyProfile::VisualFallback)
    );
    assert_eq!(
        AutomationPolicyProfile::from_cli("unsafeLab"),
        Some(AutomationPolicyProfile::UnsafeLab)
    );
    assert_eq!(AutomationPolicyProfile::from_cli("unknown"), None);
}

#[test]
fn expected_duration_matches_optional_maximum() {
    let mut drill = DrillEntry {
        id: "duration".to_string(),
        path: "duration.json".to_string(),
        expected_outcome: DrillExpectedOutcome::Succeeded,
        policy_profile: None,
        allow_coordinate_targets: false,
        allow_path_only_selectors: false,
        allow_value_capture: false,
        capture_step_evidence: false,
        allow_screenshot_capture: false,
        allow_image_targets: false,
        evidence_max_artifact_bytes: None,
        prune_evidence_before_run: false,
        expected_failure_kind: None,
        expected_error_contains: None,
        expected_log_contains: None,
        expected_max_duration_millis: None,
        repeat: None,
    };

    assert!(expected_duration_matches(&drill, 10_000));
    drill.expected_max_duration_millis = Some(500);
    assert!(expected_duration_matches(&drill, 500));
    assert!(!expected_duration_matches(&drill, 501));
}

#[test]
fn failure_summary_reports_terminal_step_failure() {
    let report = RunReport {
        run_id: "run-test".to_string(),
        outcome: RunOutcome::Failed,
        events: vec![RunEvent::StepFailed {
            run_id: "run-test".to_string(),
            automation_id: "automation-test".to_string(),
            step_id: "step-test".to_string(),
            error: RunError {
                kind: RunErrorKind::Adapter,
                message: "semantic target is disabled".to_string(),
                failure_kind: Some(FailureKind::Disabled),
                step_id: Some("step-test".to_string()),
                source: Some("failureKind=disabled".to_string()),
            },
        }],
    };

    assert_eq!(
        report_failure_summary(&report),
        object(&[
            ("event", "stepFailed"),
            ("stepId", "step-test"),
            ("errorKind", "adapter"),
            ("failureKind", "disabled"),
            ("message", "semantic target is disabled"),
            ("source", "failureKind=disabled"),
                ])
    );
}

#[test]
fn failure_summary_reports_run_level_failures_without_step_events() {
    let report = RunReport {
        run_id: "run-test".to_string(),
        outcome: RunOutcome::Failed,
        events: Vec::new(),
    };

    assert_eq!(
        report_failure_summary(&report),
        object(&[
            ("event", "runFailed"),
            ("message", "run failed without a terminal step failure event"),
                ])
    );
}
