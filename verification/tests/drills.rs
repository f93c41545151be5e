use cueflow::cli::drills::{
    DrillNews, DrillRun, DrillTask, Stage, expected_failure_kind_matches,
    expected_optional_error_matches, refusal_matches, report_matches,
};
use cueflow::cli::manifest::{
    DrillExpectedOutcome, DrillManifest, ManifestError, parse_drill_manifest,
};
use cueflow::cli::profiles::AutomationPolicyProfile;
use cueflow::cli::reports::{
    EvidencePruneReport, event_records, evidence_summary, report_error_message, report_failure_kind,
};
use cueflow::codec::records::{decode_diagnostic, decode_event, encode_diagnostic, encode_event};
use cueflow::definition::Platform;
use cueflow::executor::{ExecutorError, PreflightReport, RunOutcome, RunReport};
use cueflow::run::{
    Artifact, ArtifactKind, FailureKind, LogLevel, PreflightDiagnostic, PreflightSeverity, RunError,
    RunErrorKind, RunEvent,
};
use cueflow::value::{Json, JsonNumber};

const DEFINITION: &str = r#"{"id":"demo","title":"Demo","schemaVersion":1,
    "steps":[{"id":"open","kind":"launchUrl","url":"https://cueflow.dev"}]}"#;

fn manifest(text: &str) -> DrillManifest {
    parse_drill_manifest(text).expect("it is a manifest")
}

fn two_attempts() -> DrillManifest {
    manifest(
        r#"{"id":"drills","evidenceDir":"evidence","drills":[
            {"id":"first","path":"first.json","expectedOutcome":"succeeded","repeat":2,
             "pruneEvidenceBeforeRun":true,"policyProfile":"unsafe-lab"},
            {"id":"second","path":"second.json","expectedOutcome":"executorError",
             "expectedErrorContains":"denied"}
        ]}"#,
    )
}

fn report(outcome: RunOutcome) -> RunReport {
    RunReport {
        run_id: "run-1".to_string(),
        outcome,
        events: Vec::new(),
    }
}

fn text(path: &str) -> DrillNews {
    DrillNews::Text {
        path: path.to_string(),
        input: DEFINITION.to_string(),
    }
}

fn runnable() -> DrillNews {
    DrillNews::Checked {
        found: Ok(PreflightReport::default()),
        millis: 1,
    }
}

#[test]
fn manifests_say_what_is_expected() {
    let manifest = two_attempts();
    assert_eq!(manifest.drills.len(), 2);
    assert_eq!(manifest.drills[0].repeat, Some(2));
    assert_eq!(
        manifest.drills[0].policy_profile,
        Some(AutomationPolicyProfile::UnsafeLab)
    );
    assert_eq!(
        manifest.drills[1].expected_outcome,
        DrillExpectedOutcome::ExecutorError
    );
    assert!(matches!(parse_drill_manifest("["), Err(ManifestError::Json(_))));
    assert_eq!(
        parse_drill_manifest(r#"{"id":"drills","drills":[],"more":1}"#)
            .expect_err("there is an unknown field")
            .message(),
        "the document does not describe drills"
    );
    assert!(matches!(
        parse_drill_manifest(r#"{"id":"drills","drills":[{"id":"a","path":"a.json"}]}"#),
        Err(ManifestError::Shape)
    ));
}

#[test]
fn manifests_name_no_key_twice() {
    for text in [
        r#"{"id":"drills","drills":[],"id":"again"}"#,
        r#"{"id":"drills","drills":[{"id":"a","path":"a.json","\u0069d":"b"}]}"#,
        r#"{"id":"drills", "drills" : [] , "drills" : []}"#,
    ] {
        assert_eq!(
            parse_drill_manifest(text).expect_err("a key comes twice"),
            ManifestError::RepeatedKey
        );
    }
    let apart = r#"{"id":"id","drills":[
        {"id":"a","path":"{\"id\":","expectedOutcome":"succeeded"},
        {"id":"a","path":"id","expectedOutcome":"succeeded"}]}"#;
    let manifest = parse_drill_manifest(apart).expect("no key comes twice");
    assert_eq!(manifest.drills[0].path, "{\"id\":");
}

#[test]
fn every_attempt_is_begun_checked_pruned_run_and_bundled() {
    let mut run = DrillRun::new(two_attempts(), Platform::Linux);
    assert!(matches!(run.task(), DrillTask::Read { path } if path == "first.json"));
    run = run.next(text("/drills/first.json"));
    for attempt in ["attempt-1", "attempt-2"] {
        match run.task() {
            DrillTask::Begin { folders } => {
                assert_eq!(folders.expect("there is a place"), vec!["evidence", "first", attempt]);
            }
            other => panic!("expected a beginning, got {other:?}"),
        }
        run = run.next(DrillNews::Begun {
            evidence_directory: Some(format!("evidence/first/{attempt}")),
        });
        match run.stage() {
            Stage::Checking { config, .. } => {
                assert!(!config.dry_run);
                assert!(config.allow_coordinate_targets);
                assert_eq!(config.platform, Some(Platform::Linux));
            }
            other => panic!("expected a check, got {other:?}"),
        }
        assert!(matches!(run.task(), DrillTask::Check));
        run = run.next(runnable());
        assert!(matches!(run.task(), DrillTask::Prune));
        run = run.next(DrillNews::Pruned {
            removed: EvidencePruneReport {
                events_removed: true,
                summary_removed: false,
                steps_removed: false,
            },
        });
        assert!(matches!(run.task(), DrillTask::Run));
        run = run.next(DrillNews::Ran {
            result: Ok(report(RunOutcome::Succeeded)),
            millis: 20,
        });
        assert!(matches!(run.task(), DrillTask::Bundle));
        run = run.next(DrillNews::BundleWritten);
    }
    assert!(matches!(run.task(), DrillTask::Read { path } if path == "second.json"));
    run = run.next(text("/drills/second.json"));
    run = run.next(DrillNews::Begun {
        evidence_directory: Some("evidence/second".to_string()),
    });
    run = run.next(DrillNews::Checked {
        found: Err(ExecutorError::Preflight("targets are denied".to_string())),
        millis: 3,
    });
    assert!(matches!(run.task(), DrillTask::Report));
    let (record, matched) = run.report();
    assert!(matched);
    assert_eq!(record.get("matched"), Some(&Json::Bool(true)));
    let Some(Json::Array(results)) = record.get("results") else {
        panic!("there are results");
    };
    assert_eq!(results.len(), 3);
    assert_eq!(
        results[0].get("actualOutcome"),
        Some(&Json::String("succeeded".to_string()))
    );
    assert_eq!(
        results[1].get("attempt"),
        Some(&Json::Number(JsonNumber::PosInt(2)))
    );
    assert_eq!(
        results[2].get("error"),
        Some(&Json::String(
            "automation preflight failed: targets are denied".to_string()
        ))
    );
}

#[test]
fn a_definition_that_cannot_be_read_spoils_the_manifest() {
    let mut run = DrillRun::new(two_attempts(), Platform::Linux);
    run = run.next(DrillNews::Unreadable {
        path: "first.json".to_string(),
        error: "no such file".to_string(),
    });
    run = run.next(DrillNews::Text {
        path: "second.json".to_string(),
        input: "{}".to_string(),
    });
    let (record, matched) = run.report();
    assert!(!matched);
    let Some(Json::Array(results)) = record.get("results") else {
        panic!("there are results");
    };
    assert_eq!(
        results[0].get("actualOutcome"),
        Some(&Json::String("loadFailed".to_string()))
    );
    assert_eq!(
        results[1].get("actualOutcome"),
        Some(&Json::String("invalid".to_string()))
    );
}

#[test]
fn an_answer_to_something_else_changes_nothing() {
    let mut run = DrillRun::new(two_attempts(), Platform::Linux);
    run = run.next(DrillNews::BundleWritten);
    assert!(matches!(run.task(), DrillTask::Read { .. }));
    assert_eq!(run.max_artifact_bytes(), None);
}

#[test]
fn a_bundle_that_cannot_be_written_is_a_mismatch() {
    let mut run = DrillRun::new(
        manifest(
            r#"{"id":"drills","evidenceDir":"evidence","drills":[
                {"id":"only","path":"only.json","expectedOutcome":"succeeded"}]}"#,
        ),
        Platform::Linux,
    );
    run = run.next(text("only.json"));
    assert!(matches!(
        run.task(),
        DrillTask::Begin { folders: Some(names) } if names == vec!["evidence", "only"]
    ));
    run = run.next(DrillNews::Begun {
        evidence_directory: Some("evidence/only".to_string()),
    });
    run = run.next(runnable());
    run = run.next(DrillNews::Ran {
        result: Ok(report(RunOutcome::Succeeded)),
        millis: 2,
    });
    run = run.next(DrillNews::BundleFailed {
        error: "disk full".to_string(),
    });
    let (record, matched) = run.report();
    assert!(!matched);
    let Some(Json::Array(results)) = record.get("results") else {
        panic!("there are results");
    };
    assert_eq!(
        results[0].get("error"),
        Some(&Json::String("failed to write evidence bundle: disk full".to_string()))
    );
}

fn failed(kind: Option<FailureKind>, message: &str) -> RunEvent {
    RunEvent::StepFailed {
        run_id: "run-1".to_string(),
        automation_id: "demo".to_string(),
        step_id: "open".to_string(),
        error: RunError {
            kind: RunErrorKind::Adapter,
            message: message.to_string(),
            step_id: Some("open".to_string()),
            source: None,
            failure_kind: kind,
        },
    }
}

#[test]
fn the_latest_failure_counts() {
    let report = RunReport {
        run_id: "run-1".to_string(),
        outcome: RunOutcome::Failed,
        events: vec![
            failed(Some(FailureKind::NotFound), "first"),
            failed(None, "second"),
            RunEvent::Log {
                run_id: "run-1".to_string(),
                automation_id: "demo".to_string(),
                step_id: None,
                level: LogLevel::Warn,
                message: "size limit reached".to_string(),
            },
        ],
    };
    assert_eq!(report_failure_kind(&report), Some(FailureKind::NotFound));
    assert_eq!(report_error_message(&report).as_deref(), Some("second"));
    let mut drill = two_attempts().drills.remove(0);
    drill.expected_outcome = DrillExpectedOutcome::Failed;
    drill.expected_failure_kind = Some(FailureKind::NotFound);
    drill.expected_error_contains = Some("seco".to_string());
    drill.expected_log_contains = Some("size".to_string());
    assert!(report_matches(&drill, &report, 10));
    drill.expected_log_contains = Some("other".to_string());
    assert!(!report_matches(&drill, &report, 10));
    assert!(expected_optional_error_matches(&drill, &Some("seconds".to_string())));
    assert!(!expected_optional_error_matches(&drill, &None));
    assert!(!expected_failure_kind_matches(&drill, None));
    assert!(!refusal_matches(&drill, "seconds", 1));
}

#[test]
fn a_summary_tells_what_is_kept_and_what_is_left_out() {
    let report = RunReport {
        run_id: "run-1".to_string(),
        outcome: RunOutcome::Cancelled,
        events: vec![RunEvent::Artifact {
            run_id: "run-1".to_string(),
            automation_id: "demo".to_string(),
            step_id: Some("open".to_string()),
            artifact: Artifact {
                kind: ArtifactKind::Screenshot,
                uri: "file:///a.bmp".to_string(),
                label: None,
            },
        }],
    };
    let summary = evidence_summary("demo", &report, "file:///events.jsonl", None, None);
    assert_eq!(
        summary.get("artifactCount"),
        Some(&Json::Number(JsonNumber::PosInt(1)))
    );
    assert_eq!(
        summary.get("outcome"),
        Some(&Json::String("cancelled".to_string()))
    );
    let retention = summary.get("retentionPolicy").expect("it is there");
    assert_eq!(
        retention.get("effectiveMaxArtifactBytes"),
        Some(&Json::Number(JsonNumber::PosInt(26_214_400)))
    );
    assert_eq!(retention.get("prunedBeforeRun"), Some(&Json::Bool(false)));
    assert_eq!(
        summary.get("failureSummary").and_then(|failure| failure.get("event")),
        Some(&Json::String("runCancelled".to_string()))
    );
    let records = event_records(&report);
    assert_eq!(
        records[0].get("kind"),
        Some(&Json::String("artifact".to_string()))
    );
    assert_eq!(
        records[0].get("step_id"),
        Some(&Json::String("open".to_string()))
    );
    assert_eq!(decode_event(&records[0]).as_ref(), Some(&report.events[0]));
}

#[test]
fn records_are_read_back() {
    let error = failed(Some(FailureKind::TruncatedSearch), "too many");
    assert_eq!(decode_event(&encode_event(&error)), Some(error));
    let paused = RunEvent::Paused {
        run_id: "run-1".to_string(),
        automation_id: "demo".to_string(),
        step_id: None,
    };
    let record = encode_event(&paused);
    assert_eq!(record.get("step_id"), Some(&Json::Null));
    assert_eq!(decode_event(&record), Some(paused));
    let diagnostic = PreflightDiagnostic {
        severity: PreflightSeverity::Warning,
        code: "portability-constrained".to_string(),
        message: "mind the platform".to_string(),
        step_id: None,
    };
    assert_eq!(decode_diagnostic(&encode_diagnostic(&diagnostic)), Some(diagnostic));
    assert_eq!(decode_event(&Json::Null), None);
}
