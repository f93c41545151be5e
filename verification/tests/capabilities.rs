use cueflow::adapter::{AdapterError, ConditionState, ExecutionAdapter, NoopDesktopAdapter};
use cueflow::codec::inspection::encode_capabilities;
use cueflow::current::{CurrentPlatformAdapter, current_platform};
use cueflow::definition::{
    AccessibilityTarget, Action, Assertion, Platform, Target, WaitCondition,
};
use cueflow::macos::policy::process_name;
use cueflow::recorder::{AutomationRecorder, RecorderConfig, RecorderError, UnsupportedRecorder};
use cueflow::run::{FailureKind, RunConfig, RunErrorKind};
use cueflow::value::{Json, JsonNumber, parse_json};
use cueflow::windows::search::{semantic_selector, semantic_window_target};

#[test]
fn a_platform_without_an_adapter_can_only_pretend() {
    let mut adapter = CurrentPlatformAdapter::new();
    let capabilities = CurrentPlatformAdapter::capabilities(Platform::Linux);
    assert!(!capabilities.supports_launch);
    assert!(!capabilities.supports_accessibility_tree);
    let record = encode_capabilities(capabilities);
    assert_eq!(
        record.get("platform"),
        Some(&Json::String("linux".to_string()))
    );
    let action = Action::OpenFile {
        path: "a.txt".to_string(),
        target: None,
    };
    assert!(adapter.execute(&action, &RunConfig::default()).is_ok());
    let real = RunConfig {
        dry_run: false,
        ..RunConfig::default()
    };
    let error = adapter.execute(&action, &real).expect_err("nothing is done");
    assert_eq!(
        error.message(),
        "real execution is not implemented for openFile on this platform"
    );
    assert_eq!(error.kind(), RunErrorKind::Unsupported);
    assert_eq!(
        adapter
            .inspect_window(&Target::app("Browser".to_string()), 1, 1)
            .expect_err("nothing is shown")
            .message(),
        "accessibility tree inspection is not implemented on this platform"
    );
    assert_eq!(
        adapter
            .capture_screenshot("a.bmp")
            .expect_err("nothing is taken")
            .message(),
        "screenshot capture is not implemented on this platform"
    );
}

#[test]
fn platforms_go_by_the_names_of_their_systems() {
    assert_eq!(current_platform("windows"), Platform::Windows);
    assert_eq!(current_platform("macos"), Platform::MacOs);
    assert_eq!(current_platform("freebsd"), Platform::Linux);
}

#[test]
fn recording_says_why_it_is_not_there() {
    assert!(matches!(
        UnsupportedRecorder.stop(),
        Err(RecorderError::Unsupported(
            "recording capture is intentionally not implemented in the foundation crate"
        ))
    ));
    let config = RecorderConfig::default();
    assert!(!config.capture_screenshots);
    assert!(config.consolidate_events);
}

#[test]
fn an_error_keeps_what_was_said_of_it() {
    let error = AdapterError::new("broken".to_string())
        .with_failure_kind(FailureKind::Disabled)
        .with_source("failureKind=disabled".to_string())
        .into_run_error("step".to_string());
    assert_eq!(error.kind, RunErrorKind::Adapter);
    assert_eq!(error.step_id.as_deref(), Some("step"));
    assert_eq!(error.source.as_deref(), Some("failureKind=disabled"));
    assert_eq!(error.failure_kind, Some(FailureKind::Disabled));
}

#[test]
fn numbers_of_documents_keep_their_kind() {
    let parsed = parse_json(r#"{"a":1,"b":-2,"c":0.25,"d":[true,null,"x"]}"#).expect("it is JSON");
    assert_eq!(parsed.get("a"), Some(&Json::Number(JsonNumber::PosInt(1))));
    assert_eq!(parsed.get("b"), Some(&Json::Number(JsonNumber::NegInt(-2))));
    assert_eq!(
        parsed.get("c"),
        Some(&Json::Number(JsonNumber::Float("0.25".to_string())))
    );
    assert_eq!(
        parsed.get("d"),
        Some(&Json::Array(vec![
            Json::Bool(true),
            Json::Null,
            Json::String("x".to_string())
        ]))
    );
    assert!(parse_json("[1,").is_err());
}

#[test]
fn an_adapter_that_only_executes_answers_the_rest() {
    let mut adapter = NoopDesktopAdapter;
    let config = RunConfig::default();
    let target = Target::app("Browser".to_string());
    let wait = WaitCondition::FileExists {
        path: "a.txt".to_string(),
    };
    assert_eq!(
        adapter.evaluate_wait(&wait, &config),
        Ok(ConditionState::Satisfied)
    );
    let assertion = Assertion::TargetExists {
        target: target.clone(),
    };
    assert_eq!(adapter.evaluate_assertion(&assertion, &config), Ok(true));
    let error = adapter
        .target_exists(&target, &config)
        .expect_err("nothing can be asked");
    assert_eq!(error.message(), "target queries are not supported");
    assert_eq!(error.kind(), RunErrorKind::Unsupported);
    let error = adapter
        .scroll_target(&target, 0, 1, &config)
        .expect_err("nothing can be done");
    assert_eq!(error.message(), "target actions are not supported");
    assert_eq!(error.kind(), RunErrorKind::Unsupported);
}

#[test]
fn a_process_goes_by_its_name_or_its_application() {
    let mut target = Target::app("Browser".to_string());
    assert_eq!(process_name(&target), Ok("Browser"));
    target.process_name = Some("browserd".to_string());
    assert_eq!(process_name(&target), Ok("browserd"));
    target.url = Some("https://example.com".to_string());
    assert_eq!(
        process_name(&target).expect_err("no other selector").message(),
        "macOS process queries currently support only processName or appName selectors"
    );
}

#[test]
fn an_element_is_searched_in_the_window_of_its_target() {
    let mut target = Target::app("Browser".to_string());
    assert_eq!(
        semantic_selector(&target).expect_err("no element").message(),
        "semantic target operations require an accessibility selector"
    );
    let plain = target.clone();
    let wanted = AccessibilityTarget {
        id: Some("save".to_string()),
        name: None,
        control_type: None,
        path: Some(vec![0, 2]),
    };
    target.accessibility = Some(wanted.clone());
    assert_eq!(semantic_selector(&target), Ok(&wanted));
    assert_eq!(semantic_window_target(&target), plain);
}
