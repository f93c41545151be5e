use cueflow::codec::document::{encode_definition, parse_definition_json};
use cueflow::collections::TextMap;
use cueflow::definition::{
    Action, AutomationDefinition, CURRENT_SCHEMA_VERSION, DurationSpec, OnErrorPolicy, Platform,
    PlatformActionOverride, PlatformSelectors, Portability, RetryPolicy, Step, Target,
    WaitCondition,
};
use cueflow::time::Duration;
use cueflow::validate::ValidationError;
use cueflow::value::{Json, JsonNumber};

/// A value of the library as `serde_json` holds it.
fn to_value(value: &Json) -> serde_json::Value {
    match value {
        Json::Null => serde_json::Value::Null,
        Json::Bool(b) => serde_json::Value::Bool(*b),
        Json::Number(JsonNumber::PosInt(n)) => serde_json::Value::from(*n),
        Json::Number(JsonNumber::NegInt(n)) => serde_json::Value::from(*n),
        Json::Number(JsonNumber::Float(text)) => serde_json::from_str(text).expect("a number"),
        Json::String(text) => serde_json::Value::String(text.clone()),
        Json::Array(items) => serde_json::Value::Array(items.iter().map(to_value).collect()),
        Json::Object(entries) => serde_json::Value::Object(
            entries
                .iter()
                .map(|(key, item)| (key.clone(), to_value(item)))
                .collect(),
        ),
    }
}

fn sample_definition() -> AutomationDefinition {
    AutomationDefinition {
        id: "demo-ready".to_string(),
        title: "Prepare demo".to_string(),
        description: Some("Put the browser in a known state.".to_string()),
        schema_version: CURRENT_SCHEMA_VERSION,
        version: Some("0.1.0".to_string()),
        variables: TextMap::new(),
        metadata: TextMap::new(),
        steps: vec![
            Step {
                id: "open-docs".to_string(),
                label: Some("Open Cueflow docs".to_string()),
                action: Action::LaunchUrl {
                    url: "https://cueflow.dev".to_string(),
                    target: None,
                },
                timeout: Some(DurationSpec::from_millis(5_000)),
                retry: RetryPolicy::default(),
                on_error: OnErrorPolicy::Stop,
                conditions: Vec::new(),
                platform_overrides: Vec::new(),
            },
            Step {
                id: "focus-browser".to_string(),
                label: None,
                action: Action::FocusWindow {
                    target: Target::app("Browser".to_string()),
                },
                timeout: None,
                retry: RetryPolicy::default(),
                on_error: OnErrorPolicy::Stop,
                conditions: vec![WaitCondition::Duration {
                    duration: DurationSpec::from_millis(100),
                }],
                platform_overrides: Vec::new(),
            },
        ],
    }
}

#[test]
fn automation_definition_round_trips_as_json() {
    let definition = sample_definition();

    let json = to_value(&encode_definition(&definition)).to_string();
    assert!(json.contains("\"schemaVersion\""));
    assert!(json.contains("\"launchUrl\""));

    let round_trip = parse_definition_json(&json).expect("deserialize definition");
    assert_eq!(round_trip, definition);
    assert_eq!(round_trip.portability(), Portability::Portable);
}

#[test]
fn validation_rejects_duplicate_step_ids() {
    let mut definition = sample_definition();
    definition.steps[1].id = definition.steps[0].id.clone();

    let error = definition.validate().expect_err("duplicate should fail");
    assert_eq!(
        error,
        ValidationError::DuplicateStepId("open-docs".to_string())
    );
}

#[test]
fn validation_rejects_empty_targets() {
    let target = Target {
        app_name: None,
        process_name: None,
        window_title: None,
        title_contains: None,
        url: None,
        file_path: None,
        accessibility: None,
        image: None,
        coordinates: None,
        platform_selectors: PlatformSelectors::new(),
    };

    assert_eq!(target.validate(), Err(ValidationError::EmptyTarget));
}

#[test]
fn portability_detects_platform_overrides() {
    let mut definition = sample_definition();
    definition.steps[0]
        .platform_overrides
        .push(PlatformActionOverride {
            platform: Platform::Windows,
            action: Box::new(Action::LaunchApp {
                app: "msedge".to_string(),
                target: None,
            }),
        });

    assert_eq!(definition.portability(), Portability::HasPlatformOverrides);

    definition.steps[1]
        .platform_overrides
        .push(PlatformActionOverride {
            platform: Platform::MacOs,
            action: Box::new(Action::LaunchApp {
                app: "Safari".to_string(),
                target: None,
            }),
        });

    assert_eq!(definition.portability(), Portability::HasPlatformOverrides);
}
