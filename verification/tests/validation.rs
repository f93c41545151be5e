use cueflow::codec::document::{DefinitionParseError, parse_definition_json};
use cueflow::definition::{Platform, Portability, VariableType};
use cueflow::validate::ValidationError;
use cueflow::value::Json;

fn definition_with(step: &str) -> String {
    format!(
        r#"{{"id":"demo","title":"Demo","schemaVersion":1,"steps":[{step}]}}"#
    )
}

fn problem(document: &str) -> ValidationError {
    match parse_definition_json(document) {
        Err(DefinitionParseError::Validation(error)) => error,
        other => panic!("expected a validation error, got {other:?}"),
    }
}

#[test]
fn blank_titles_are_missing_and_bad_identifiers_are_refused() {
    assert_eq!(
        problem(r#"{"id":"demo","title":" \t","schemaVersion":1,"steps":[]}"#),
        ValidationError::MissingField("title")
    );
    assert_eq!(
        problem(r#"{"id":"","title":"Demo","schemaVersion":1,"steps":[]}"#),
        ValidationError::InvalidIdentifier {
            field: "automation id"
        }
    );
    assert_eq!(
        problem(r#"{"id":"-demo","title":"Demo","schemaVersion":1,"steps":[]}"#),
        ValidationError::InvalidIdentifier {
            field: "automation id"
        }
    );
    let named = definition_with(r#"{"id":"a b","kind":"launchUrl","url":"https://cueflow.dev"}"#);
    assert_eq!(
        problem(&named),
        ValidationError::InvalidIdentifier { field: "step id" }
    );
}

#[test]
fn a_definition_needs_a_step() {
    let error = problem(r#"{"id":"demo","title":"Demo","schemaVersion":1,"steps":[]}"#);
    assert_eq!(error, ValidationError::NoSteps);
    assert_eq!(error.message(), "automation must contain at least one step");
}

#[test]
fn targets_and_their_parts_say_something() {
    let empty = definition_with(r#"{"id":"a","kind":"focusWindow","target":{}}"#);
    assert_eq!(problem(&empty), ValidationError::EmptyTarget);
    let accessibility =
        definition_with(r#"{"id":"a","kind":"clickTarget","target":{"accessibility":{}}}"#);
    assert_eq!(
        problem(&accessibility),
        ValidationError::EmptyAccessibilityTarget
    );
    let selector = definition_with(
        r#"{"id":"a","kind":"focusWindow","target":{"platformSelectors":{"windows":{}}}}"#,
    );
    assert_eq!(problem(&selector), ValidationError::EmptyPlatformSelector);
    let confidence = definition_with(
        r#"{"id":"a","kind":"clickTarget","target":{"image":{"path":"a.bmp","confidence":0}}}"#,
    );
    assert_eq!(
        problem(&confidence),
        ValidationError::InvalidImageConfidence
    );
    let blank = definition_with(r#"{"id":"a","kind":"focusWindow","target":{"appName":"  "}}"#);
    let error = problem(&blank);
    assert_eq!(error, ValidationError::BlankField("target appName"));
    assert_eq!(error.message(), "target appName must not be blank when present");
}

#[test]
fn durations_and_retries_are_positive() {
    let timeout = definition_with(
        r#"{"id":"a","kind":"launchUrl","url":"https://cueflow.dev","timeout":{"millis":0}}"#,
    );
    let error = problem(&timeout);
    assert_eq!(error, ValidationError::InvalidDuration("step timeout"));
    assert_eq!(error.message(), "step timeout must be greater than zero");
    let retry = definition_with(
        r#"{"id":"a","kind":"launchUrl","url":"https://cueflow.dev","retry":{"maxAttempts":0}}"#,
    );
    assert_eq!(problem(&retry), ValidationError::InvalidRetryPolicy);
}

#[test]
fn a_platform_is_overridden_once() {
    let twice = definition_with(
        r#"{"id":"a","kind":"launchUrl","url":"https://cueflow.dev","platformOverrides":[
            {"platform":"mac-os","action":{"kind":"launchApp","app":"Safari"}},
            {"platform":"mac-os","action":{"kind":"launchApp","app":"Firefox"}}
        ]}"#,
    );
    let error = problem(&twice);
    assert_eq!(error, ValidationError::DuplicatePlatformOverride(Platform::MacOs));
    assert_eq!(error.message(), "duplicate platform override for MacOs");
}

#[test]
fn variables_have_a_default_of_their_type_or_are_required() {
    let required = r#"{"id":"demo","title":"Demo","schemaVersion":1,
        "variables":{"name":{"type":"string","required":true,
            "default":{"kind":"literal","value":"x"}}},
        "steps":[{"id":"a","kind":"launchUrl","url":"https://cueflow.dev"}]}"#;
    let error = problem(required);
    assert_eq!(
        error,
        ValidationError::RequiredVariableHasDefault("name".to_string())
    );
    assert_eq!(
        error.message(),
        "required variable `name` cannot also define a default"
    );
    let wrong = r#"{"id":"demo","title":"Demo","schemaVersion":1,
        "variables":{"count":{"type":"number","default":{"kind":"literal","value":true}}},
        "steps":[{"id":"a","kind":"launchUrl","url":"https://cueflow.dev"}]}"#;
    assert_eq!(
        problem(wrong),
        ValidationError::InvalidVariableType {
            name: "count".to_string(),
            expected: VariableType::Number
        }
    );
}

#[test]
fn documents_that_are_no_definitions_are_told_apart() {
    assert!(matches!(
        parse_definition_json("{"),
        Err(DefinitionParseError::Json(_))
    ));
    let missing = parse_definition_json(r#"{"id":"demo"}"#).expect_err("no version");
    assert!(matches!(missing, DefinitionParseError::MissingSchemaVersion));
    assert_eq!(
        missing.message(),
        "automation definition schemaVersion is required and must be an unsigned 32-bit integer"
    );
    assert!(matches!(
        parse_definition_json(r#"{"schemaVersion":"1"}"#),
        Err(DefinitionParseError::MissingSchemaVersion)
    ));
    assert!(matches!(
        parse_definition_json(r#"{"schemaVersion":4294967296}"#),
        Err(DefinitionParseError::MissingSchemaVersion)
    ));
    let newer = parse_definition_json(r#"{"schemaVersion":7}"#).expect_err("another version");
    assert_eq!(
        newer.message(),
        "automation definition schema version 7 is not supported; expected 1"
    );
    let shape = parse_definition_json(r#"{"id":1,"title":"Demo","schemaVersion":1,"steps":[]}"#);
    assert!(matches!(shape, Err(DefinitionParseError::Json(_))));
}

#[test]
fn a_repeated_field_counts_as_it_was_given_last() {
    let document = r#"{"id":"first","title":"Demo","schemaVersion":1,
        "steps":[{"id":"a","kind":"launchUrl","url":"https://cueflow.dev"}],"id":"second"}"#;
    assert_eq!(
        parse_definition_json(document).expect("it is read").id,
        "second"
    );
}

#[test]
fn platforms_make_a_definition_less_portable() {
    let selector = |platform: &str| {
        let document = definition_with(&format!(
            r#"{{"id":"a","kind":"focusWindow","target":{{"appName":"Browser",
                "platformSelectors":{{"{platform}":{{"windowTitle":"Demo"}}}}}}}}"#
        ));
        parse_definition_json(&document)
            .expect("it is read")
            .portability()
    };
    assert_eq!(selector("windows"), Portability::WindowsOnly);
    assert_eq!(selector("mac-os"), Portability::MacOsOnly);
    assert_eq!(selector("linux"), Portability::LinuxOnly);
}
