use serde_json::Value;
use cueflow::codec::document::{DefinitionParseError, encode_definition, parse_definition_json};
use cueflow::definition::{
    Action, Platform, PlatformSelector, PlatformSelectors, Target, WaitCondition,
};
use cueflow::schema::{automation_definition_schema, schema_takes_constraints};
use cueflow::validate::ValidationError;
use cueflow::value::{Json, JsonNumber, parse_json};

/// A definition of the current schema version.
const AUTOMATION_V1: &str = r#"{
  "id": "demo-ready",
  "title": "Prepare demo",
  "schemaVersion": 1,
  "steps": [
    {
      "id": "open-cueflow",
      "kind": "launchUrl",
      "url": "https://cueflow.dev",
      "retry": {"maxAttempts": 1, "backoff": "none"},
      "onError": "stop"
    },
    {
      "id": "focus-browser",
      "kind": "focusWindow",
      "target": {
        "appName": "Browser",
        "titleContains": "Cueflow"
      },
      "retry": {"maxAttempts": 1, "backoff": "none"},
      "onError": "stop"
    },
    {
      "id": "open-command-palette",
      "kind": "pressKey",
      "keys": "CmdOrControl+Shift+P",
      "retry": {"maxAttempts": 1, "backoff": "none"},
      "onError": "stop"
    }
  ]
}"#;

/// A definition of an earlier schema version.
const AUTOMATION_V0: &str = r#"{
  "id": "demo-ready",
  "title": "Prepare demo",
  "schemaVersion": 0,
  "steps": [
    {
      "id": "open-cueflow",
      "kind": "launchUrl",
      "url": "https://cueflow.dev"
    }
  ]
}"#;

/// A value of the library as `serde_json` holds it.
fn to_value(value: &Json) -> serde_json::Value {
    match value {
        Json::Null => serde_json::Value::Null,
        Json::Bool(b) => serde_json::Value::Bool(*b),
        Json::Number(JsonNumber::PosInt(n)) => serde_json::Value::from(*n),
        Json::Number(JsonNumber::NegInt(n)) => serde_json::Value::from(*n),
        Json::Number(JsonNumber::Float(text)) => serde_json::from_str(text).expect("a number"),
        Json::String(text) => serde_json::Value::String(text.clone()),
        Json::Array(items) => serde_json::Value::Array(items.iter().map(to_value).collect()),
        Json::Object(entries) => serde_json::Value::Object(
            entries
                .iter()
                .map(|(key, item)| (key.clone(), to_value(item)))
                .collect(),
        ),
    }
}

fn windows_selector(selector: PlatformSelector) -> PlatformSelectors {
    let mut selectors = PlatformSelectors::new();
    selectors.insert(Platform::Windows, selector);
    selectors
}

#[test]
fn v1_fixture_is_a_stable_json_round_trip() {
    let definition = parse_definition_json(AUTOMATION_V1).expect("v1 fixture parses");

    let expected: Value = serde_json::from_str(AUTOMATION_V1).expect("fixture is JSON");
    let actual = to_value(&encode_definition(&definition));

    assert_eq!(actual, expected);
}

#[test]
fn old_schema_versions_are_rejected_at_the_migration_boundary() {
    let error = parse_definition_json(AUTOMATION_V0).expect_err("v0 is unsupported");

    assert!(matches!(
        error,
        DefinitionParseError::UnsupportedSchemaVersion {
            expected: 1,
            actual: 0
        }
    ));
}

#[test]
fn unknown_persisted_fields_are_rejected_instead_of_lost() {
    let mut document: Value = serde_json::from_str(AUTOMATION_V1).expect("fixture is JSON");
    document["futureTopLevel"] = Value::Bool(true);

    let top_level_error =
        parse_definition_json(&document.to_string()).expect_err("unknown top-level field fails");
    assert!(matches!(top_level_error, DefinitionParseError::Json(_)));

    document
        .as_object_mut()
        .expect("document object")
        .remove("futureTopLevel");
    document["steps"][0]["futureActionField"] = Value::Bool(true);

    let nested_error =
        parse_definition_json(&document.to_string()).expect_err("unknown action field fails");
    assert!(matches!(nested_error, DefinitionParseError::Json(_)));
}

#[test]
fn blank_selectors_are_rejected_even_when_another_selector_is_present() {
    let mut document: Value = serde_json::from_str(AUTOMATION_V1).expect("fixture is JSON");
    document["steps"][1]["target"]["processName"] = Value::String("   ".to_string());

    let error = parse_definition_json(&document.to_string()).expect_err("blank selector fails");
    assert!(matches!(
        error,
        DefinitionParseError::Validation(ValidationError::BlankField("target processName"))
    ));
}

#[test]
fn platform_selector_replaces_generic_target_fields_for_execution() {
    let action = Action::FocusWindow {
        target: Target {
            app_name: Some("Browser".to_string()),
            process_name: None,
            window_title: None,
            title_contains: Some("Google".to_string()),
            url: None,
            file_path: None,
            accessibility: None,
            image: None,
            coordinates: None,
            platform_selectors: windows_selector(PlatformSelector {
                process_name: None,
                window_title: Some("Google".to_string()),
                accessibility_query: None,
                command_hint: None,
            }),
        },
    };

    let Action::FocusWindow { target } = action.for_platform(Some(Platform::Windows)) else {
        panic!("action remains a window focus action");
    };
    assert_eq!(target.window_title.as_deref(), Some("Google"));
    assert!(target.app_name.is_none());
    assert!(target.title_contains.is_none());
    assert!(target.platform_selectors.is_empty());
}


#[test]
fn image_target_regions_validate_non_zero_dimensions() {
    let mut document: Value = serde_json::from_str(AUTOMATION_V1).expect("fixture is JSON");
    document["steps"][1]["target"] = serde_json::from_str(
        r#"{
            "image": {
                "path": "fixtures/search-button.bmp",
                "region": {
                    "left": 0,
                    "top": 0,
                    "width": 0,
                    "height": 100
                }
            }
        }"#,
    )
    .expect("target is JSON");

    let error = parse_definition_json(&document.to_string()).expect_err("empty region fails");
    assert!(matches!(
        error,
        DefinitionParseError::Validation(ValidationError::InvalidImageRegion)
    ));
}

#[test]
fn accessibility_path_can_stabilize_a_target_without_textual_identifiers() {
    let document = r#"{
        "id": "path-target",
        "title": "Path target",
        "schemaVersion": 1,
        "steps": [{
            "id": "wait-for-path",
            "kind": "waitFor",
            "condition": {
                "kind": "targetExists",
                "target": {
                    "windowTitle": "GitHub Copilot",
                    "accessibility": {
                        "path": [1, 0, 2]
                    }
                }
            }
        }]
    }"#;

    let definition = parse_definition_json(document).expect("path selector parses");
    let condition = match &definition.steps[0].action {
        Action::WaitFor { condition } => condition,
        _ => panic!("step remains a wait"),
    };

    let WaitCondition::TargetExists { target } = condition else {
        panic!("condition remains a target existence wait");
    };
    assert_eq!(
        target
            .accessibility
            .as_ref()
            .and_then(|accessibility| accessibility.path.as_deref()),
        Some([1, 0, 2].as_slice())
    );
}

fn value_at<'a>(value: &'a Json, path: &[&str]) -> &'a Json {
    path.iter().fold(value, |at, key| at.get(key).expect("the key is there"))
}

#[test]
fn generated_schema_describes_the_public_definition() {
    let generated = parse_json(
        r#"{
            "$defs": {
                "DurationSpec": {"type": "object", "properties": {"millis": {"type": "integer"}}},
                "ImageTarget": {"properties": {"confidence": {"minimum": 0, "maximum": 255}}}
            },
            "properties": {"id": {"type": "string"}}
        }"#,
    )
    .expect("schema is JSON");
    assert!(schema_takes_constraints(&generated));
    let schema = automation_definition_schema(generated);
    let one = Json::Number(JsonNumber::PosInt(1));

    assert_eq!(
        value_at(
            &schema,
            &["$defs", "AutomationDefinition", "properties", "schemaVersion", "const"]
        ),
        &one
    );
    assert_eq!(
        value_at(
            &schema,
            &["$defs", "AutomationDefinition", "properties", "steps", "minItems"]
        ),
        &one
    );
    assert_eq!(
        value_at(&schema, &["$defs", "DurationSpec", "properties", "millis", "minimum"]),
        &one
    );
    assert_eq!(
        value_at(&schema, &["$defs", "ImageTarget", "properties", "confidence", "minimum"]),
        &one
    );
    assert_eq!(
        value_at(&schema, &["$defs", "ImageRegion", "properties", "width", "minimum"]),
        &one
    );
    assert_eq!(
        value_at(&schema, &["$defs", "ImageRegion", "properties", "height", "minimum"]),
        &one
    );
    assert_eq!(
        value_at(&schema, &["$defs", "Step", "properties", "id", "pattern"]),
        &Json::String("^[A-Za-z0-9][A-Za-z0-9._-]*$".to_string())
    );
    assert_eq!(
        value_at(&schema, &["$defs", "ImageTarget", "properties", "confidence", "maximum"]),
        &Json::Number(JsonNumber::PosInt(255))
    );
    assert_eq!(
        value_at(&schema, &["properties", "id", "type"]),
        &Json::String("string".to_string())
    );
}

#[test]
fn a_schema_of_another_shape_takes_no_constraints() {
    let list = parse_json(r#"{"$defs": []}"#).expect("schema is JSON");
    assert!(!schema_takes_constraints(&list));
    let text = parse_json(r#"{"$defs": {"Step": "step"}}"#).expect("schema is JSON");
    assert!(!schema_takes_constraints(&text));
    assert!(schema_takes_constraints(&Json::Null));
}
