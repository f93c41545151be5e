use std::cell::RefCell;

use cueflow::codec::document::parse_definition_json;
use cueflow::collections::TextMap;
use cueflow::definition::{Action, AutomationDefinition};
use cueflow::interpolate::SecretResolutionError;
use cueflow::resolve::{
    NoSecrets, ResolvedRun, SecretAnswer, SecretResolver, resolve_run, resolve_run_with,
};
use cueflow::run::RunConfig;
use cueflow::value::Json;

fn definition(variables: &str, text: &str) -> AutomationDefinition {
    let document = format!(
        r#"{{"id":"demo","title":"Demo","schemaVersion":1,"variables":{variables},
            "steps":[{{"id":"type","kind":"typeText","text":"{text}"}}]}}"#
    );
    parse_definition_json(&document).expect("the definition is read")
}

fn failure(definition: &AutomationDefinition, config: &RunConfig) -> String {
    match resolve_run(definition, config, &NoSecrets) {
        Err(error) => error.message(),
        Ok(_) => panic!("the run resolves"),
    }
}

fn typed(run: &ResolvedRun) -> &str {
    match &run.definition().steps[0].action {
        Action::TypeText { text, .. } => text,
        _ => panic!("the step types"),
    }
}

#[test]
fn values_are_embedded_in_text_as_they_are_written() {
    let definition = definition(
        r#"{"count":{"type":"number","default":{"kind":"literal","value":-3}},
            "share":{"type":"number","default":{"kind":"literal","value":0.5}},
            "on":{"type":"boolean","default":{"kind":"literal","value":true}},
            "name":{"type":"string","default":{"kind":"literal","value":"Cueflow"}}}"#,
        "${name} ${count} ${share} ${on}",
    );
    let run = resolve_run(&definition, &RunConfig::default(), &NoSecrets).expect("it resolves");
    assert_eq!(typed(&run), "Cueflow -3 0.5 true");
}

#[test]
fn each_failure_names_what_is_wrong() {
    let config = RunConfig::default();
    let missing = definition(r#"{"name":{"type":"string","required":true}}"#, "x");
    assert_eq!(
        failure(&missing, &config),
        "required variable `name` has no value"
    );
    let empty = definition(r#"{"name":{"type":"string"}}"#, "x");
    assert_eq!(failure(&empty, &config), "variable `name` has no value");
    let unknown = definition("{}", "${name}");
    assert_eq!(failure(&unknown, &config), "unknown variable `name`");
    let malformed = definition("{}", "${name");
    assert_eq!(
        failure(&malformed, &config),
        "variable interpolation is malformed"
    );
    let listed = definition(
        r#"{"list":{"type":"json","default":{"kind":"literal","value":[1]}}}"#,
        "a ${list}",
    );
    assert_eq!(
        failure(&listed, &config),
        "only string, boolean, and number values may be embedded in text"
    );
    let secret = definition(
        r#"{"token":{"type":"string","default":{"kind":"secretReference","reference":"vault"}}}"#,
        "x",
    );
    assert_eq!(
        failure(&secret, &config),
        "secret reference `vault` is unavailable"
    );
    let undeclared = RunConfig {
        variables: TextMap::from_entries(vec![("extra".to_string(), Json::Null)]),
        ..RunConfig::default()
    };
    assert_eq!(
        failure(&definition("{}", "x"), &undeclared),
        "run config provided undeclared variable `extra`"
    );
}

#[test]
fn a_variable_that_leads_to_itself_is_circular() {
    let definition = definition(
        r#"{"a":{"type":"string","default":{"kind":"literal","value":"${b}"}},
            "b":{"type":"string","default":{"kind":"literal","value":"${c}"}},
            "c":{"type":"string","default":{"kind":"literal","value":"${a}"}}}"#,
        "x",
    );
    assert_eq!(
        failure(&definition, &RunConfig::default()),
        "variable reference `a` is circular"
    );
}

struct FailingVault;

impl SecretResolver for FailingVault {
    fn resolve_secret(&self, reference: &str) -> Result<Json, SecretResolutionError> {
        Err(SecretResolutionError::Failed {
            reference: reference.to_string(),
        })
    }
}

#[test]
fn a_vault_that_fails_is_told_apart_from_one_without_the_secret() {
    let definition = definition(
        r#"{"token":{"type":"string","default":{"kind":"secretReference","reference":"vault"}}}"#,
        "x",
    );
    match resolve_run(&definition, &RunConfig::default(), &FailingVault) {
        Err(error) => assert_eq!(
            error.message(),
            "secret reference `vault` could not be resolved"
        ),
        Ok(_) => panic!("the vault fails"),
    }
}

#[test]
fn secrets_spread_to_what_refers_to_them_and_are_not_configured() {
    let definition = definition(
        r#"{"token":{"type":"string","default":{"kind":"secretReference","reference":"vault"}},
            "header":{"type":"string","default":{"kind":"literal","value":"Bearer ${token}"}},
            "plain":{"type":"string","default":{"kind":"literal","value":"shown"}}}"#,
        "${header}",
    );
    let answers = TextMap::from_entries(vec![(
        "token".to_string(),
        SecretAnswer::Given(Json::String("abc".to_string())),
    )]);
    let run = resolve_run_with(&definition, &RunConfig::default(), &answers).expect("it resolves");
    assert_eq!(typed(&run), "Bearer abc");
    assert!(run.variables().get("header").expect("it is there").is_secret());
    assert!(!run.variables().get("plain").expect("it is there").is_secret());
    assert!(!run.config().variables.contains_key("token"));
    assert!(!run.config().variables.contains_key("header"));
    assert!(run.config().variables.contains_key("plain"));
    assert_eq!(
        run.redacted_variables().get("plain"),
        Some(&Json::String("shown".to_string()))
    );
}

/// Gives every secret but one, and keeps a record of what it was asked for.
struct RecordingVault {
    refused: &'static str,
    asked: RefCell<Vec<String>>,
}

impl SecretResolver for RecordingVault {
    fn resolve_secret(&self, reference: &str) -> Result<Json, SecretResolutionError> {
        self.asked.borrow_mut().push(reference.to_string());
        if reference == self.refused {
            Err(SecretResolutionError::Unavailable {
                reference: reference.to_string(),
            })
        } else {
            Ok(Json::String(format!("<{reference}>")))
        }
    }
}

const THREE_SECRETS: &str = r#"{
    "a":{"type":"string","default":{"kind":"literal","value":"${c} ${b}"}},
    "b":{"type":"string","default":{"kind":"secretReference","reference":"safe"}},
    "c":{"type":"string","default":{"kind":"secretReference","reference":"vault"}},
    "d":{"type":"string","default":{"kind":"secretReference","reference":"safe"}}}"#;

#[test]
fn secrets_are_asked_for_as_they_are_needed() {
    let definition = definition(THREE_SECRETS, "${a}");
    let vault = RecordingVault {
        refused: "",
        asked: RefCell::new(Vec::new()),
    };
    let run = resolve_run(&definition, &RunConfig::default(), &vault).expect("it resolves");
    assert_eq!(typed(&run), "<vault> <safe>");
    assert_eq!(*vault.asked.borrow(), vec!["vault", "safe", "safe"]);
}

#[test]
fn nobody_is_asked_after_a_refusal_or_for_what_the_run_gives() {
    let definition = definition(THREE_SECRETS, "${a}");
    let vault = RecordingVault {
        refused: "vault",
        asked: RefCell::new(Vec::new()),
    };
    assert!(resolve_run(&definition, &RunConfig::default(), &vault).is_err());
    assert_eq!(*vault.asked.borrow(), vec!["vault"]);
    let given = RunConfig {
        variables: TextMap::from_entries(vec![
            ("b".to_string(), Json::String("known".to_string())),
            ("c".to_string(), Json::String("known".to_string())),
            ("d".to_string(), Json::String("known".to_string())),
        ]),
        ..RunConfig::default()
    };
    let run = resolve_run(&definition, &given, &vault).expect("it resolves");
    assert_eq!(typed(&run), "known known");
    assert_eq!(vault.asked.borrow().len(), 1);
}

#[test]
fn what_is_shown_does_not_depend_on_the_secrets() {
    let definition = definition(THREE_SECRETS, "${a}");
    let with = |text: &str| {
        let answer = || SecretAnswer::Given(Json::String(text.to_string()));
        let answers = TextMap::from_entries(vec![
            ("b".to_string(), answer()),
            ("c".to_string(), answer()),
            ("d".to_string(), answer()),
        ]);
        resolve_run_with(&definition, &RunConfig::default(), &answers).expect("it resolves")
    };
    let (one, other) = (with("one"), with("other"));
    assert_eq!(one.redacted_variables(), other.redacted_variables());
    assert_eq!(one.config().variables, other.config().variables);
    assert_eq!(typed(&one), "one one");
}
