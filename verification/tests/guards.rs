use cueflow::adapter::AdapterError;
use cueflow::collections::TextSet;
use cueflow::definition::{
    AccessibilityTarget, Action, Assertion, Coordinates, ImageTarget, PlatformSelectors, Target,
    WaitCondition,
};
use cueflow::macos::adapter::MacOsDesktopAdapter;
use cueflow::queries::{Query, judge_assertion_answer};
use cueflow::run::{FailureKind, RunConfig, RunErrorKind};
use cueflow::windows::adapter::WindowsDesktopAdapter;

const MAC: MacOsDesktopAdapter = MacOsDesktopAdapter { trusted: true };

fn element() -> Target {
    Target {
        app_name: None,
        process_name: None,
        window_title: Some("Demo".to_string()),
        title_contains: None,
        url: None,
        file_path: None,
        accessibility: Some(AccessibilityTarget {
            id: Some("save".to_string()),
            name: None,
            control_type: None,
            path: None,
        }),
        image: None,
        coordinates: None,
        platform_selectors: PlatformSelectors::new(),
    }
}

fn picture() -> Target {
    Target {
        accessibility: None,
        image: Some(ImageTarget {
            path: "a.bmp".to_string(),
            confidence: None,
            region: None,
        }),
        ..element()
    }
}

fn command() -> WaitCondition {
    WaitCondition::CommandExits {
        command: "tool".to_string(),
        args: vec!["--check".to_string()],
    }
}

fn pictures_allowed() -> RunConfig {
    RunConfig {
        allow_image_targets: true,
        allow_screenshot_capture: true,
        ..RunConfig::default()
    }
}

fn asks_nothing(answer: Result<Option<Query>, AdapterError>) -> AdapterError {
    match answer {
        Err(error) => error,
        Ok(query) => panic!("the system is asked {query:?}"),
    }
}

#[test]
fn unapproved_commands_are_not_asked_for() {
    let config = RunConfig::default();
    let asserted = Assertion::Condition {
        condition: command(),
    };
    for answer in [
        WindowsDesktopAdapter.evaluate_wait(&command(), &config),
        WindowsDesktopAdapter.evaluate_assertion(&asserted, &config),
    ] {
        let error = asks_nothing(answer);
        assert_eq!(error.message(), "command is not approved for this run");
        assert_eq!(error.kind(), RunErrorKind::Unsupported);
    }
    for answer in [
        MAC.evaluate_wait(&command(), &config),
        MAC.evaluate_assertion(&asserted, &config),
    ] {
        let error = asks_nothing(answer);
        assert_eq!(
            error.message(),
            "command `tool` is not approved for this run"
        );
        assert_eq!(error.failure_kind(), Some(FailureKind::PolicyDenied));
    }
    let mut approved = TextSet::new();
    approved.insert("tool".to_string());
    let config = RunConfig {
        approved_commands: approved,
        ..RunConfig::default()
    };
    assert!(matches!(
        MAC.evaluate_wait(&command(), &config),
        Ok(Some(Query::CommandSucceeds { command, .. })) if command == "tool"
    ));
    assert!(matches!(
        WindowsDesktopAdapter.evaluate_assertion(&asserted, &config),
        Ok(Some(Query::CommandSucceeds { command, .. })) if command == "tool"
    ));
}

#[test]
fn pictures_and_values_are_asked_for_only_where_that_is_approved() {
    let config = RunConfig::default();
    let shown = WaitCondition::TargetExists { target: picture() };
    let gone = WaitCondition::TargetNotExists { target: picture() };
    let asserted = Assertion::TargetExists { target: picture() };
    for answer in [
        WindowsDesktopAdapter.evaluate_wait(&shown, &config),
        WindowsDesktopAdapter.evaluate_wait(&gone, &config),
        WindowsDesktopAdapter.evaluate_assertion(&asserted, &config),
        MAC.evaluate_wait(&shown, &config),
        MAC.evaluate_wait(&gone, &config),
        MAC.evaluate_assertion(&asserted, &config),
    ] {
        assert_eq!(
            asks_nothing(answer).message(),
            "image targets require explicit allowImageTargets approval"
        );
    }
    assert!(MAC.target_exists(&picture(), &config).is_err());
    assert!(matches!(
        MAC.evaluate_wait(&gone, &pictures_allowed()),
        Ok(Some(Query::ImageExists { .. }))
    ));
    let value = WaitCondition::TargetValueContains {
        target: element(),
        text: "done".to_string(),
    };
    assert_eq!(
        asks_nothing(MAC.evaluate_wait(&value, &config)).message(),
        "runtime value reads require explicit allowValueCapture approval"
    );
    let allowed = RunConfig {
        allow_value_capture: true,
        ..RunConfig::default()
    };
    assert!(matches!(
        MAC.evaluate_wait(&value, &allowed),
        Ok(Some(Query::ElementValueContains { .. }))
    ));
}

#[test]
fn what_preflight_refuses_is_not_done() {
    let click = Action::ClickTarget {
        target: Target {
            accessibility: element().accessibility,
            ..picture()
        },
    };
    let config = pictures_allowed();
    assert!(!WindowsDesktopAdapter.preflight(&click, &config).is_empty());
    assert!(WindowsDesktopAdapter.execute(&click, &config).is_err());
    assert!(WindowsDesktopAdapter
        .execute(&Action::ClickTarget { target: picture() }, &config)
        .is_ok());

    let beside = Target {
        coordinates: Some(Coordinates { x: 1, y: 2 }),
        ..element()
    };
    let config = RunConfig::default();
    for action in [
        Action::TypeText {
            text: "words".to_string(),
            target: Some(beside.clone()),
        },
        Action::PressKey {
            keys: "Enter".to_string(),
            target: Some(beside.clone()),
        },
        Action::Scroll {
            delta_x: 0,
            delta_y: 1,
            target: Some(beside.clone()),
        },
    ] {
        assert!(!MAC.preflight(&action, &config).is_empty());
        let error = MAC.execute(&action, &config).expect_err("it is refused");
        assert_eq!(
            error.message(),
            "coordinate targets require explicit allowCoordinateTargets approval"
        );
    }
}

#[test]
fn assertions_go_by_the_answer() {
    let there = Assertion::TargetExists { target: element() };
    let gone = Assertion::Condition {
        condition: WaitCondition::TargetNotExists { target: element() },
    };
    assert_eq!(judge_assertion_answer(&there, Ok(true)), Ok(true));
    assert_eq!(judge_assertion_answer(&gone, Ok(true)), Ok(false));
    assert_eq!(judge_assertion_answer(&gone, Ok(false)), Ok(true));
}
