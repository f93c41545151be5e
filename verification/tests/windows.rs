use cueflow::accessibility::{AccessibilityBounds, SelectorConfidence, WindowIdentity};
use cueflow::adapter::{ConditionState, EvidencePhase, focus_denied_error, transient_error};
use cueflow::bitmap::{BmpImage, VisualMatch, find_template_match};
use cueflow::bmp_file::{BmpDepth, bmp_file_size, encode_bmp, parse_bmp_image};
use cueflow::collections::TextSet;
use cueflow::definition::{
    AccessibilityTarget, Action, Coordinates, ImageRegion, ImageTarget, Platform, PlatformSelector,
    PlatformSelectors, Target, WaitCondition,
};
use cueflow::describe::{format_accessibility_path, format_window_identity};
use cueflow::queries::{Query, judge_answer};
use cueflow::run::{FailureKind, RunConfig};
use cueflow::selectors::{selector_candidate_changes, selector_candidates};
use cueflow::windows::adapter::WindowsDesktopAdapter;
use cueflow::windows::tasks::{Task, judge_exit};
use cueflow::windows::titles::WindowTitleMatcher;

fn windows_selector(selector: PlatformSelector) -> PlatformSelectors {
    let mut selectors = PlatformSelectors::new();
    selectors.insert(Platform::Windows, selector);
    selectors
}

fn window_target_with_path_only_accessibility() -> Target {
    Target {
        app_name: None,
        process_name: None,
        window_title: Some("Cueflow Impossible Window".to_string()),
        title_contains: None,
        url: None,
        file_path: None,
        accessibility: Some(AccessibilityTarget {
            id: None,
            name: None,
            control_type: None,
            path: Some(Vec::new()),
        }),
        image: None,
        coordinates: None,
        platform_selectors: PlatformSelectors::new(),
    }
}

fn window_target_with_image(path: &str) -> Target {
    Target {
        app_name: None,
        process_name: None,
        window_title: Some("Settings".to_string()),
        title_contains: None,
        url: None,
        file_path: None,
        accessibility: None,
        image: Some(ImageTarget {
            path: path.to_string(),
            confidence: None,
            region: None,
        }),
        coordinates: None,
        platform_selectors: PlatformSelectors::new(),
    }
}

#[test]
fn windows_capabilities_expose_supported_and_gated_features() {
    let capabilities = WindowsDesktopAdapter::capabilities();

    assert_eq!(capabilities.platform, Platform::Windows);
    assert!(capabilities.supports_launch);
    assert!(capabilities.supports_focus);
    assert!(capabilities.supports_input);
    assert!(capabilities.supports_semantic_targets);
    assert!(capabilities.supports_coordinate_targets);
    assert!(capabilities.supports_process_queries);
}

#[test]
fn preflight_rejects_unscoped_accessibility_and_non_title_window_selectors() {
    let adapter = WindowsDesktopAdapter;
    let accessibility_target = Target {
        app_name: None,
        process_name: None,
        window_title: None,
        title_contains: None,
        url: None,
        file_path: None,
        accessibility: Some(AccessibilityTarget {
            id: Some("submit".to_string()),
            name: None,
            control_type: None,
            path: None,
        }),
        image: None,
        coordinates: None,
        platform_selectors: PlatformSelectors::new(),
    };
    let accessibility_diagnostics = adapter.preflight(
        &Action::ClickTarget {
            target: accessibility_target,
        },
        &RunConfig::default(),
    );
    assert_eq!(accessibility_diagnostics.len(), 1);

    let mut partial_target = Target::app("Browser".to_string());
    partial_target.window_title = Some("Demo".to_string());
    let selector_diagnostics = adapter.preflight(
        &Action::FocusWindow {
            target: partial_target,
        },
        &RunConfig::default(),
    );
    assert_eq!(selector_diagnostics.len(), 1);
}

#[test]
fn preflight_accepts_scoped_accessibility_targets() {
    let adapter = WindowsDesktopAdapter;
    let target = Target {
        app_name: None,
        process_name: None,
        window_title: Some("Settings".to_string()),
        title_contains: None,
        url: None,
        file_path: None,
        accessibility: Some(AccessibilityTarget {
            id: Some("submit".to_string()),
            name: Some("Submit".to_string()),
            control_type: Some("button".to_string()),
            path: None,
        }),
        image: None,
        coordinates: None,
        platform_selectors: PlatformSelectors::new(),
    };

    assert!(
        adapter
            .preflight(
                &Action::ClickTarget {
                    target: target.clone(),
                },
                &RunConfig::default(),
            )
            .is_empty()
    );
    assert_eq!(
        adapter
            .preflight(
                &Action::WaitFor {
                    condition: WaitCondition::WindowFocused {
                        target: target.clone(),
                    },
                },
                &RunConfig::default(),
            )
            .len(),
        0
    );
    for condition in [
        WaitCondition::TargetExists {
            target: target.clone(),
        },
        WaitCondition::TargetFocused {
            target: target.clone(),
        },
        WaitCondition::TargetEnabled {
            target: target.clone(),
        },
        WaitCondition::TargetVisible {
            target: target.clone(),
        },
        WaitCondition::TargetNameContains {
            target: target.clone(),
            text: "Ready".to_string(),
        },
        WaitCondition::TargetValueContains {
            target,
            text: "ready".to_string(),
        },
    ] {
        let config = RunConfig {
            allow_value_capture: true,
            ..RunConfig::default()
        };
        assert!(
            adapter
                .preflight(&Action::WaitFor { condition }, &config)
                .is_empty()
        );
    }
}

#[test]
fn preflight_accepts_targeted_key_chords_for_scoped_accessibility_targets() {
    let adapter = WindowsDesktopAdapter;
    let target = Target {
        app_name: None,
        process_name: None,
        window_title: Some("Settings".to_string()),
        title_contains: None,
        url: None,
        file_path: None,
        accessibility: Some(AccessibilityTarget {
            id: Some("search".to_string()),
            name: None,
            control_type: Some("edit".to_string()),
            path: None,
        }),
        image: None,
        coordinates: None,
        platform_selectors: PlatformSelectors::new(),
    };

    assert!(
        adapter
            .preflight(
                &Action::PressKey {
                    keys: "Ctrl+A".to_string(),
                    target: Some(target),
                },
                &RunConfig::default(),
            )
            .is_empty()
    );
}

#[test]
fn preflight_accepts_coordinate_only_clicks_as_last_resort_targets() {
    let adapter = WindowsDesktopAdapter;
    let config = RunConfig {
        allow_coordinate_targets: true,
        ..RunConfig::default()
    };
    assert!(
        adapter
            .preflight(
                &Action::ClickTarget {
                    target: Target {
                        app_name: None,
                        process_name: None,
                        window_title: None,
                        title_contains: None,
                        url: None,
                        file_path: None,
                        accessibility: None,
                        image: None,
                        coordinates: Some(Coordinates { x: 10, y: 20 }),
                        platform_selectors: PlatformSelectors::new(),
                    },
                },
                &config,
            )
            .is_empty()
    );
}

#[test]
fn preflight_rejects_ambiguous_coordinate_clicks() {
    let adapter = WindowsDesktopAdapter;
    let config = RunConfig {
        allow_coordinate_targets: true,
        ..RunConfig::default()
    };
    let diagnostics = adapter.preflight(
        &Action::ClickTarget {
            target: Target {
                app_name: None,
                process_name: None,
                window_title: Some("Settings".to_string()),
                title_contains: None,
                url: None,
                file_path: None,
                accessibility: None,
                image: None,
                coordinates: Some(Coordinates { x: 10, y: 20 }),
                platform_selectors: PlatformSelectors::new(),
            },
        },
        &config,
    );

    assert_eq!(diagnostics.len(), 1);
    assert_eq!(
        diagnostics[0].message,
        "Windows coordinate clicks currently support only absolute screen coordinates"
    );
}

#[test]
fn preflight_rejects_launch_targets_with_image_selectors() {
    let adapter = WindowsDesktopAdapter;
    let diagnostics = adapter.preflight(
        &Action::LaunchApp {
            app: "ms-settings:".to_string(),
            target: Some(Target {
                app_name: None,
                process_name: None,
                window_title: Some("Settings".to_string()),
                title_contains: None,
                url: None,
                file_path: None,
                accessibility: None,
                image: Some(ImageTarget {
                    path: "fixtures/settings-search.bmp".to_string(),
                    confidence: None,
                    region: None,
                }),
                coordinates: None,
                platform_selectors: PlatformSelectors::new(),
            }),
        },
        &RunConfig::default(),
    );

    assert_eq!(diagnostics.len(), 1);
    assert_eq!(
        diagnostics[0].message,
        "image targets require explicit allowImageTargets approval"
    );
}

#[test]
fn preflight_accepts_image_target_exists_only_with_visual_policy() {
    let adapter = WindowsDesktopAdapter;
    let action = Action::WaitFor {
        condition: WaitCondition::TargetExists {
            target: window_target_with_image("fixtures/settings-search.bmp"),
        },
    };

    let default_diagnostics = adapter.preflight(&action, &RunConfig::default());
    assert_eq!(default_diagnostics.len(), 1);
    assert_eq!(
        default_diagnostics[0].message,
        "image targets require explicit allowImageTargets approval"
    );

    let missing_screenshot_policy = RunConfig {
        allow_image_targets: true,
        ..RunConfig::default()
    };
    let missing_screenshot_diagnostics = adapter.preflight(&action, &missing_screenshot_policy);
    assert_eq!(missing_screenshot_diagnostics.len(), 1);
    assert_eq!(
        missing_screenshot_diagnostics[0].message,
        "image target matching requires explicit allowScreenshotCapture approval"
    );

    let visual_policy = RunConfig {
        allow_image_targets: true,
        allow_screenshot_capture: true,
        ..RunConfig::default()
    };
    assert!(adapter.preflight(&action, &visual_policy).is_empty());
}

#[test]
fn preflight_rejects_open_file_targets_with_image_selectors() {
    let adapter = WindowsDesktopAdapter;
    let diagnostics = adapter.preflight(
        &Action::OpenFile {
            path: "C:\\Windows\\System32\\notepad.exe".to_string(),
            target: Some(Target {
                app_name: None,
                process_name: None,
                window_title: Some("Untitled - Notepad".to_string()),
                title_contains: None,
                url: None,
                file_path: None,
                accessibility: None,
                image: Some(ImageTarget {
                    path: "fixtures/notepad.bmp".to_string(),
                    confidence: None,
                    region: None,
                }),
                coordinates: None,
                platform_selectors: PlatformSelectors::new(),
            }),
        },
        &RunConfig::default(),
    );

    assert_eq!(diagnostics.len(), 1);
    assert_eq!(
        diagnostics[0].message,
        "image targets require explicit allowImageTargets approval"
    );
}

#[test]
fn direct_execute_rejects_launch_targets_with_image_selectors_before_opening() {
    let adapter = WindowsDesktopAdapter;
    let error = adapter
        .execute(
            &Action::LaunchUrl {
                url: "cueflow-test-do-not-open:".to_string(),
                target: Some(Target {
                    app_name: None,
                    process_name: None,
                    window_title: Some("Cueflow Impossible Window".to_string()),
                    title_contains: None,
                    url: None,
                    file_path: None,
                    accessibility: None,
                    image: Some(ImageTarget {
                        path: "fixtures/impossible.bmp".to_string(),
                        confidence: None,
                        region: None,
                    }),
                    coordinates: None,
                    platform_selectors: PlatformSelectors::new(),
                }),
            },
            &RunConfig::default(),
        )
        .expect_err("image launch target is policy denied before shell open");

    assert_eq!(error.failure_kind(), Some(FailureKind::PolicyDenied));
    assert_eq!(
        error.message(),
        "image targets require explicit allowImageTargets approval"
    );
}

#[test]
fn direct_execute_rejects_open_file_targets_with_image_selectors_before_opening() {
    let adapter = WindowsDesktopAdapter;
    let error = adapter
        .execute(
            &Action::OpenFile {
                path: "C:\\cueflow\\missing-file-that-must-not-open.txt".to_string(),
                target: Some(Target {
                    app_name: None,
                    process_name: None,
                    window_title: Some("Cueflow Impossible Window".to_string()),
                    title_contains: None,
                    url: None,
                    file_path: None,
                    accessibility: None,
                    image: Some(ImageTarget {
                        path: "fixtures/impossible.bmp".to_string(),
                        confidence: None,
                        region: None,
                    }),
                    coordinates: None,
                    platform_selectors: PlatformSelectors::new(),
                }),
            },
            &RunConfig::default(),
        )
        .expect_err("image open-file target is policy denied before shell open");

    assert_eq!(error.failure_kind(), Some(FailureKind::PolicyDenied));
    assert_eq!(
        error.message(),
        "image targets require explicit allowImageTargets approval"
    );
}

#[test]
fn direct_execute_rejects_accessibility_bearing_window_targets_before_side_effects() {
    let adapter = WindowsDesktopAdapter;

    let launch_error = adapter
        .execute(
            &Action::LaunchUrl {
                url: "cueflow-test-do-not-open:".to_string(),
                target: Some(window_target_with_path_only_accessibility()),
            },
            &RunConfig::default(),
        )
        .expect_err("launch window target cannot carry accessibility selectors");
    let open_file_error = adapter
        .execute(
            &Action::OpenFile {
                path: "C:\\cueflow\\missing-file-that-must-not-open.txt".to_string(),
                target: Some(window_target_with_path_only_accessibility()),
            },
            &RunConfig::default(),
        )
        .expect_err("open-file window target cannot carry accessibility selectors");
    let focus_error = adapter
        .execute(
            &Action::FocusWindow {
                target: window_target_with_path_only_accessibility(),
            },
            &RunConfig::default(),
        )
        .expect_err("focus window target cannot carry accessibility selectors");

    for error in [launch_error, open_file_error, focus_error] {
        assert_eq!(error.failure_kind(), Some(FailureKind::PolicyDenied));
        assert_eq!(
            error.message(),
            "Windows window queries currently support only a windowTitle or titleContains selector"
        );
    }
}

#[test]
fn direct_execute_rejects_path_only_semantic_targets_before_resolving() {
    let adapter = WindowsDesktopAdapter;
    let error = adapter
        .execute(
            &Action::TypeText {
                text: "should-not-type".to_string(),
                target: Some(Target {
                    app_name: None,
                    process_name: None,
                    window_title: Some("Cueflow Impossible Window".to_string()),
                    title_contains: None,
                    url: None,
                    file_path: None,
                    accessibility: Some(AccessibilityTarget {
                        id: None,
                        name: None,
                        control_type: None,
                        path: Some(Vec::new()),
                    }),
                    image: None,
                    coordinates: None,
                    platform_selectors: PlatformSelectors::new(),
                }),
            },
            &RunConfig::default(),
        )
        .expect_err("path-only semantic target is policy denied before UIA lookup");

    assert_eq!(error.failure_kind(), Some(FailureKind::PolicyDenied));
    assert_eq!(
        error.message(),
        "path-only accessibility selectors require explicit allowPathOnlySelectors approval"
    );
}

#[test]
fn trait_invoke_rejects_image_targets_before_uia_lookup() {
    let adapter = WindowsDesktopAdapter;
    let error = adapter
        .invoke_target(
            &Target {
                app_name: None,
                process_name: None,
                window_title: Some("Cueflow Impossible Window".to_string()),
                title_contains: None,
                url: None,
                file_path: None,
                accessibility: Some(AccessibilityTarget {
                    id: Some("submit".to_string()),
                    name: None,
                    control_type: None,
                    path: None,
                }),
                image: Some(ImageTarget {
                    path: "fixtures/impossible.bmp".to_string(),
                    confidence: None,
                    region: None,
                }),
                coordinates: None,
                platform_selectors: PlatformSelectors::new(),
            },
            &RunConfig::default(),
        )
        .expect_err("image target is policy denied before UIA lookup");

    assert_eq!(error.failure_kind(), Some(FailureKind::PolicyDenied));
    assert_eq!(
        error.message(),
        "image targets require explicit allowImageTargets approval"
    );
}

#[test]
fn trait_text_and_scroll_reject_path_only_targets_before_uia_lookup() {
    let adapter = WindowsDesktopAdapter;
    let target = Target {
        app_name: None,
        process_name: None,
        window_title: Some("Cueflow Impossible Window".to_string()),
        title_contains: None,
        url: None,
        file_path: None,
        accessibility: Some(AccessibilityTarget {
            id: None,
            name: None,
            control_type: None,
            path: Some(Vec::new()),
        }),
        image: None,
        coordinates: None,
        platform_selectors: PlatformSelectors::new(),
    };

    let text_error = adapter
        .set_target_text(&target, "should-not-type", &RunConfig::default())
        .expect_err("path-only text target is policy denied before UIA lookup");
    let scroll_error = adapter
        .scroll_target(&target, 0, 1, &RunConfig::default())
        .expect_err("path-only scroll target is policy denied before UIA lookup");

    assert_eq!(text_error.failure_kind(), Some(FailureKind::PolicyDenied));
    assert_eq!(scroll_error.failure_kind(), Some(FailureKind::PolicyDenied));
    assert_eq!(
        text_error.message(),
        "path-only accessibility selectors require explicit allowPathOnlySelectors approval"
    );
    assert_eq!(
        scroll_error.message(),
        "path-only accessibility selectors require explicit allowPathOnlySelectors approval"
    );
}

#[test]
fn capture_step_evidence_rejects_policy_denied_targets_before_writing_files() {
    let adapter = WindowsDesktopAdapter;
    let config = RunConfig {
        capture_step_evidence: true,
        evidence_directory: Some("C:\\cueflow\\must-not-be-created".to_string()),
        ..RunConfig::default()
    };
    let error = adapter
        .capture_step_evidence(
            EvidencePhase::Before,
            &Action::ClickTarget {
                target: Target {
                    app_name: None,
                    process_name: None,
                    window_title: Some("Cueflow Impossible Window".to_string()),
                    title_contains: None,
                    url: None,
                    file_path: None,
                    accessibility: Some(AccessibilityTarget {
                        id: Some("submit".to_string()),
                        name: None,
                        control_type: None,
                        path: None,
                    }),
                    image: Some(ImageTarget {
                        path: "fixtures/impossible.bmp".to_string(),
                        confidence: None,
                        region: None,
                    }),
                    coordinates: None,
                    platform_selectors: PlatformSelectors::new(),
                },
            },
            &config,
            "run-test",
            "automation-test",
            "step-test",
        )
        .expect_err("policy-denied evidence target is rejected before file writes");

    assert_eq!(error.failure_kind(), Some(FailureKind::PolicyDenied));
    assert_eq!(
        error.message(),
        "image targets require explicit allowImageTargets approval"
    );
}

#[test]
fn capture_step_evidence_rejects_accessibility_bearing_window_targets_before_writing_files() {
    let adapter = WindowsDesktopAdapter;
    let config = RunConfig {
        capture_step_evidence: true,
        evidence_directory: Some("C:\\cueflow\\must-not-be-created".to_string()),
        ..RunConfig::default()
    };
    let error = adapter
        .capture_step_evidence(
            EvidencePhase::Before,
            &Action::FocusWindow {
                target: window_target_with_path_only_accessibility(),
            },
            &config,
            "run-test",
            "automation-test",
            "step-test",
        )
        .expect_err("accessibility-bearing window target is rejected before file writes");

    assert_eq!(error.failure_kind(), Some(FailureKind::PolicyDenied));
    assert_eq!(
        error.message(),
        "Windows window queries currently support only a windowTitle or titleContains selector"
    );
}

#[test]
fn preflight_rejects_targeted_key_chords_without_accessibility_scope() {
    let adapter = WindowsDesktopAdapter;
    let diagnostics = adapter.preflight(
        &Action::PressKey {
            keys: "Ctrl+A".to_string(),
            target: Some(Target {
                app_name: None,
                process_name: None,
                window_title: Some("Settings".to_string()),
                title_contains: None,
                url: None,
                file_path: None,
                accessibility: None,
                image: None,
                coordinates: None,
                platform_selectors: PlatformSelectors::new(),
            }),
        },
        &RunConfig::default(),
    );

    assert_eq!(diagnostics.len(), 1);
    assert_eq!(diagnostics[0].code, "capability-unavailable");
    assert_eq!(
        diagnostics[0].message,
        "semantic target operations require an accessibility selector"
    );
}

#[test]
fn process_queries_require_an_exact_process_name_selector() {
    let adapter = WindowsDesktopAdapter;
    let valid_target = Target {
        app_name: None,
        process_name: Some("msedge.exe".to_string()),
        window_title: None,
        title_contains: None,
        url: None,
        file_path: None,
        accessibility: None,
        image: None,
        coordinates: None,
        platform_selectors: PlatformSelectors::new(),
    };
    let valid_action = Action::WaitFor {
        condition: WaitCondition::ProcessRunning {
            target: valid_target.clone(),
        },
    };
    assert!(
        adapter
            .preflight(&valid_action, &RunConfig::default())
            .is_empty()
    );

    let mut invalid_target = valid_target;
    invalid_target.window_title = Some("Edge".to_string());
    let invalid_action = Action::WaitFor {
        condition: WaitCondition::ProcessRunning {
            target: invalid_target,
        },
    };
    assert_eq!(
        adapter
            .preflight(&invalid_action, &RunConfig::default())
            .len(),
        1
    );
}

#[test]
fn commands_require_explicit_approval_and_run_without_shell_interpolation() {
    let adapter = WindowsDesktopAdapter;
    let action = Action::RunCommand {
        command: "cmd.exe".to_string(),
        args: vec!["/c".to_string(), "exit".to_string(), "0".to_string()],
    };
    let unapproved = RunConfig::default();
    assert_eq!(adapter.preflight(&action, &unapproved).len(), 1);

    let mut approved = TextSet::new();
    approved.insert("cmd.exe".to_string());
    let approved = RunConfig {
        dry_run: false,
        approved_commands: approved,
        ..RunConfig::default()
    };
    assert!(adapter.preflight(&action, &approved).is_empty());
    let task = adapter
        .execute(&action, &approved)
        .expect("approved command succeeds");
    assert!(matches!(
        task,
        Task::RunCommand { command, args }
            if command == "cmd.exe" && args == vec!["/c", "exit", "0"]
    ));
    assert!(judge_exit(true).is_ok());
    let condition = WaitCondition::CommandExits {
        command: "cmd.exe".to_string(),
        args: vec!["/c".to_string(), "exit".to_string(), "0".to_string()],
    };
    assert!(matches!(
        adapter.evaluate_wait(&condition, &approved),
        Ok(Some(Query::CommandSucceeds { command, args }))
            if command == "cmd.exe" && args == vec!["/c", "exit", "0"]
    ));
    assert_eq!(
        judge_answer(&condition, Ok(true)).expect("approved command condition evaluates"),
        ConditionState::Satisfied
    );
}

#[test]
fn window_title_matchers_are_case_insensitive() {
    assert!(
        WindowTitleMatcher::Exact("Google - Microsoft Edge").matches("google - microsoft edge")
    );
    assert!(WindowTitleMatcher::Contains("Microsoft Edge").matches("Google - Microsoft Edge"));
    assert!(
        WindowTitleMatcher::Contains("Microsoft Edge")
            .matches("New tab - Microsoft\u{200B} Edge")
    );
    assert!(!WindowTitleMatcher::Contains("Firefox").matches("Google - Microsoft Edge"));
}

#[test]
fn window_identity_diagnostics_include_environment_state() {
    let identity = WindowIdentity {
        handle: "HWND(0x2a)".to_string(),
        title: "Save As".to_string(),
        class_name: "#32770".to_string(),
        process_id: 42,
        process_name: Some("notepad.exe".to_string()),
        bounds: Some(AccessibilityBounds {
            left: -10,
            top: 20,
            right: 640,
            bottom: 480,
        }),
        is_foreground: false,
        is_minimized: true,
        owner: Some("HWND(0x10)".to_string()),
    };

    let diagnostic = format_window_identity(&identity);

    assert!(diagnostic.contains("bounds=-10,20,640,480"));
    assert!(diagnostic.contains("foreground=false"));
    assert!(diagnostic.contains("minimized=true"));
    assert!(diagnostic.contains("owner=HWND(0x10)"));
    assert!(diagnostic.contains("process=\"notepad.exe\""));
}

#[test]
fn accessibility_paths_use_root_and_child_index_notation() {
    assert_eq!(format_accessibility_path(&vec![]), "[]");
    assert_eq!(format_accessibility_path(&vec![0, 12, 3]), "[0,12,3]");
}

#[test]
fn selector_candidates_prefer_stable_identifiers_before_paths() {
    let candidates = selector_candidates("Demo", &vec![2, 1], "submitButton", "Submit", "button");

    assert_eq!(candidates.len(), 4);
    assert_eq!(candidates[0].confidence, SelectorConfidence::High);
    assert_eq!(candidates[0].score, 95);
    assert_eq!(
        candidates[0]
            .target
            .accessibility
            .as_ref()
            .unwrap()
            .id
            .as_deref(),
        Some("submitButton")
    );
    assert_eq!(candidates[2].confidence, SelectorConfidence::Medium);
    assert_eq!(candidates[3].confidence, SelectorConfidence::Low);
    assert_eq!(
        candidates[3].target.accessibility.as_ref().unwrap().path,
        Some(vec![2, 1])
    );
    assert_eq!(
        candidates[3].warnings,
        vec!["Path-only selectors are positional and should be treated as fragile."]
    );
}

#[test]
fn selector_repair_changes_explain_candidate_differences() {
    let original = AccessibilityTarget {
        id: Some("oldButton".to_string()),
        name: Some("Old".to_string()),
        control_type: Some("button".to_string()),
        path: Some(vec![0, 1]),
    };
    let repaired = AccessibilityTarget {
        id: Some("submitButton".to_string()),
        name: None,
        control_type: Some("button".to_string()),
        path: Some(vec![2, 1]),
    };

    let changes = selector_candidate_changes(Platform::Windows, &Some(original), &Some(repaired));

    assert_eq!(
        changes,
        vec![
            "id: \"oldButton\" -> \"submitButton\"",
            "name: \"Old\" -> none",
            "path: [0,1] -> [2,1]",
        ]
    );
}

#[test]
fn write_bmp_emits_top_down_32bpp_bitmap() {
    let pixels = vec![0x11, 0x22, 0x33, 0x44, 0x55, 0x66, 0x77, 0x88];

    let bytes = encode_bmp(2, 1, &pixels);

    assert_eq!(&bytes[0..2], b"BM");
    assert_eq!(u32::from_le_bytes(bytes[10..14].try_into().unwrap()), 54);
    assert_eq!(u32::from_le_bytes(bytes[14..18].try_into().unwrap()), 40);
    assert_eq!(i32::from_le_bytes(bytes[18..22].try_into().unwrap()), 2);
    assert_eq!(i32::from_le_bytes(bytes[22..26].try_into().unwrap()), -1);
    assert_eq!(u16::from_le_bytes(bytes[28..30].try_into().unwrap()), 32);
    assert_eq!(&bytes[54..], &pixels);
}

#[test]
fn bmp_reader_round_trips_top_down_32bpp_bitmaps() {
    let pixels = vec![
        0x01, 0x02, 0x03, 0xff, 0x04, 0x05, 0x06, 0xff, 0x07, 0x08, 0x09, 0xff, 0x0a, 0x0b, 0x0c,
        0xff,
    ];

    let bytes = encode_bmp(2, 2, &pixels);
    let image = parse_bmp_image(&bytes, BmpDepth::Only32).expect("bmp reads");

    assert_eq!(image.width, 2);
    assert_eq!(image.height, 2);
    assert_eq!(image.pixels, pixels);
}

#[test]
fn visual_template_match_respects_region_and_confidence() {
    let screenshot = BmpImage {
        width: 3,
        height: 3,
        pixels: vec![
            0, 0, 0, 255, 1, 1, 1, 255, 2, 2, 2, 255, 3, 3, 3, 255, 9, 9, 9, 255, 8, 8, 8, 255,
            4, 4, 4, 255, 7, 7, 7, 255, 6, 6, 6, 255,
        ],
    };
    let template = BmpImage {
        width: 2,
        height: 2,
        pixels: vec![9, 9, 9, 255, 8, 8, 8, 255, 7, 7, 7, 255, 6, 6, 6, 255],
    };
    let image = ImageTarget {
        path: "template.bmp".to_string(),
        confidence: Some(100),
        region: Some(ImageRegion {
            left: 1,
            top: 1,
            width: 2,
            height: 2,
        }),
    };

    let matched = find_template_match(&screenshot, &template, &image)
        .expect("search succeeds")
        .expect("match");

    assert_eq!(
        matched,
        VisualMatch {
            left: 1,
            top: 1,
            width: 2,
            height: 2,
            confidence: 100,
        }
    );
}

#[test]
fn visual_template_match_ignores_alpha_channel() {
    let screenshot = BmpImage {
        width: 1,
        height: 1,
        pixels: vec![10, 20, 30, 0],
    };
    let template = BmpImage {
        width: 1,
        height: 1,
        pixels: vec![10, 20, 30, 255],
    };
    let image = ImageTarget {
        path: "template.bmp".to_string(),
        confidence: Some(100),
        region: None,
    };

    let matched = find_template_match(&screenshot, &template, &image)
        .expect("search succeeds")
        .expect("match ignores alpha");

    assert_eq!(matched.confidence, 100);
}

#[test]
fn visual_template_match_requires_bounded_search_budget() {
    let screenshot = BmpImage {
        width: 8_000,
        height: 8_000,
        pixels: Vec::new(),
    };
    let template = BmpImage {
        width: 100,
        height: 100,
        pixels: Vec::new(),
    };
    let image = ImageTarget {
        path: "template.bmp".to_string(),
        confidence: Some(100),
        region: None,
    };

    let error = find_template_match(&screenshot, &template, &image)
        .expect_err("unbounded large search is rejected");

    assert_eq!(
        error.message(),
        "image target search is too large; provide a bounded image region or smaller template"
    );
}

#[test]
fn bmp_file_size_matches_32bpp_header_and_pixels() {
    assert_eq!(bmp_file_size(2, 1).expect("size"), 62);
}

#[test]
fn typed_windows_error_helpers_attach_failure_kinds() {
    let transient = transient_error("temporary Windows failure".to_string());
    let focus = focus_denied_error("foreground denied".to_string());

    assert_eq!(transient.failure_kind(), Some(FailureKind::Transient));
    assert_eq!(focus.failure_kind(), Some(FailureKind::FocusDenied));
    assert_eq!(transient.diagnostics(), Some("failureKind=transient"));
    assert_eq!(focus.diagnostics(), Some("failureKind=focusDenied"));
}

#[test]
fn preflight_accepts_a_title_contains_window_selector() {
    let adapter = WindowsDesktopAdapter;
    let action = Action::FocusWindow {
        target: Target {
            app_name: None,
            process_name: None,
            window_title: None,
            title_contains: Some("Microsoft Edge".to_string()),
            url: None,
            file_path: None,
            accessibility: None,
            image: None,
            coordinates: None,
            platform_selectors: PlatformSelectors::new(),
        },
    };

    assert!(adapter.preflight(&action, &RunConfig::default()).is_empty());
}

#[test]
fn preflight_accepts_a_resolved_windows_window_title_selector() {
    let adapter = WindowsDesktopAdapter;
    let action = Action::FocusWindow {
        target: Target {
            app_name: Some("Browser".to_string()),
            process_name: None,
            window_title: None,
            title_contains: Some("Google".to_string()),
            url: None,
            file_path: None,
            accessibility: None,
            image: None,
            coordinates: None,
            platform_selectors: windows_selector(PlatformSelector {
                process_name: None,
                window_title: Some("Google".to_string()),
                accessibility_query: None,
                command_hint: None,
            }),
        },
    }
    .for_platform(Some(Platform::Windows));

    assert!(adapter.preflight(&action, &RunConfig::default()).is_empty());
}
