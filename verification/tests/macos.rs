use cueflow::bitmap::{BmpImage, find_template_match};
use cueflow::definition::{
    AccessibilityTarget, Action, Coordinates, ImageRegion, ImageTarget, Platform, PlatformSelectors,
    Target, WaitCondition,
};
use cueflow::describe::{QuoteStyle, window_target_summary};
use cueflow::macos::adapter::MacOsDesktopAdapter;
use cueflow::run::RunConfig;

fn target_with_path_only_selector() -> Target {
    Target {
        app_name: Some("TextEdit".to_string()),
        process_name: None,
        window_title: Some("Untitled".to_string()),
        title_contains: None,
        url: None,
        file_path: None,
        accessibility: Some(AccessibilityTarget {
            id: None,
            name: None,
            control_type: None,
            path: Some(vec![0, 1]),
        }),
        image: None,
        coordinates: None,
        platform_selectors: PlatformSelectors::new(),
    }
}

fn target_with_image_selector() -> Target {
    Target {
        app_name: Some("TextEdit".to_string()),
        process_name: None,
        window_title: None,
        title_contains: None,
        url: None,
        file_path: None,
        accessibility: None,
        image: Some(ImageTarget {
            path: "examples/missing-image-target.bmp".to_string(),
            confidence: Some(100),
            region: Some(ImageRegion {
                left: 0,
                top: 0,
                width: 20,
                height: 20,
            }),
        }),
        coordinates: None,
        platform_selectors: PlatformSelectors::new(),
    }
}

#[test]
fn capabilities_report_macos_platform() {
    let capabilities = MacOsDesktopAdapter::capabilities(false);

    assert_eq!(capabilities.platform, Platform::MacOs);
    assert!(capabilities.supports_launch);
    assert!(capabilities.supports_focus);
    assert!(capabilities.supports_window_queries);
}

#[test]
fn preflight_rejects_path_only_semantic_targets_without_policy() {
    let adapter = MacOsDesktopAdapter { trusted: false };
    let diagnostics = adapter.preflight(
        &Action::ClickTarget {
            target: target_with_path_only_selector(),
        },
        &RunConfig {
            allow_path_only_selectors: false,
            ..RunConfig::default()
        },
    );

    assert!(diagnostics.iter().any(|diagnostic| {
        diagnostic.message.contains("allowPathOnlySelectors")
            || diagnostic.message.contains("Accessibility permission")
    }));
}

#[test]
fn preflight_rejects_coordinate_targets_without_policy() {
    let adapter = MacOsDesktopAdapter { trusted: false };
    let diagnostics = adapter.preflight(
        &Action::ClickTarget {
            target: Target {
                app_name: None,
                process_name: None,
                window_title: None,
                title_contains: None,
                url: None,
                file_path: None,
                accessibility: None,
                image: None,
                coordinates: Some(Coordinates { x: 10, y: 20 }),
                platform_selectors: PlatformSelectors::new(),
            },
        },
        &RunConfig::default(),
    );

    assert_eq!(diagnostics.len(), 1);
    assert!(diagnostics[0].message.contains("allowCoordinateTargets"));
}

#[test]
fn preflight_rejects_focus_without_accessibility_permission() {
    let adapter = MacOsDesktopAdapter { trusted: false };
    let diagnostics = adapter.preflight(
        &Action::FocusWindow {
            target: Target {
                app_name: None,
                process_name: None,
                window_title: None,
                title_contains: Some("Google".to_string()),
                url: None,
                file_path: None,
                accessibility: None,
                image: None,
                coordinates: None,
                platform_selectors: PlatformSelectors::new(),
            },
        },
        &RunConfig::default(),
    );

    assert_eq!(diagnostics.len(), 1);
    assert!(diagnostics[0].message.contains("Accessibility permission"));
}

#[test]
fn preflight_accepts_approved_image_targets() {
    let adapter = MacOsDesktopAdapter { trusted: false };
    let diagnostics = adapter.preflight(
        &Action::ClickTarget {
            target: target_with_image_selector(),
        },
        &RunConfig {
            allow_image_targets: true,
            allow_screenshot_capture: true,
            ..RunConfig::default()
        },
    );

    assert!(diagnostics.is_empty());
}

#[test]
fn preflight_rejects_process_queries_with_window_selectors() {
    let adapter = MacOsDesktopAdapter { trusted: false };
    let diagnostics = adapter.preflight(
        &Action::WaitFor {
            condition: WaitCondition::ProcessRunning {
                target: Target {
                    app_name: None,
                    process_name: Some("TextEdit".to_string()),
                    window_title: Some("Untitled".to_string()),
                    title_contains: None,
                    url: None,
                    file_path: None,
                    accessibility: None,
                    image: None,
                    coordinates: None,
                    platform_selectors: PlatformSelectors::new(),
                },
            },
        },
        &RunConfig::default(),
    );

    assert_eq!(diagnostics.len(), 1);
    assert!(
        diagnostics[0]
            .message
            .contains("processName or appName selectors")
    );
}

#[test]
fn visual_match_finds_bounded_template() {
    let screenshot = BmpImage {
        width: 3,
        height: 3,
        pixels: vec![
            0, 0, 0, 255, 1, 0, 0, 255, 2, 0, 0, 255, 3, 0, 0, 255, 4, 0, 0, 255, 5, 0, 0, 255,
            6, 0, 0, 255, 7, 0, 0, 255, 8, 0, 0, 255,
        ],
    };
    let template = BmpImage {
        width: 2,
        height: 2,
        pixels: vec![4, 0, 0, 255, 5, 0, 0, 255, 7, 0, 0, 255, 8, 0, 0, 255],
    };
    let image = ImageTarget {
        path: "unused.bmp".to_string(),
        confidence: Some(100),
        region: Some(ImageRegion {
            left: 1,
            top: 1,
            width: 2,
            height: 2,
        }),
    };

    let matched = find_template_match(&screenshot, &template, &image)
        .expect("match succeeds")
        .expect("template is found");

    assert_eq!(matched.left, 1);
    assert_eq!(matched.top, 1);
    assert_eq!(matched.confidence, 100);
}

#[test]
fn window_target_summary_includes_app_and_title() {
    let target = Target {
        app_name: Some("TextEdit".to_string()),
        process_name: None,
        window_title: Some("Untitled".to_string()),
        title_contains: None,
        url: None,
        file_path: None,
        accessibility: None,
        image: None,
        coordinates: None,
        platform_selectors: PlatformSelectors::new(),
    };

    assert_eq!(
        window_target_summary(QuoteStyle::Plain, &target),
        "windowTitle=\"Untitled\", appName=\"TextEdit\""
    );
}
