use cueflow::macos::desktop::process_listed as mac_process_listed;
use cueflow::macos::keys::key_chord as chord_on_a_mac;
use cueflow::macos::search::find_semantic_target as find_on_a_mac;
use cueflow::windows::keys::key_chord as chord_on_windows;
use cueflow::windows::search::find_semantic_target as find_on_windows;
use cueflow::accessibility::{AccessibilityBounds, AccessibilityPoint};
use cueflow::adapter::{AdapterError, EvidencePhase};
use cueflow::bitmap::{BmpImage, VisualMatch, find_template_match, template_confidence};
use cueflow::bmp_file::{BmpDepth, encode_bmp, parse_bmp_image};
use cueflow::codec::inspection::encode_repair;
use cueflow::definition::{AccessibilityTarget, Action, ImageTarget, PlatformSelectors, Target};
use cueflow::describe::{QuoteStyle, quote, safe_artifact_component};
use cueflow::elements::{Element, ElementFacts, Unlisted};
use cueflow::keys::{KeyEvent, text_events, utf16_units};
use cueflow::looking::{frontmost_name, image_click_point, temp_file_name};
use cueflow::macos::adapter::MacOsDesktopAdapter;
use cueflow::macos::desktop::{invoke_action, scroll_action};
use cueflow::macos::keys::scroll_lines;
use cueflow::run::{FailureKind, RunConfig};
use cueflow::value::Json;
use cueflow::windows::adapter::{ShownWindow, WindowsDesktopAdapter};
use cueflow::windows::keys::{ScrollAmount, scroll_amount};
use cueflow::windows::search::ensure_semantic_target_actionable;
use cueflow::windows::titles::{SeenWindow, WindowTitleMatcher, find_window};

fn facts(id: &str, name: &str, control_type: &str) -> ElementFacts {
    ElementFacts {
        automation_id: Some(id.to_string()),
        name: Some(name.to_string()),
        control_type: Some(control_type.to_string()),
        class_name: "Class".to_string(),
        subrole: String::new(),
        bounds: Some(AccessibilityBounds {
            left: 0,
            top: 0,
            right: 10,
            bottom: 20,
        }),
        enabled: Some(true),
        offscreen: Some(false),
        keyboard_focusable: Some(true),
        has_keyboard_focus: Some(false),
        password: Some(false),
        value: Some("secret words".to_string()),
        actions: Vec::new(),
    }
}

fn leaf(id: &str, name: &str) -> Element {
    Element {
        facts: facts(id, name, "button"),
        children: Ok(Vec::new()),
    }
}

fn window(children: Vec<Element>) -> Element {
    Element {
        facts: facts("root", "Demo", "window"),
        children: Ok(children.into_iter().map(Some).collect()),
    }
}

fn target(id: Option<&str>, path: Option<Vec<u32>>) -> Target {
    Target {
        app_name: None,
        process_name: None,
        window_title: Some("Demo".to_string()),
        title_contains: None,
        url: None,
        file_path: None,
        accessibility: Some(AccessibilityTarget {
            id: id.map(str::to_string),
            name: None,
            control_type: None,
            path,
        }),
        image: None,
        coordinates: None,
        platform_selectors: PlatformSelectors::new(),
    }
}

fn shown(root: Element) -> ShownWindow {
    ShownWindow {
        title: "Demo".to_string(),
        identity: None,
        root,
    }
}

#[test]
fn the_only_matching_element_is_found_by_its_path() {
    let root = window(vec![leaf("cancel", "Cancel"), leaf("submit", "Submit")]);
    let found = find_on_windows(&target(Some("submit"), None), &root);
    assert_eq!(found.expect("it is there"), vec![1]);
    let found = find_on_a_mac(&target(Some("submit"), None), &root);
    assert_eq!(found.expect("it is there"), vec![1]);
    let by_path = find_on_windows(&target(None, Some(vec![0])), &root);
    assert_eq!(by_path.expect("it is there"), vec![0]);
}

#[test]
fn absent_and_ambiguous_elements_are_told_apart() {
    let root = window(vec![leaf("submit", "One"), leaf("submit", "Two")]);
    let ambiguous = find_on_windows(&target(Some("submit"), None), &root).expect_err("two match");
    assert_eq!(ambiguous.failure_kind(), Some(FailureKind::Ambiguous));
    let absent = find_on_windows(&target(Some("missing"), None), &root).expect_err("none matches");
    assert_eq!(absent.failure_kind(), Some(FailureKind::NotFound));
    let ambiguous = find_on_a_mac(&target(Some("submit"), None), &root).expect_err("two match");
    assert_eq!(ambiguous.failure_kind(), Some(FailureKind::Ambiguous));
    let absent = find_on_a_mac(&target(Some("missing"), None), &root).expect_err("none matches");
    assert_eq!(absent.failure_kind(), Some(FailureKind::NotFound));
    let beyond = find_on_windows(&target(None, Some(vec![7])), &root).expect_err("no such child");
    assert_eq!(beyond.failure_kind(), Some(FailureKind::NotFound));
}

#[test]
fn an_element_has_to_be_enabled_and_on_screen_to_be_used() {
    let ready = facts("submit", "Submit", "button");
    assert!(ensure_semantic_target_actionable(&ready).is_ok());
    let mut disabled = facts("submit", "Submit", "button");
    disabled.enabled = Some(false);
    assert_eq!(
        ensure_semantic_target_actionable(&disabled)
            .expect_err("it is disabled")
            .failure_kind(),
        Some(FailureKind::Disabled)
    );
    let mut hidden = facts("submit", "Submit", "button");
    hidden.offscreen = Some(true);
    assert_eq!(
        ensure_semantic_target_actionable(&hidden)
            .expect_err("it is off screen")
            .failure_kind(),
        Some(FailureKind::Offscreen)
    );
}

#[test]
fn an_inspection_stops_at_its_limits() {
    let adapter = WindowsDesktopAdapter;
    let root = window(vec![leaf("a", "A"), leaf("b", "B"), leaf("c", "C")]);
    let tree = adapter.inspect_window(&target(None, None), shown(root), 4, 3);
    assert_eq!(tree.max_nodes, 3);
    assert!(tree.truncated);
    assert_eq!(tree.root.children.len(), 2);
    let root = window(vec![leaf("a", "A")]);
    let tree = adapter.inspect_window(&target(None, None), shown(root), 0, 0);
    assert_eq!(tree.max_nodes, 1);
    assert_eq!(tree.root.children.len(), 0);
    assert_eq!(tree.root.click_point, Some(AccessibilityPoint { x: 5, y: 10 }));
    assert_eq!(tree.selector, "windowTitle=\"Demo\"");
}

#[test]
fn values_are_shown_only_when_asked_for_and_never_of_passwords() {
    let adapter = WindowsDesktopAdapter;
    let without = adapter.inspect_window(&target(None, None), shown(leaf("a", "A")), 1, 5);
    assert_eq!(without.root.value, None);
    let with = adapter.inspect_window_with_options(
        &target(None, None),
        shown(leaf("a", "A")),
        1,
        5,
        true,
    );
    assert_eq!(with.root.value.as_deref(), Some("secret words"));
    let mut password = leaf("a", "A");
    password.facts.password = Some(true);
    let hidden =
        adapter.inspect_window_with_options(&target(None, None), shown(password), 1, 5, true);
    assert_eq!(hidden.root.value, None);
}

#[test]
fn a_mac_shows_nothing_without_permission() {
    let adapter = MacOsDesktopAdapter { trusted: false };
    let error = adapter
        .inspect_window(&target(None, None), shown(leaf("a", "A")), 1, 5)
        .expect_err("there is no permission");
    assert_eq!(
        error.message(),
        "macOS Accessibility permission is required for semantic automation"
    );
    assert_eq!(
        error.failure_kind(),
        Some(FailureKind::CapabilityUnavailable)
    );
}

#[test]
fn repairs_are_ranked_and_name_no_target_twice() {
    let adapter = WindowsDesktopAdapter;
    let root = window(vec![leaf("submitButton", "Submit"), leaf("submitLink", "Submit")]);
    let tree = adapter.inspect_window(&target(None, None), shown(root), 4, 50);
    let report = adapter.repair_selector(&target(Some("submitOld"), None), &tree, &Ok(false));
    assert!(!report.matched);
    assert!(report.candidates.len() <= 20);
    for pair in report.candidates.windows(2) {
        assert!(pair[0].score >= pair[1].score);
    }
    for (i, candidate) in report.candidates.iter().enumerate() {
        assert!(report.candidates[..i]
            .iter()
            .all(|earlier| earlier.target != candidate.target));
    }
    let record = encode_repair(&report);
    assert_eq!(record.get("matched"), Some(&Json::Bool(false)));
}

#[test]
fn windows_are_found_by_title_whatever_its_case_and_spacing() {
    let seen = |title: &str| SeenWindow {
        title: title.to_string(),
        identity: None,
    };
    let windows = vec![seen("Inbox"), seen("demo \u{200B}  READY")];
    let mut wanted = target(None, None);
    wanted.window_title = Some("Demo Ready".to_string());
    assert_eq!(find_window(&wanted, &windows).expect("it is there"), 1);
    wanted.window_title = Some("Elsewhere".to_string());
    let error = find_window(&wanted, &windows).expect_err("it is not there");
    assert_eq!(error.message(), "requested window was not found");
    assert!(error.diagnostics().expect("there is a reason").starts_with(
        "failureKind=notFound; selector: windowTitle=\"Elsewhere\"; visible window matches: none"
    ));
    wanted.window_title = None;
    wanted.title_contains = Some("o".to_string());
    let several = vec![seen("One"), seen("Two")];
    assert_eq!(
        find_window(&wanted, &several)
            .expect_err("both match")
            .failure_kind(),
        Some(FailureKind::Ambiguous)
    );
    wanted.title_contains = None;
    assert_eq!(
        find_window(&wanted, &windows).expect_err("no title").message(),
        "Windows window queries require windowTitle or titleContains"
    );
}

#[test]
fn titles_in_other_scripts_are_compared_without_their_case() {
    assert!(WindowTitleMatcher::Contains("\u{00C4}RGER").matches("Gro\u{00DF}er \u{00E4}rger"));
    assert!(!WindowTitleMatcher::Contains("\u{00C4}RGER").matches("arger"));
}

#[test]
fn descriptions_quote_what_they_name() {
    assert_eq!(quote(QuoteStyle::Literal, "a\"b\n"), "\"a\\\"b\\n\"");
    assert_eq!(safe_artifact_component("step 1/../x"), "step-1-..-x");
}

#[test]
fn chords_press_and_lift_each_key() {
    let events = chord_on_windows("Ctrl+Shift+A").expect("it is a chord");
    assert_eq!(events.len(), 6);
    assert_eq!(events[2], KeyEvent { code: 0x41, up: false });
    assert_eq!(events[3], KeyEvent { code: 0x41, up: true });
    assert_eq!(events[0].code, events[5].code);
    assert!(!events[0].up && events[5].up);
    assert_eq!(
        chord_on_windows("Hyper+A").expect_err("no such modifier").message(),
        "key chord contains an unsupported modifier"
    );
    assert_eq!(
        chord_on_windows("Ctrl+Unknown").expect_err("no such key").message(),
        "key chord contains an unsupported key"
    );
    let press = chord_on_a_mac("Cmd+Shift+A").expect("it is a chord");
    assert_eq!(press.code, 0);
    assert_eq!(press.flags, 0x10_0000 | 0x2_0000);
}

#[test]
fn text_is_typed_in_utf16() {
    assert_eq!(utf16_units("a\u{1F600}"), vec![0x61, 0xD83D, 0xDE00]);
    let events = text_events("hi");
    assert_eq!(
        events,
        vec![
            KeyEvent { code: 0x68, up: false },
            KeyEvent { code: 0x68, up: true },
            KeyEvent { code: 0x69, up: false },
            KeyEvent { code: 0x69, up: true },
        ]
    );
}

#[test]
fn scrolls_have_a_direction_and_a_limit() {
    assert_eq!(scroll_amount(-3), ScrollAmount::SmallDecrement);
    assert_eq!(scroll_amount(0), ScrollAmount::NoAmount);
    assert_eq!(scroll_amount(3), ScrollAmount::SmallIncrement);
    assert_eq!(scroll_lines(99), 10);
    assert_eq!(scroll_lines(-4), -4);
    let offered = vec!["AXScrollPageDown".to_string(), "AXShowMenu".to_string()];
    assert_eq!(scroll_action(&offered, -1), Ok(Some("AXScrollPageDown")));
    assert_eq!(scroll_action(&offered, 0), Ok(None));
    assert_eq!(
        scroll_action(&offered, 1).expect_err("it does not scroll up").message(),
        "target does not support the requested semantic action"
    );
    assert_eq!(invoke_action(&offered), Ok("AXShowMenu"));
}

#[test]
fn an_image_is_clicked_in_its_middle() {
    let bounds = AccessibilityBounds {
        left: 100,
        top: 50,
        right: 300,
        bottom: 250,
    };
    let found = VisualMatch {
        left: 10,
        top: 20,
        width: 5,
        height: 8,
        confidence: 100,
    };
    assert_eq!(image_click_point(bounds, Some(found)), Ok(Some((112, 74))));
    assert_eq!(
        image_click_point(bounds, None).expect_err("it is not there").diagnostics(),
        Some("failureKind=notFound; visualTarget=image")
    );
    let far = AccessibilityBounds {
        left: i32::MAX,
        ..bounds
    };
    assert_eq!(image_click_point(far, Some(found)), Ok(None));
}

#[test]
fn a_picture_has_a_size_and_an_address() {
    let adapter = WindowsDesktopAdapter;
    let bounds = AccessibilityBounds {
        left: 0,
        top: 0,
        right: 2,
        bottom: 1,
    };
    assert_eq!(adapter.window_capture_size(Some(bounds), None), Ok((2, 1)));
    let config = RunConfig {
        evidence_max_artifact_bytes: Some(61),
        ..RunConfig::default()
    };
    assert_eq!(
        adapter
            .window_capture_size(Some(bounds), Some(&config))
            .expect_err("it is too large")
            .message(),
        "evidence artifact exceeded configured size limit (62 > 61 bytes)"
    );
    assert_eq!(
        adapter.window_capture_size(None, None).expect_err("no bounds").message(),
        "Windows could not determine window bounds"
    );
    let picture = BmpImage {
        width: 1,
        height: 1,
        pixels: vec![1, 2, 3, 4],
    };
    let (bytes, artifact) = adapter.capture_window_screenshot(&picture, "\\\\?\\C:\\a.bmp");
    assert_eq!(bytes.len(), 58);
    assert_eq!(artifact.uri, "file://C:\\a.bmp");
    let mac = MacOsDesktopAdapter { trusted: true };
    let (arguments, artifact) = mac.capture_screenshot("/tmp/a b.png");
    assert_eq!(arguments, vec!["-x", "/tmp/a b.png"]);
    assert_eq!(artifact.uri, "file:///tmp/a%20b.png");
    assert_eq!(artifact.label.as_deref(), Some("Desktop screenshot"));
    assert_eq!(
        temp_file_name("cueflow", 7, 12, "png"),
        "cueflow-7-12.png"
    );
}

#[test]
fn a_damaged_picture_is_refused() {
    let mut bytes = encode_bmp(1, 1, &vec![1, 2, 3, 4]);
    bytes[0] = 0;
    assert_eq!(
        parse_bmp_image(&bytes, BmpDepth::Only32)
            .expect_err("it is no bitmap")
            .message(),
        "image target must be an uncompressed 32bpp BMP"
    );
    assert_eq!(
        parse_bmp_image(&vec![0x42], BmpDepth::Also24)
            .expect_err("it is too short")
            .message(),
        "image target must be an uncompressed 24bpp or 32bpp BMP"
    );
}

#[test]
fn similar_pictures_are_found_as_far_as_they_agree() {
    let screenshot = BmpImage {
        width: 2,
        height: 1,
        pixels: vec![1, 1, 1, 0, 2, 2, 2, 0],
    };
    let template = BmpImage {
        width: 2,
        height: 1,
        pixels: vec![1, 1, 1, 0, 9, 9, 9, 0],
    };
    assert_eq!(template_confidence(&screenshot, &template, 0, 0), 50);
    let mut image = ImageTarget {
        path: "a.bmp".to_string(),
        confidence: Some(50),
        region: None,
    };
    assert!(find_template_match(&screenshot, &template, &image)
        .expect("the search ends")
        .is_some());
    image.confidence = Some(51);
    assert!(find_template_match(&screenshot, &template, &image)
        .expect("the search ends")
        .is_none());
}

#[test]
fn evidence_is_planned_only_where_it_was_asked_for() {
    let adapter = WindowsDesktopAdapter;
    let action = Action::FocusWindow {
        target: Target {
            accessibility: None,
            ..target(None, None)
        },
    };
    let mut config = RunConfig {
        evidence_directory: Some("evidence".to_string()),
        ..RunConfig::default()
    };
    let plan = |config: &RunConfig| {
        adapter
            .capture_step_evidence(
                EvidencePhase::Before,
                &action,
                config,
                "run 1",
                "demo",
                "focus",
            )
            .expect("the policy admits it")
    };
    assert_eq!(plan(&config), None);
    config.capture_step_evidence = true;
    let planned = plan(&config).expect("there is something to take");
    assert_eq!(planned.tree_file, "demo-run-1-focus-before-accessibility.json");
    assert_eq!(planned.screenshot_file, None);
    assert!(!planned.include_values);
    config.allow_screenshot_capture = true;
    config.allow_value_capture = true;
    let planned = plan(&config).expect("there is something to take");
    assert_eq!(
        planned.screenshot_file.as_deref(),
        Some("demo-run-1-focus-before-window.bmp")
    );
    assert!(planned.include_values);
}

#[test]
fn processes_are_found_by_name() {
    let lines = vec![
        "/System/Applications/TextEdit.app/Contents/MacOS/TextEdit".to_string(),
        "/usr/bin/login".to_string(),
    ];
    assert!(mac_process_listed(&lines, "textedit"));
    assert!(!mac_process_listed(&lines, "Safari"));
    assert_eq!(frontmost_name("  TextEdit\n").as_deref(), Some("TextEdit"));
    assert_eq!(frontmost_name(" \n"), None);
}

#[test]
fn pictures_are_compared_by_color_alone() {
    let screenshot = BmpImage {
        width: 2,
        height: 1,
        pixels: vec![1, 2, 3, 0, 4, 5, 6, 7],
    };
    let template = BmpImage {
        width: 2,
        height: 1,
        pixels: vec![1, 2, 3, 255, 4, 5, 6, 255],
    };
    assert_eq!(template_confidence(&screenshot, &template, 0, 0), 100);
}

#[test]
fn pictures_are_read_from_either_end() {
    let pixels = vec![1, 2, 3, 4, 5, 6, 7, 8];
    let downwards = encode_bmp(1, 2, &pixels);
    let mut upwards = encode_bmp(1, 2, &vec![5, 6, 7, 8, 1, 2, 3, 4]);
    upwards[22..26].copy_from_slice(&2i32.to_le_bytes());
    let picture = parse_bmp_image(&downwards, BmpDepth::Only32).expect("it is a bitmap");
    let turned = parse_bmp_image(&upwards, BmpDepth::Only32).expect("it is a bitmap");
    assert_eq!(picture.pixels, pixels);
    assert_eq!(turned.pixels, pixels);
    assert_eq!((turned.width, turned.height), (1, 2));
}

#[test]
fn an_element_is_matched_before_it_is_described() {
    let mut silent = leaf("save", "Save");
    silent.facts.name = None;
    silent.facts.control_type = None;
    let root = window(vec![silent]);
    let asked = AccessibilityTarget {
        id: None,
        name: None,
        control_type: Some("button".to_string()),
        path: Some(vec![0]),
    };
    let error = find_on_windows(
        &Target {
            accessibility: Some(asked),
            ..target(None, None)
        },
        &root,
    )
    .expect_err("the element shows nothing");
    assert_eq!(error.message(), "Windows could read a target control type");
}

#[test]
fn children_that_are_not_listed_are_told_apart() {
    for (why, message) in [
        (Unlisted::Query, "Windows could not query UI Automation children"),
        (Unlisted::Count, "Windows could not count UI Automation children"),
    ] {
        let root = Element {
            children: Err(why),
            ..window(Vec::new())
        };
        let error = find_on_windows(&target(Some("save"), Some(vec![0])), &root)
            .expect_err("the children are not known");
        assert_eq!(error.message(), message);
    }
}

#[test]
fn a_target_without_an_element_counts_as_matching() {
    let adapter = WindowsDesktopAdapter;
    let root = window(vec![leaf("submitButton", "Submit")]);
    let tree = adapter.inspect_window(&target(None, None), shown(root), 4, 50);
    let named = target(Some("submitButton"), None);
    let unnamed = Target {
        accessibility: None,
        ..target(None, None)
    };
    let failed = || Err(AdapterError::new("nothing was found".to_string()));
    assert!(adapter.repair_selector(&named, &tree, &Ok(true)).matched);
    assert!(!adapter.repair_selector(&named, &tree, &failed()).matched);
    assert!(adapter.repair_selector(&unnamed, &tree, &failed()).matched);
}
