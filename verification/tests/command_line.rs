use cueflow::cli::args::{
    ScreenshotPlan, parse_automation_args, parse_inspect_window_args, parse_repair_selector_args,
    parse_screenshot_args, plan_screenshot,
};
use cueflow::cli::command::{AutomationTask, Command, parse_command};
use cueflow::cli::numbers::{parse_number, parse_path_indexes, parse_u32};
use cueflow::cli::profiles::AutomationPolicyProfile;
use cueflow::cli::reports::artifact_uri;
use cueflow::definition::Platform;
use cueflow::describe::format_accessibility_path;
use cueflow::run::RunConfig;

fn args(words: &[&str]) -> Vec<String> {
    words.iter().map(|word| word.to_string()).collect()
}

#[test]
fn numbers_are_decimal_and_bounded() {
    assert_eq!(parse_u32("42"), Some(42));
    assert_eq!(parse_u32("+007"), Some(7));
    assert_eq!(parse_u32("4294967295"), Some(u32::MAX));
    assert_eq!(parse_u32("4294967296"), None);
    for text in ["", "+", "-1", "1 ", "0x1", "++1", "1.0"] {
        assert_eq!(parse_u32(text), None);
    }
    assert_eq!(parse_number("18446744073709551615", u64::MAX), Some(u64::MAX));
    assert_eq!(parse_number("18446744073709551616", u64::MAX), None);
}

#[test]
fn paths_are_read_as_they_are_shown() {
    for path in [vec![], vec![7], vec![0, 12, 3]] {
        let shown = format_accessibility_path(&path);
        assert_eq!(parse_path_indexes(&shown), Some(path));
    }
    assert_eq!(parse_path_indexes(" 1, 2 "), Some(vec![1, 2]));
    assert_eq!(parse_path_indexes("  "), Some(vec![]));
    assert_eq!(parse_path_indexes("[1,]"), None);
    assert_eq!(parse_path_indexes("[[]]"), None);
    assert_eq!(parse_path_indexes("a"), None);
}

#[test]
fn a_screenshot_needs_an_output_and_one_window_at_most() {
    let options = parse_screenshot_args(&args(&["--output", "a.bmp", "--window-title", "Demo"]))
        .expect("it is complete");
    assert_eq!(options.output, "a.bmp");
    let target = options.target.as_ref().expect("it names a window");
    assert_eq!(target.window_title.as_deref(), Some("Demo"));
    assert!(matches!(plan_screenshot(&options), Ok(ScreenshotPlan::Window(_))));
    assert!(parse_screenshot_args(&args(&["--window-title", "Demo"])).is_none());
    assert!(parse_screenshot_args(&args(&["--output"])).is_none());
    assert!(parse_screenshot_args(&args(&[
        "--output",
        "a.bmp",
        "--window-title",
        "Demo",
        "--title-contains",
        "De"
    ]))
    .is_none());
    let desktop = parse_screenshot_args(&args(&["--output", "a.bmp"])).expect("it is complete");
    assert_eq!(
        plan_screenshot(&desktop).err(),
        Some("desktop screenshot capture requires --allow-desktop-screenshot or a window selector")
    );
    let allowed = parse_screenshot_args(&args(&[
        "--allow-desktop-screenshot",
        "--output",
        "a.bmp",
    ]))
    .expect("it is complete");
    assert!(matches!(plan_screenshot(&allowed), Ok(ScreenshotPlan::Desktop)));
}

#[test]
fn a_run_takes_flags_before_and_after_its_path() {
    let options = parse_automation_args(
        "run",
        &args(&[
            "--policy-profile",
            "evidence",
            "demo.json",
            "--evidence-dir",
            "out",
            "--evidence-max-artifact-bytes",
            "1000",
            "--prune-evidence-before-run",
            "--allow-image-targets",
        ]),
    )
    .expect("it is complete");
    assert_eq!(options.path, "demo.json");
    assert_eq!(options.evidence_dir.as_deref(), Some("out"));
    assert_eq!(options.policy_profile, Some(AutomationPolicyProfile::Evidence));
    assert_eq!(options.evidence_max_artifact_bytes, Some(1000));
    let config = AutomationTask::Run.config(&options, Platform::Linux);
    assert!(!config.dry_run);
    assert_eq!(config.platform, Some(Platform::Linux));
    assert!(config.capture_step_evidence);
    assert!(config.allow_image_targets);
    assert!(!config.allow_screenshot_capture);
    assert_eq!(AutomationTask::Run.prunes(&options).as_deref(), Some("out"));
    assert_eq!(AutomationTask::DryRun.prunes(&options), None);
    assert!(AutomationTask::DryRun.config(&options, Platform::Linux).dry_run);
}

#[test]
fn flags_of_other_commands_are_taken_for_paths() {
    let options = parse_automation_args("validate", &args(&["--evidence-dir"]))
        .expect("a word that is no flag is the path");
    assert_eq!(options.path, "--evidence-dir");
    assert!(parse_automation_args("validate", &args(&["--evidence-dir", "out"])).is_none());
    assert!(parse_automation_args("run", &args(&[])).is_none());
    assert!(parse_automation_args("run", &args(&["a.json", "b.json"])).is_none());
    assert!(parse_automation_args("run", &args(&["--policy-profile", "lax", "a.json"])).is_none());
    assert!(parse_automation_args(
        "run",
        &args(&["--evidence-max-artifact-bytes", "many", "a.json"])
    )
    .is_none());
}

#[test]
fn inspections_and_repairs_have_limits() {
    let (target, depth, nodes, values, output) =
        parse_inspect_window_args(&args(&["--title-contains", "Demo"])).expect("it is complete");
    assert_eq!(target.title_contains.as_deref(), Some("Demo"));
    assert_eq!((depth, nodes, values, output), (4, 250, false, None));
    let (_, depth, nodes, values, output) = parse_inspect_window_args(&args(&[
        "--window-title",
        "Demo",
        "--max-depth",
        "2",
        "--max-nodes",
        "9",
        "--include-values",
        "--output",
        "tree.json",
    ]))
    .expect("it is complete");
    assert_eq!((depth, nodes, values), (2, 9, true));
    assert_eq!(output.as_deref(), Some("tree.json"));
    assert!(parse_inspect_window_args(&args(&["--max-depth", "2"])).is_none());
    let (target, depth, nodes) = parse_repair_selector_args(&args(&[
        "--window-title",
        "Demo",
        "--id",
        "submit",
        "--path",
        "[0,2]",
    ]))
    .expect("it is complete");
    let accessibility = target.accessibility.expect("it names an element");
    assert_eq!(accessibility.id.as_deref(), Some("submit"));
    assert_eq!(accessibility.path, Some(vec![0, 2]));
    assert_eq!((depth, nodes), (4, 500));
    assert!(parse_repair_selector_args(&args(&[
        "--window-title",
        "Demo",
        "--title-contains",
        "De"
    ]))
    .is_none());
}

#[test]
fn commands_are_told_apart() {
    assert!(matches!(
        parse_command("capabilities", &args(&[])),
        Some(Command::Capabilities)
    ));
    assert!(parse_command("capabilities", &args(&["x"])).is_none());
    assert!(matches!(
        parse_command("request-accessibility-permission", &args(&[])),
        Some(Command::RequestAccessibilityPermission)
    ));
    assert!(matches!(
        parse_command("run-drills", &args(&["drills.json"])),
        Some(Command::RunDrills { manifest }) if manifest == "drills.json"
    ));
    assert!(parse_command("run-drills", &args(&[])).is_none());
    assert!(matches!(
        parse_command("anything", &args(&["demo.json"])),
        Some(Command::Automation { name, .. }) if name == "anything"
    ));
    assert_eq!(AutomationTask::from_cli("dry-run"), Some(AutomationTask::DryRun));
    assert_eq!(AutomationTask::from_cli("anything"), None);
}

#[test]
fn profiles_keep_what_was_approved_before() {
    let mut config = RunConfig {
        allow_coordinate_targets: true,
        ..RunConfig::default()
    };
    AutomationPolicyProfile::VisualFallback.apply_to(&mut config);
    assert!(config.allow_coordinate_targets);
    assert!(config.allow_image_targets);
    AutomationPolicyProfile::Strict.apply_to(&mut config);
    assert!(config.allow_image_targets);
    assert!(config.dry_run);
}

#[test]
fn addresses_leave_out_the_marker_of_long_paths() {
    assert_eq!(artifact_uri("/tmp/a.json"), "file:///tmp/a.json");
    assert_eq!(artifact_uri("\\\\?\\C:\\a.json"), "file://C:\\a.json");
}
