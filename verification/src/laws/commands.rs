//! What the command line asks for.
use vstd::prelude::*;
use crate::cli::args::{
    automation_flags, inspect_flags, parse_automation_args, parse_inspect_window_args,
    parse_repair_selector_args, parse_screenshot_args, repair_flags, screenshot_flags,
    AutomationCliOptions, AutomationFlagsView, InspectFlagsView, RepairFlagsView,
    ScreenshotCliOptions, ScreenshotFlagsView,
};
use crate::cli::command::AutomationTask;
use crate::cli::drills::report_matches;
use crate::cli::manifest::{DrillEntry, DrillExpectedOutcome};
use crate::cli::numbers::{digits_value, number_of, parse_number};
use crate::cli::profiles::{configure, Approvals, AutomationPolicyProfile};
use crate::cli::reports::{last_failure_kind, last_failure_message};
use crate::definition::{AccessibilityTargetView, Platform, Target};
use crate::executor::{RunOutcome, RunReport};
use crate::laws::texts::worth;
use crate::run::{RunConfig, RunErrorView, RunEventView};
use crate::text::{contains_text, texts};
use crate::views::views;

verus! {

/// No two flags are written alike.
proof fn flags_are_different()
    ensures
        "--allow-coordinate-targets"@.len() == 26,
        "--allow-path-only-selectors"@.len() == 27,
        "--allow-value-capture"@.len() == 21,
        "--capture-step-evidence"@.len() == 23,
        "--allow-screenshot-capture"@.len() == 26,
        "--allow-image-targets"@.len() == 21,
        "--evidence-dir"@.len() == 14,
        "--policy-profile"@.len() == 16,
        "--evidence-max-artifact-bytes"@.len() == 29,
        "--prune-evidence-before-run"@.len() == 27,
        "--allow-desktop-screenshot"@.len() == 26,
        "--output"@.len() == 8,
        "--window-title"@.len() == 14,
        "--title-contains"@.len() == 16,
        "--include-values"@.len() == 16,
        "--max-depth"@.len() == 11,
        "--max-nodes"@.len() == 11,
        "--id"@.len() == 4,
        "--name"@.len() == 6,
        "--control-type"@.len() == 14,
        "--path"@.len() == 6,
        "run"@.len() == 3,
        "dry-run"@.len() == 7,
        "preflight"@.len() == 9,
        "validate"@.len() == 8,
        "--allow-coordinate-targets"@ != "--allow-screenshot-capture"@,
        "--allow-coordinate-targets"@ != "--allow-desktop-screenshot"@,
        "--allow-path-only-selectors"@ != "--prune-evidence-before-run"@,
        "--allow-value-capture"@ != "--allow-image-targets"@,
        "--allow-screenshot-capture"@ != "--allow-desktop-screenshot"@,
        "--evidence-dir"@ != "--window-title"@,
        "--evidence-dir"@ != "--control-type"@,
        "--policy-profile"@ != "--title-contains"@,
        "--policy-profile"@ != "--include-values"@,
        "--output"@ != "validate"@,
        "--window-title"@ != "--control-type"@,
        "--title-contains"@ != "--include-values"@,
        "--max-depth"@ != "--max-nodes"@,
        "--name"@ != "--path"@,
{
    reveal_strlit("--allow-coordinate-targets");
    reveal_strlit("--allow-path-only-selectors");
    reveal_strlit("--allow-value-capture");
    reveal_strlit("--capture-step-evidence");
    reveal_strlit("--allow-screenshot-capture");
    reveal_strlit("--allow-image-targets");
    reveal_strlit("--evidence-dir");
    reveal_strlit("--policy-profile");
    reveal_strlit("--evidence-max-artifact-bytes");
    reveal_strlit("--prune-evidence-before-run");
    reveal_strlit("--allow-desktop-screenshot");
    reveal_strlit("--output");
    reveal_strlit("--window-title");
    reveal_strlit("--title-contains");
    reveal_strlit("--include-values");
    reveal_strlit("--max-depth");
    reveal_strlit("--max-nodes");
    reveal_strlit("--id");
    reveal_strlit("--name");
    reveal_strlit("--control-type");
    reveal_strlit("--path");
    reveal_strlit("run");
    reveal_strlit("dry-run");
    reveal_strlit("preflight");
    reveal_strlit("validate");
    assert("--allow-coordinate-targets"@[8] == 'c');
    assert("--allow-screenshot-capture"@[8] == 's');
    assert("--allow-coordinate-targets"@[8] == 'c');
    assert("--allow-desktop-screenshot"@[8] == 'd');
    assert("--allow-path-only-selectors"@[2] == 'a');
    assert("--prune-evidence-before-run"@[2] == 'p');
    assert("--allow-value-capture"@[8] == 'v');
    assert("--allow-image-targets"@[8] == 'i');
    assert("--allow-screenshot-capture"@[8] == 's');
    assert("--allow-desktop-screenshot"@[8] == 'd');
    assert("--evidence-dir"@[2] == 'e');
    assert("--window-title"@[2] == 'w');
    assert("--evidence-dir"@[2] == 'e');
    assert("--control-type"@[2] == 'c');
    assert("--policy-profile"@[2] == 'p');
    assert("--title-contains"@[2] == 't');
    assert("--policy-profile"@[2] == 'p');
    assert("--include-values"@[2] == 'i');
    assert("--output"@[0] == '-');
    assert("validate"@[0] == 'v');
    assert("--window-title"@[2] == 'w');
    assert("--control-type"@[2] == 'c');
    assert("--title-contains"@[2] == 't');
    assert("--include-values"@[2] == 'i');
    assert("--max-depth"@[6] == 'd');
    assert("--max-nodes"@[6] == 'n');
    assert("--name"@[2] == 'n');
    assert("--path"@[2] == 'p');
}

/// The arguments of a definition are read from left to right: those behind others add to what the
/// others said.
pub proof fn automation_flags_are_read_from_left_to_right(
    command: Seq<char>,
    first: Seq<Seq<char>>,
    rest: Seq<Seq<char>>,
    o: AutomationFlagsView,
)
    requires
        automation_flags(command, first, o) is Some,
    ensures
        automation_flags(command, first + rest, o)
            == automation_flags(command, rest, automation_flags(command, first, o)->0),
    decreases first.len(),
{
    let all = first + rest;
    if first.len() == 0 {
        assert(all =~= rest);
    } else {
        assert(all[0] == first[0]);
        assert(all.skip(1) =~= first.skip(1) + rest);
        if first.len() > 1 {
            assert(all[1] == first[1]);
            assert(all.skip(2) =~= first.skip(2) + rest);
        }
        if crate::cli::args::takes_value(command, first[0]) {
            let more = crate::cli::args::with_value(first[0], first[1], o)->0;
            automation_flags_are_read_from_left_to_right(command, first.skip(2), rest, more);
        } else if first[0] == "--prune-evidence-before-run"@ && command == "run"@ {
            automation_flags_are_read_from_left_to_right(
                command,
                first.skip(1),
                rest,
                AutomationFlagsView { prune_evidence_before_run: true, ..o },
            );
        } else {
            match crate::cli::args::approval_flag(first[0], o.approvals) {
                Some(approvals) => automation_flags_are_read_from_left_to_right(
                    command,
                    first.skip(1),
                    rest,
                    AutomationFlagsView { approvals, ..o },
                ),
                None => automation_flags_are_read_from_left_to_right(
                    command,
                    first.skip(1),
                    rest,
                    AutomationFlagsView { path: Some(first[0]), ..o },
                ),
            }
        }
    }
}

/// What each argument of a definition says by itself: a flag of approval approves that and nothing
/// else; evidence, profiles and pruning are for the commands that run something; and what is no
/// flag is the path, once.
pub proof fn each_flag_of_a_definition_says_one_thing(
    command: Seq<char>,
    value: Seq<char>,
    o: AutomationFlagsView,
)
    ensures
        automation_flags(command, seq!["--allow-coordinate-targets"@], o) == Some(
            AutomationFlagsView {
                approvals: Approvals { allow_coordinate_targets: true, ..o.approvals },
                ..o
            },
        ),
        automation_flags(command, seq!["--allow-path-only-selectors"@], o) == Some(
            AutomationFlagsView {
                approvals: Approvals { allow_path_only_selectors: true, ..o.approvals },
                ..o
            },
        ),
        automation_flags(command, seq!["--allow-value-capture"@], o) == Some(
            AutomationFlagsView {
                approvals: Approvals { allow_value_capture: true, ..o.approvals },
                ..o
            },
        ),
        automation_flags(command, seq!["--capture-step-evidence"@], o) == Some(
            AutomationFlagsView {
                approvals: Approvals { capture_step_evidence: true, ..o.approvals },
                ..o
            },
        ),
        automation_flags(command, seq!["--allow-screenshot-capture"@], o) == Some(
            AutomationFlagsView {
                approvals: Approvals { allow_screenshot_capture: true, ..o.approvals },
                ..o
            },
        ),
        automation_flags(command, seq!["--allow-image-targets"@], o) == Some(
            AutomationFlagsView {
                approvals: Approvals { allow_image_targets: true, ..o.approvals },
                ..o
            },
        ),
        command == "run"@ || command == "dry-run"@ ==> automation_flags(
            command,
            seq!["--evidence-dir"@, value],
            o,
        ) == Some(AutomationFlagsView { evidence_dir: Some(value), ..o }),
        command == "run"@ || command == "dry-run"@ ==> automation_flags(
            command,
            seq!["--evidence-max-artifact-bytes"@, value],
            o,
        ) == match number_of(value, u64::MAX as nat) {
            Some(n) => Some(
                AutomationFlagsView { evidence_max_artifact_bytes: Some(n as u64), ..o },
            ),
            None => None,
        },
        command == "run"@ || command == "dry-run"@ || command == "preflight"@ ==> automation_flags(
            command,
            seq!["--policy-profile"@, value],
            o,
        ) == match crate::cli::profiles::profile_named(value) {
            Some(profile) => Some(AutomationFlagsView { policy_profile: Some(profile), ..o }),
            None => None,
        },
        command == "run"@ ==> automation_flags(
            command,
            seq!["--prune-evidence-before-run"@],
            o,
        ) == Some(AutomationFlagsView { prune_evidence_before_run: true, ..o }),
        value.len() < 14 ==> automation_flags(command, seq![value], o) == if o.path is None {
            Some(AutomationFlagsView { path: Some(value), ..o })
        } else {
            None
        },
{
    flags_are_different();
    reveal_with_fuel(automation_flags, 2);
    assert(seq!["--allow-coordinate-targets"@].skip(1) =~= Seq::<Seq<char>>::empty());
    assert(seq!["--allow-path-only-selectors"@].skip(1) =~= Seq::<Seq<char>>::empty());
    assert(seq!["--allow-value-capture"@].skip(1) =~= Seq::<Seq<char>>::empty());
    assert(seq!["--capture-step-evidence"@].skip(1) =~= Seq::<Seq<char>>::empty());
    assert(seq!["--allow-screenshot-capture"@].skip(1) =~= Seq::<Seq<char>>::empty());
    assert(seq!["--allow-image-targets"@].skip(1) =~= Seq::<Seq<char>>::empty());
    assert(seq!["--prune-evidence-before-run"@].skip(1) =~= Seq::<Seq<char>>::empty());
    assert(seq![value].skip(1) =~= Seq::<Seq<char>>::empty());
    assert(seq!["--evidence-dir"@, value].skip(2) =~= Seq::<Seq<char>>::empty());
    assert(seq!["--evidence-max-artifact-bytes"@, value].skip(2) =~= Seq::<Seq<char>>::empty());
    assert(seq!["--policy-profile"@, value].skip(2) =~= Seq::<Seq<char>>::empty());
}

/// What was asked for with a definition is what its arguments say, and nothing is approved that
/// they do not say.
pub proof fn definitions_are_asked_for_with_their_flags(
    command: &str,
    args: &Vec<String>,
    r: Option<AutomationCliOptions>,
)
    requires
        call_ensures(parse_automation_args, (command, args), r),
    ensures
        ({
            let nothing = AutomationFlagsView {
                path: None,
                evidence_dir: None,
                policy_profile: None,
                approvals: Approvals {
                    allow_coordinate_targets: false,
                    allow_path_only_selectors: false,
                    allow_value_capture: false,
                    capture_step_evidence: false,
                    allow_screenshot_capture: false,
                    allow_image_targets: false,
                },
                evidence_max_artifact_bytes: None,
                prune_evidence_before_run: false,
            };
            match automation_flags(command@, texts(args@), nothing) {
                None => r is None,
                Some(o) => {
                    &&& o.path is None <==> r is None
                    &&& r is Some ==> {
                        &&& r->0.path@ == o.path->0
                        &&& crate::text::opt_text(r->0.evidence_dir) == o.evidence_dir
                        &&& r->0.policy_profile == o.policy_profile
                        &&& r->0.approvals == o.approvals
                        &&& r->0.evidence_max_artifact_bytes == o.evidence_max_artifact_bytes
                        &&& r->0.prune_evidence_before_run == o.prune_evidence_before_run
                    }
                },
            }
        }),
{
}

/// The arguments of a screenshot are read from left to right.
pub proof fn screenshot_flags_are_read_from_left_to_right(
    first: Seq<Seq<char>>,
    rest: Seq<Seq<char>>,
    o: ScreenshotFlagsView,
)
    requires
        screenshot_flags(first, o) is Some,
    ensures
        screenshot_flags(first + rest, o) == screenshot_flags(rest, screenshot_flags(first, o)->0),
    decreases first.len(),
{
    let all = first + rest;
    if first.len() == 0 {
        assert(all =~= rest);
    } else {
        assert(all[0] == first[0]);
        assert(all.skip(1) =~= first.skip(1) + rest);
        if first.len() > 1 {
            assert(all[1] == first[1]);
            assert(all.skip(2) =~= first.skip(2) + rest);
        }
        if first[0] == "--allow-desktop-screenshot"@ {
            screenshot_flags_are_read_from_left_to_right(
                first.skip(1),
                rest,
                ScreenshotFlagsView { allow_desktop: true, ..o },
            );
        } else if first[0] == "--output"@ {
            screenshot_flags_are_read_from_left_to_right(
                first.skip(2),
                rest,
                ScreenshotFlagsView { output: Some(first[1]), ..o },
            );
        } else if first[0] == "--window-title"@ {
            screenshot_flags_are_read_from_left_to_right(
                first.skip(2),
                rest,
                ScreenshotFlagsView { window_title: Some(first[1]), ..o },
            );
        } else {
            screenshot_flags_are_read_from_left_to_right(
                first.skip(2),
                rest,
                ScreenshotFlagsView { title_contains: Some(first[1]), ..o },
            );
        }
    }
}

/// What each argument of a screenshot says by itself, and what the arguments ask for: an output is
/// needed, and a window is named in one way at most.
pub proof fn each_flag_of_a_screenshot_says_one_thing(
    value: Seq<char>,
    o: ScreenshotFlagsView,
    args: &Vec<String>,
    r: Option<ScreenshotCliOptions>,
)
    requires
        call_ensures(parse_screenshot_args, (args,), r),
    ensures
        screenshot_flags(seq!["--allow-desktop-screenshot"@], o) == Some(
            ScreenshotFlagsView { allow_desktop: true, ..o },
        ),
        screenshot_flags(seq!["--output"@, value], o) == Some(
            ScreenshotFlagsView { output: Some(value), ..o },
        ),
        screenshot_flags(seq!["--window-title"@, value], o) == Some(
            ScreenshotFlagsView { window_title: Some(value), ..o },
        ),
        screenshot_flags(seq!["--title-contains"@, value], o) == Some(
            ScreenshotFlagsView { title_contains: Some(value), ..o },
        ),
        ({
            let nothing = ScreenshotFlagsView {
                output: None,
                window_title: None,
                title_contains: None,
                allow_desktop: false,
            };
            match screenshot_flags(texts(args@), nothing) {
                None => r is None,
                Some(f) => {
                    &&& r is Some <==> f.output is Some && (f.window_title is None
                        || f.title_contains is None)
                    &&& r is Some ==> {
                        &&& r->0.output@ == f.output->0
                        &&& r->0.allow_desktop == f.allow_desktop
                        &&& r->0.target is Some <==> f.window_title is Some || f.title_contains
                            is Some
                        &&& r->0.target is Some ==> r->0.target->0@.window_title == f.window_title
                            && r->0.target->0@.title_contains == f.title_contains
                    }
                },
            }
        }),
{
    flags_are_different();
    reveal_with_fuel(screenshot_flags, 2);
    assert(seq!["--allow-desktop-screenshot"@].skip(1) =~= Seq::<Seq<char>>::empty());
    assert(seq!["--output"@, value].skip(2) =~= Seq::<Seq<char>>::empty());
    assert(seq!["--window-title"@, value].skip(2) =~= Seq::<Seq<char>>::empty());
    assert(seq!["--title-contains"@, value].skip(2) =~= Seq::<Seq<char>>::empty());
}

/// The arguments of an inspection are read from left to right.
pub proof fn inspect_flags_are_read_from_left_to_right(
    first: Seq<Seq<char>>,
    rest: Seq<Seq<char>>,
    o: InspectFlagsView,
)
    requires
        inspect_flags(first, o) is Some,
    ensures
        inspect_flags(first + rest, o) == inspect_flags(rest, inspect_flags(first, o)->0),
    decreases first.len(),
{
    let all = first + rest;
    if first.len() == 0 {
        assert(all =~= rest);
    } else {
        assert(all[0] == first[0]);
        assert(all.skip(1) =~= first.skip(1) + rest);
        if first.len() > 1 {
            assert(all[1] == first[1]);
            assert(all.skip(2) =~= first.skip(2) + rest);
        }
        if first[0] == "--include-values"@ {
            inspect_flags_are_read_from_left_to_right(
                first.skip(1),
                rest,
                InspectFlagsView { include_values: true, ..o },
            );
        } else {
            inspect_flags_are_read_from_left_to_right(
                first.skip(2),
                rest,
                crate::cli::args::inspect_value(first[0], first[1], o)->0,
            );
        }
    }
}

/// What each argument of an inspection says by itself. Without them an inspection looks four levels
/// deep and at 250 elements; and it has to name its window.
pub proof fn each_flag_of_an_inspection_says_one_thing(
    value: Seq<char>,
    o: InspectFlagsView,
    args: &Vec<String>,
    r: Option<(Target, u32, usize, bool, Option<String>)>,
)
    requires
        call_ensures(parse_inspect_window_args, (args,), r),
    ensures
        inspect_flags(seq!["--include-values"@], o) == Some(
            InspectFlagsView { include_values: true, ..o },
        ),
        inspect_flags(seq![
            "--window-title"@,
            value,
        ], o) == Some(InspectFlagsView { window_title: Some(value), ..o }),
        inspect_flags(seq![
            "--title-contains"@,
            value,
        ], o) == Some(InspectFlagsView { title_contains: Some(value), ..o }),
        inspect_flags(seq![
            "--output"@,
            value,
        ], o) == Some(InspectFlagsView { output: Some(value), ..o }),
        inspect_flags(seq!["--max-depth"@, value], o) == match number_of(value, u32::MAX as nat) {
            Some(n) => Some(InspectFlagsView { max_depth: n as u32, ..o }),
            None => None,
        },
        inspect_flags(seq!["--max-nodes"@, value], o) == match number_of(value, usize::MAX as nat) {
            Some(n) => Some(InspectFlagsView { max_nodes: n as usize, ..o }),
            None => None,
        },
        ({
            let nothing = InspectFlagsView {
                window_title: None,
                title_contains: None,
                max_depth: 4,
                max_nodes: 250,
                include_values: false,
                output: None,
            };
            match inspect_flags(texts(args@), nothing) {
                None => r is None,
                Some(f) => {
                    &&& r is Some <==> f.window_title is Some || f.title_contains is Some
                    &&& r is Some ==> {
                        let got = r->0;
                        &&& got.0@.window_title == f.window_title
                        &&& got.0@.title_contains == f.title_contains
                        &&& got.1 == f.max_depth
                        &&& got.2 == f.max_nodes
                        &&& got.3 == f.include_values
                        &&& crate::text::opt_text(got.4) == f.output
                    }
                },
            }
        }),
{
    flags_are_different();
    reveal_with_fuel(inspect_flags, 2);
    assert(seq!["--include-values"@].skip(1) =~= Seq::<Seq<char>>::empty());
    assert(seq!["--window-title"@, value].skip(2) =~= Seq::<Seq<char>>::empty());
    assert(seq!["--title-contains"@, value].skip(2) =~= Seq::<Seq<char>>::empty());
    assert(seq!["--output"@, value].skip(2) =~= Seq::<Seq<char>>::empty());
    assert(seq!["--max-depth"@, value].skip(2) =~= Seq::<Seq<char>>::empty());
    assert(seq!["--max-nodes"@, value].skip(2) =~= Seq::<Seq<char>>::empty());
}

/// The arguments of a repair are read from left to right.
pub proof fn repair_flags_are_read_from_left_to_right(
    first: Seq<Seq<char>>,
    rest: Seq<Seq<char>>,
    o: RepairFlagsView,
)
    requires
        repair_flags(first, o) is Some,
    ensures
        repair_flags(first + rest, o) == repair_flags(rest, repair_flags(first, o)->0),
    decreases first.len(),
{
    let all = first + rest;
    if first.len() == 0 {
        assert(all =~= rest);
    } else {
        assert(all[0] == first[0]);
        assert(all.skip(1) =~= first.skip(1) + rest);
        if first.len() > 1 {
            assert(all[1] == first[1]);
            assert(all.skip(2) =~= first.skip(2) + rest);
        }
        repair_flags_are_read_from_left_to_right(
            first.skip(2),
            rest,
            crate::cli::args::repair_value(first[0], first[1], o)->0,
        );
    }
}

/// What each argument of a repair says by itself. Without them a repair looks four levels deep and
/// at 500 elements; and it has to name its window in one way.
pub proof fn each_flag_of_a_repair_says_one_thing(
    value: Seq<char>,
    o: RepairFlagsView,
    args: &Vec<String>,
    r: Option<(Target, u32, usize)>,
)
    requires
        call_ensures(parse_repair_selector_args, (args,), r),
    ensures
        repair_flags(seq![
            "--window-title"@,
            value,
        ], o) == Some(RepairFlagsView { window_title: Some(value), ..o }),
        repair_flags(seq![
            "--title-contains"@,
            value,
        ], o) == Some(RepairFlagsView { title_contains: Some(value), ..o }),
        repair_flags(seq!["--id"@, value], o) == Some(
            RepairFlagsView {
                accessibility: AccessibilityTargetView { id: Some(value), ..o.accessibility },
                ..o
            },
        ),
        repair_flags(seq!["--name"@, value], o) == Some(
            RepairFlagsView {
                accessibility: AccessibilityTargetView { name: Some(value), ..o.accessibility },
                ..o
            },
        ),
        repair_flags(seq!["--control-type"@, value], o) == Some(
            RepairFlagsView {
                accessibility: AccessibilityTargetView {
                    control_type: Some(value),
                    ..o.accessibility
                },
                ..o
            },
        ),
        repair_flags(seq!["--path"@, value], o) == match crate::cli::numbers::path_of(value) {
            Some(path) => Some(
                RepairFlagsView {
                    accessibility: AccessibilityTargetView { path: Some(path), ..o.accessibility },
                    ..o
                },
            ),
            None => None,
        },
        repair_flags(seq!["--max-depth"@, value], o) == match number_of(value, u32::MAX as nat) {
            Some(n) => Some(RepairFlagsView { max_depth: n as u32, ..o }),
            None => None,
        },
        repair_flags(seq!["--max-nodes"@, value], o) == match number_of(value, usize::MAX as nat) {
            Some(n) => Some(RepairFlagsView { max_nodes: n as usize, ..o }),
            None => None,
        },
        ({
            let nothing = RepairFlagsView {
                window_title: None,
                title_contains: None,
                accessibility: AccessibilityTargetView {
                    id: None,
                    name: None,
                    control_type: None,
                    path: None,
                },
                max_depth: 4,
                max_nodes: 500,
            };
            match repair_flags(texts(args@), nothing) {
                None => r is None,
                Some(f) => {
                    &&& r is Some <==> (f.window_title is Some) != (f.title_contains is Some)
                    &&& r is Some ==> {
                        let got = r->0;
                        &&& got.0@.window_title == f.window_title
                        &&& got.0@.title_contains == f.title_contains
                        &&& got.0@.accessibility == Some(f.accessibility)
                        &&& got.1 == f.max_depth
                        &&& got.2 == f.max_nodes
                    }
                },
            }
        }),
{
    flags_are_different();
    reveal_with_fuel(repair_flags, 2);
    assert(seq!["--window-title"@, value].skip(2) =~= Seq::<Seq<char>>::empty());
    assert(seq!["--title-contains"@, value].skip(2) =~= Seq::<Seq<char>>::empty());
    assert(seq!["--id"@, value].skip(2) =~= Seq::<Seq<char>>::empty());
    assert(seq!["--name"@, value].skip(2) =~= Seq::<Seq<char>>::empty());
    assert(seq!["--control-type"@, value].skip(2) =~= Seq::<Seq<char>>::empty());
    assert(seq!["--path"@, value].skip(2) =~= Seq::<Seq<char>>::empty());
    assert(seq!["--max-depth"@, value].skip(2) =~= Seq::<Seq<char>>::empty());
    assert(seq!["--max-nodes"@, value].skip(2) =~= Seq::<Seq<char>>::empty());
}

/// A run is configured with what its profile approves and what is approved besides, and with
/// nothing else. The strict profile approves nothing; the evidence profile, capturing evidence; the
/// profile for pictures, screenshots and pictures as well; and the unsafe one everything.
pub proof fn runs_are_allowed_what_was_approved(
    dry_run: bool,
    platform: Platform,
    profile: Option<AutomationPolicyProfile>,
    approvals: Approvals,
    max_bytes: Option<u64>,
    directory: Option<String>,
    r: RunConfig,
)
    requires
        call_ensures(
            configure,
            (dry_run, platform, profile, approvals, max_bytes, directory),
            r,
        ),
    ensures
        ({
            let everything = profile == Some(AutomationPolicyProfile::UnsafeLab);
            let pictures = everything || profile == Some(AutomationPolicyProfile::VisualFallback);
            let evidence = pictures || profile == Some(AutomationPolicyProfile::Evidence);
            &&& r.allow_coordinate_targets == (everything || approvals.allow_coordinate_targets)
            &&& r.allow_path_only_selectors == (everything || approvals.allow_path_only_selectors)
            &&& r.allow_value_capture == (everything || approvals.allow_value_capture)
            &&& r.allow_screenshot_capture == (pictures || approvals.allow_screenshot_capture)
            &&& r.allow_image_targets == (pictures || approvals.allow_image_targets)
            &&& r.capture_step_evidence == (evidence || approvals.capture_step_evidence)
            &&& r.dry_run == dry_run
            &&& r.platform == Some(platform)
            &&& r.evidence_max_artifact_bytes == max_bytes
            &&& r@.evidence_directory == crate::text::opt_text(directory)
            &&& r@.approved_commands == Set::<Seq<char>>::empty()
            &&& r@.variables.len() == 0 && r@.environment.len() == 0
            &&& r@.working_directory is None && r@.run_id is None
        }),
{
}

/// Profiles and tasks go by their names, and by no others.
pub proof fn names_of_profiles_and_tasks(
    name: &str,
    profile: Option<AutomationPolicyProfile>,
    task: Option<AutomationTask>,
)
    requires
        call_ensures(AutomationPolicyProfile::from_cli, (name,), profile),
        call_ensures(AutomationTask::from_cli, (name,), task),
    ensures
        profile == Some(AutomationPolicyProfile::Strict) <==> name@ == "strict"@,
        profile == Some(AutomationPolicyProfile::Evidence) <==> name@ == "evidence"@,
        profile == Some(AutomationPolicyProfile::VisualFallback) <==> name@ == "visual-fallback"@
            || name@ == "visualFallback"@,
        profile == Some(AutomationPolicyProfile::UnsafeLab) <==> name@ == "unsafe-lab"@ || name@
            == "unsafeLab"@,
        task == Some(AutomationTask::Validate) <==> name@ == "validate"@,
        task == Some(AutomationTask::Preflight) <==> name@ == "preflight"@,
        task == Some(AutomationTask::DryRun) <==> name@ == "dry-run"@,
        task == Some(AutomationTask::Run) <==> name@ == "run"@,
{
    flags_are_different();
    reveal_strlit("strict");
    reveal_strlit("evidence");
    reveal_strlit("visual-fallback");
    reveal_strlit("visualFallback");
    reveal_strlit("unsafe-lab");
    reveal_strlit("unsafeLab");
    assert("strict"@.len() == 6 && "evidence"@.len() == 8 && "visual-fallback"@.len() == 15);
    assert("visualFallback"@.len() == 14 && "unsafe-lab"@.len() == 10 && "unsafeLab"@.len() == 9);
}

proof fn digits_have_worth(text: Seq<char>)
    requires
        forall|i: int| 0 <= i < text.len() ==> '0' <= #[trigger] text[i] <= '9',
    ensures
        digits_value(text) == worth(text),
        worth(text) >= 0,
    decreases text.len(),
{
    if text.len() > 0 {
        let front = text.drop_last();
        assert forall|i: int| 0 <= i < front.len() implies '0' <= #[trigger] front[i] <= '9' by {
            assert(front[i] == text[i]);
        }
        digits_have_worth(front);
        assert(text.last() == text[text.len() - 1]);
    }
}

/// A text is read as a number exactly where it is a row of digits, with a plus sign in front or
/// not, that is worth no more than the limit; and as that number.
pub proof fn numbers_are_what_their_digits_are_worth(
    input: &str,
    limit: u64,
    digits: Seq<char>,
    r: Option<u64>,
)
    requires
        call_ensures(parse_number, (input, limit), r),
        digits.len() > 0,
        forall|i: int| 0 <= i < digits.len() ==> '0' <= #[trigger] digits[i] <= '9',
    ensures
        input@ == digits || input@ == seq!['+'] + digits ==> match r {
            Some(n) => n == worth(digits) && worth(digits) <= limit,
            None => worth(digits) > limit,
        },
        input@.len() == 0 ==> r is None,
        input@.len() > 0 && input@[0] != '+' && (exists|i: int|
            0 <= i < input@.len() && !('0' <= #[trigger] input@[i] <= '9')) ==> r is None,
        input@.len() > 0 && input@[0] == '+' && (exists|i: int|
            1 <= i < input@.len() && !('0' <= #[trigger] input@[i] <= '9')) ==> r is None,
{
    digits_have_worth(digits);
    assert((seq!['+'] + digits).skip(1) =~= digits);
    if input@ == digits || input@ == seq!['+'] + digits {
        assert(digits[0] != '+');
        assert(crate::cli::numbers::without_plus(input@) == digits);
        assert(crate::cli::numbers::all_digits(digits));
    }
    if input@.len() > 0 && input@[0] == '+' && (exists|i: int|
        1 <= i < input@.len() && !('0' <= #[trigger] input@[i] <= '9')) {
        let i = choose|i: int| 1 <= i < input@.len() && !('0' <= #[trigger] input@[i] <= '9');
        assert(input@.skip(1)[i - 1] == input@[i]);
    }
}

/// The error of an event that tells of a failure.
pub open spec fn told_failure(e: RunEventView) -> Option<RunErrorView> {
    match e {
        RunEventView::StepFailed { error, .. } => Some(error),
        RunEventView::ManualIntervention { error, .. } => Some(error),
        _ => None,
    }
}

/// What a run failed of is what its latest failure says; its kind is that of the latest failure
/// that has one.
pub proof fn the_latest_failure_counts(events: Seq<RunEventView>, i: int)
    ensures
        0 <= i < events.len() && told_failure(events[i]) is Some && (forall|j: int|
            i < j < events.len() ==> told_failure(#[trigger] events[j]) is None)
            ==> last_failure_message(events) == Some(told_failure(events[i])->0.message),
        (forall|j: int| 0 <= j < events.len() ==> told_failure(#[trigger] events[j]) is None)
            ==> last_failure_message(events) is None && last_failure_kind(events) is None,
        0 <= i < events.len() && told_failure(events[i]) is Some && told_failure(
            events[i],
        )->0.failure_kind is Some && (forall|j: int|
            i < j < events.len() ==> told_failure(#[trigger] events[j]) is None || told_failure(
                events[j],
            )->0.failure_kind is None) ==> last_failure_kind(events) == told_failure(
            events[i],
        )->0.failure_kind,
    decreases events.len(),
{
    if events.len() > 0 {
        let front = events.drop_last();
        let n = events.len() - 1;
        assert(events.last() == events[n]);
        assert(told_failure(events[n]) == crate::cli::reports::failure_of(events[n]));
        the_latest_failure_counts(front, i);
        if forall|j: int| 0 <= j < events.len() ==> told_failure(#[trigger] events[j]) is None {
            assert forall|j: int| 0 <= j < front.len() implies told_failure(
                #[trigger] front[j],
            ) is None by {
                assert(front[j] == events[j]);
            }
            assert(told_failure(events[n]) is None);
        }
        if 0 <= i < n {
            assert(front[i] == events[i]);
            if forall|j: int| i < j < events.len() ==> told_failure(#[trigger] events[j]) is None {
                assert forall|j: int| i < j < front.len() implies told_failure(
                    #[trigger] front[j],
                ) is None by {
                    assert(front[j] == events[j]);
                }
                assert(told_failure(events[n]) is None);
            }
            if forall|j: int|
                i < j < events.len() ==> told_failure(#[trigger] events[j]) is None || told_failure(
                    events[j],
                )->0.failure_kind is None {
                assert forall|j: int| i < j < front.len() implies told_failure(#[trigger] front[j])
                    is None || told_failure(front[j])->0.failure_kind is None by {
                    assert(front[j] == events[j]);
                }
                assert(told_failure(events[n]) is None || told_failure(events[n])->0.failure_kind
                    is None);
            }
        }
    }
}

/// A drill matches where the run ended as expected, and where everything else that is expected of
/// it is so: the kind and the words of its failure, the words in its log, and its time.
pub proof fn drills_match_where_everything_expected_is_so(
    drill: &DrillEntry,
    report: &RunReport,
    millis: u128,
    r: bool,
)
    requires
        call_ensures(report_matches, (drill, report, millis), r),
    ensures
        ({
            let d = drill@;
            let events = views(report.events@);
            let message = last_failure_message(events);
            r <==> {
                &&& {
                    ||| d.expected_outcome == DrillExpectedOutcome::Succeeded && report.outcome
                        == RunOutcome::Succeeded
                    ||| d.expected_outcome == DrillExpectedOutcome::Failed && report.outcome
                        == RunOutcome::Failed
                }
                &&& d.expected_failure_kind is Some ==> last_failure_kind(events)
                    == d.expected_failure_kind
                &&& d.expected_error_contains is Some ==> message is Some && contains_text(
                    message->0,
                    d.expected_error_contains->0,
                )
                &&& d.expected_max_duration_millis is Some ==> millis
                    <= d.expected_max_duration_millis->0
                &&& d.expected_log_contains is Some ==> exists|i: int|
                    0 <= i < events.len() && (#[trigger] events[i]) is Log && contains_text(
                        events[i]->Log_message,
                        d.expected_log_contains->0,
                    )
            }
        }),
{
    let d = drill@;
    let events = views(report.events@);
    if d.expected_log_contains is Some {
        let w = d.expected_log_contains->0;
        if exists|i: int|
            0 <= i < events.len() && (#[trigger] events[i]) is Log && contains_text(
                events[i]->Log_message,
                w,
            ) {
            let i = choose|i: int|
                0 <= i < events.len() && (#[trigger] events[i]) is Log && contains_text(
                    events[i]->Log_message,
                    w,
                );
            assert(crate::cli::drills::logs(events[i], w));
        }
    }
}

} // verus!
