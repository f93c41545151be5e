//! What the program is asked to do, and what it writes.
use vstd::prelude::*;
use crate::accessibility::{
    AccessibilityBounds, AccessibilityNode, AccessibilityPoint, AccessibilitySelectorCandidate,
    AccessibilityTree, AdapterCapabilities, SelectorRepairReport, WindowIdentity,
};
use crate::cli::args::{
    automation_options, inspect_options, plan_screenshot, repair_options, screenshot_options,
    ScreenshotCliOptions, ScreenshotPlan, ScreenshotPlanView,
};
use crate::cli::command::{parse_command, AutomationTask, Command, CommandView};
use crate::cli::drills::{
    attempt_config, attempt_folders, drill_next, manifest_result, refusal_matches, DrillNews,
    DrillRun,
};
use crate::cli::manifest::{DrillEntry, DrillExpectedOutcome, DrillManifest};
use crate::cli::reports::{
    event_records, evidence_summary, last_failure_kind, last_failure_message, permission_json,
    preflight_json, report_error_message, report_failure_kind, summary_tree, EvidencePruneReport,
};
use crate::codec::inspection::{
    bounds_tree, candidate_tree, capabilities_tree, encode_bounds, encode_candidate,
    encode_capabilities, encode_inspection, encode_node, encode_point, encode_repair, encode_window,
    inspection_tree, node_tree, point_tree, repair_tree, window_tree,
};
use crate::codec::records::{
    decode_artifact, decode_event, decode_run_error, encode_artifact, encode_diagnostic,
    encode_event, encode_run_error,
};
use crate::definition::Platform;
use crate::executor::{PreflightReport, RunReport};
use crate::fields::group_fields;
use crate::laws::documents::{platform_word, text};
use crate::laws::records::{times, truth};
use crate::laws::reports::{
    artifact_is_read, artifact_says, diagnostic_says, event_is_read, event_says, run_error_is_read,
    run_error_says, written_records_say_what_is_there,
};
use crate::run::{Artifact, PreflightDiagnostic, PreflightSeverity, RunConfig, RunError, RunEvent};
use crate::text::{contains_text, decimal, opt_text, texts};
use crate::value::{trees, Json};
use crate::views::views;

verus! {

/// The command line asks for what its first word names, with what the other words say.
pub proof fn commands_are_asked_for_by_name(name: &str, args: &Vec<String>, r: Option<Command>)
    requires
        call_ensures(parse_command, (name, args), r),
    ensures
        name@ == "capabilities"@ ==> (r is Some <==> args@.len() == 0) && (r is Some ==> r->0
            is Capabilities),
        name@ == "request-accessibility-permission"@ ==> (r is Some <==> args@.len() == 0) && (r
            is Some ==> r->0 is RequestAccessibilityPermission),
        name@ == "run-drills"@ ==> (r is Some <==> args@.len() == 1) && (r is Some ==> r->0
            is RunDrills && r->0@->manifest == args@[0]@),
        name@ == "inspect-window"@ ==> (r is Some <==> inspect_options(texts(args@)) is Some) && (r
            is Some ==> r->0 is InspectWindow),
        name@ == "repair-selector"@ ==> (r is Some <==> repair_options(texts(args@)) is Some) && (r
            is Some ==> r->0 is RepairSelector),
        name@ == "screenshot"@ ==> (r is Some <==> screenshot_options(texts(args@)) is Some) && (r
            is Some ==> r->0 is Screenshot),
        name@ == "run"@ || name@ == "dry-run"@ || name@ == "preflight"@ || name@ == "validate"@
            ==> (r is Some <==> automation_options(name@, texts(args@)) is Some) && (r is Some ==> (
        r->0@ matches CommandView::Automation { name: own, options } && own == name@ && Some(
            options,
        ) == automation_options(name@, texts(args@)))),
{
    reveal_strlit("capabilities");
    reveal_strlit("request-accessibility-permission");
    reveal_strlit("inspect-window");
    reveal_strlit("repair-selector");
    reveal_strlit("screenshot");
    reveal_strlit("run-drills");
    reveal_strlit("run");
    reveal_strlit("dry-run");
    reveal_strlit("preflight");
    reveal_strlit("validate");
    assert("capabilities"@.len() == 12 && "request-accessibility-permission"@.len() == 32);
    assert("inspect-window"@.len() == 14 && "repair-selector"@.len() == 15);
    assert("screenshot"@.len() == 10 && "run-drills"@.len() == 10);
    assert("screenshot"@[0] == 's' && "run-drills"@[0] == 'r');
    assert("run"@.len() == 3 && "dry-run"@.len() == 7);
    assert("preflight"@.len() == 9 && "validate"@.len() == 8);
    if args@.len() == 1 {
        assert(texts(args@)[0] == args@[0]@);
    }
}

/// Only a run that was asked to clears earlier evidence. A screenshot of the whole desktop needs
/// its own approval; one of a window needs none.
pub proof fn approvals_come_before_acts(
    task: AutomationTask,
    options: &crate::cli::args::AutomationCliOptions,
    platform: Platform,
    pruned: Option<String>,
    config: RunConfig,
    shot: &ScreenshotCliOptions,
    plan: Result<ScreenshotPlan, &'static str>,
)
    requires
        call_ensures(AutomationTask::prunes, (task, options), pruned),
        call_ensures(AutomationTask::config, (task, options, platform), config),
        call_ensures(plan_screenshot, (shot,), plan),
    ensures
        pruned is Some <==> task == AutomationTask::Run && options.prune_evidence_before_run
            && options.evidence_dir is Some,
        pruned is Some ==> pruned->0@ == options.evidence_dir->0@,
        config.dry_run <==> task == AutomationTask::DryRun,
        config.platform == Some(platform),
        shot.target is Some ==> plan is Ok && plan->Ok_0@ == ScreenshotPlanView::Window(
            shot.target->0@,
        ),
        shot.target is None ==> (plan is Ok <==> shot.allow_desktop),
        shot.target is None && plan is Ok ==> plan->Ok_0 is Desktop,
{
}

/// A drill that is not to begin matches only where that is expected, of this error and within the
/// time; its attempts leave their evidence apart where there are several.
pub proof fn drills_are_prepared(
    drill: &DrillEntry,
    error: &str,
    millis: u128,
    matched: bool,
    root: &Option<String>,
    attempt: u32,
    folders: Option<Vec<String>>,
    platform: Platform,
    directory: Option<String>,
    config: RunConfig,
)
    requires
        call_ensures(refusal_matches, (drill, error, millis), matched),
        call_ensures(attempt_folders, (root, drill, attempt), folders),
        call_ensures(attempt_config, (drill, platform, directory), config),
    ensures
        matched <==> {
            &&& drill.expected_outcome == DrillExpectedOutcome::ExecutorError
            &&& drill.expected_failure_kind is None
            &&& drill.expected_error_contains is Some ==> contains_text(
                error@,
                drill.expected_error_contains->0@,
            )
            &&& drill.expected_max_duration_millis is Some ==> millis
                <= drill.expected_max_duration_millis->0
        },
        root is None <==> folders is None,
        folders is Some && times(drill@) == 1 ==> texts(folders->0@) == seq![root->0@, drill.id@],
        folders is Some && times(drill@) > 1 ==> texts(folders->0@) == seq![
            root->0@,
            drill.id@,
            "attempt-"@ + decimal(attempt as nat),
        ],
        !config.dry_run && config.platform == Some(platform),
        drill.allow_coordinate_targets ==> config.allow_coordinate_targets,
        drill.policy_profile is None ==> config.allow_coordinate_targets
            == drill.allow_coordinate_targets && config.allow_value_capture
            == drill.allow_value_capture && config.allow_image_targets == drill.allow_image_targets
            && config.allow_screenshot_capture == drill.allow_screenshot_capture
            && config.allow_path_only_selectors == drill.allow_path_only_selectors
            && config.capture_step_evidence == drill.capture_step_evidence,
{
}

/// Drills begin with the first, go on answer by answer, and end with one verdict.
pub proof fn drills_are_run_from_the_first(
    manifest: DrillManifest,
    platform: Platform,
    begun: DrillRun,
    run: DrillRun,
    news: DrillNews,
    next: DrillRun,
    told: (Json, bool),
)
    requires
        call_ensures(DrillRun::new, (manifest, platform), begun),
        call_ensures(DrillRun::next, (run, news), next),
        call_ensures(DrillRun::report, (run,), told),
    ensures
        begun@.drill == 0 && begun@.attempt == 1 && begun@.results.len() == 0 && begun@.matched,
        begun@.manifest == manifest@ && begun@.platform == platform,
        begun@.stage is Done <==> manifest@.drills.len() == 0,
        begun@.stage is Done || begun@.stage is Reading,
        next@ == drill_next(run@, news@),
        told.0@ == manifest_result(run@),
        told.1 == run@.matched,
{
}

/// What is written for the user are the records of what is there.
pub proof fn records_are_written_of_what_is_there(
    bounds: AccessibilityBounds,
    point: AccessibilityPoint,
    window: &WindowIdentity,
    candidate: &AccessibilitySelectorCandidate,
    node: &AccessibilityNode,
    tree: &AccessibilityTree,
    repair: &SelectorRepairReport,
    able: AdapterCapabilities,
    r: (Json, Json, Json, Json, Json, Json, Json, Json),
)
    requires
        call_ensures(encode_bounds, (bounds,), r.0),
        call_ensures(encode_point, (point,), r.1),
        call_ensures(encode_window, (window,), r.2),
        call_ensures(encode_candidate, (candidate,), r.3),
        call_ensures(encode_node, (node,), r.4),
        call_ensures(encode_inspection, (tree,), r.5),
        call_ensures(encode_repair, (repair,), r.6),
        call_ensures(encode_capabilities, (able,), r.7),
    ensures
        r.0@ == bounds_tree(bounds),
        r.1@ == point_tree(point),
        r.2@ == window_tree(window@),
        r.3@ == candidate_tree(candidate@),
        r.4@ == node_tree(node@),
        r.5@ == inspection_tree(*tree),
        r.6@ == repair_tree(*repair),
        r.7@ == capabilities_tree(able),
{
}

/// Events, errors, artifacts and diagnostics are written with the entries that say what they hold,
/// and read by them.
pub proof fn records_are_read_by_their_entries(
    event: &RunEvent,
    error: &RunError,
    artifact: &Artifact,
    diagnostic: &PreflightDiagnostic,
    written: (Json, Json, Json, Json),
    value: &Json,
    read: (Option<RunEvent>, Option<RunError>, Option<Artifact>),
)
    requires
        call_ensures(encode_event, (event,), written.0),
        call_ensures(encode_run_error, (error,), written.1),
        call_ensures(encode_artifact, (artifact,), written.2),
        call_ensures(encode_diagnostic, (diagnostic,), written.3),
        call_ensures(decode_event, (value,), read.0),
        call_ensures(decode_run_error, (value,), read.1),
        call_ensures(decode_artifact, (value,), read.2),
    ensures
        event_says(written.0@, event@),
        run_error_says(written.1@, error@),
        artifact_says(written.2@, artifact@),
        diagnostic_says(written.3@, diagnostic@),
        read.0 is Some ==> event_says(value@, read.0->0@),
        read.1 is Some ==> run_error_says(value@, read.1->0@),
        read.2 is Some ==> artifact_says(value@, read.2->0@),
{
    written_records_say_what_is_there(artifact@, error@, diagnostic@, event@);
    if read.0 is Some {
        event_is_read(value@, read.0->0@);
    }
    if read.1 is Some {
        run_error_is_read(value@, read.1->0@);
    }
    if read.2 is Some {
        artifact_is_read(value@, read.2->0@);
    }
}

/// What is told of a run: the kind and the message of its latest failure, its events in order, and
/// its summary.
pub proof fn runs_are_told(
    report: &RunReport,
    kind: Option<crate::run::FailureKind>,
    message: Option<String>,
    records: Vec<Json>,
    i: int,
    id: &str,
    uri: &str,
    most: Option<u64>,
    prune: Option<EvidencePruneReport>,
    summary: Json,
)
    requires
        call_ensures(report_failure_kind, (report,), kind),
        call_ensures(report_error_message, (report,), message),
        call_ensures(event_records, (report,), records),
        call_ensures(evidence_summary, (id, report, uri, most, prune), summary),
    ensures
        kind == last_failure_kind(views(report.events@)),
        opt_text(message) == last_failure_message(views(report.events@)),
        records@.len() == report.events@.len(),
        0 <= i < records@.len() ==> event_says(records@[i]@, report.events@[i]@),
        summary@ == summary_tree(id@, *report, uri@, most, prune),
{
    let all = trees(records@);
    let events = views(report.events@);
    assert(all.len() == records@.len());
    assert(events.len() == report.events@.len());
    if 0 <= i < records@.len() {
        assert(all[i] == records@[i]@);
        assert(events[i] == report.events@[i]@);
        crate::codec::records::event_round_trip(events[i]);
        event_is_read(all[i], events[i]);
    }
}

/// A preflight is written with whether the run may begin: it may unless a diagnostic is an error.
pub proof fn preflights_are_written_with_their_verdict(
    report: &PreflightReport,
    r: Json,
    platform: Platform,
    trusted: bool,
    permission: Json,
    i: int,
)
    requires
        call_ensures(preflight_json, (report,), r),
        call_ensures(permission_json, (platform, trusted), permission),
    ensures
        r@ is Object,
        0 <= i < report.diagnostics@.len() && report.diagnostics@[i].severity
            == PreflightSeverity::Error ==> truth(r@->Object_0, "canRun"@, false),
        (forall|j: int|
            0 <= j < report.diagnostics@.len() ==> (#[trigger] report.diagnostics@[j]).severity
                == PreflightSeverity::Warning) ==> truth(r@->Object_0, "canRun"@, true),
        permission@ is Object,
        truth(permission@->Object_0, "accessibilityTrusted"@, trusted),
        text(permission@->Object_0, "platform"@, platform_word(platform)),
{
    broadcast use group_fields;

    reveal_strlit("canRun");
    reveal_strlit("diagnostics");
    reveal_strlit("accessibilityTrusted");
    reveal_strlit("platform");
    assert("canRun"@.len() == 6 && "diagnostics"@.len() == 11);
    assert("accessibilityTrusted"@.len() == 20 && "platform"@.len() == 8);
    let all = views(report.diagnostics@);
    if 0 <= i < report.diagnostics@.len() {
        assert(all[i] == report.diagnostics@[i]@);
    }
    if forall|j: int|
        0 <= j < report.diagnostics@.len() ==> (#[trigger] report.diagnostics@[j]).severity
            == PreflightSeverity::Warning {
        assert forall|j: int| 0 <= j < all.len() implies !crate::executor::is_error(
            #[trigger] all[j],
        ) by {
            assert(all[j] == report.diagnostics@[j]@);
            assert(report.diagnostics@[j].severity == PreflightSeverity::Warning);
        }
    }
}

} // verus!
