//! What the records for the user say, entry by entry.
use vstd::prelude::*;
use crate::accessibility::{
    AccessibilityBounds, AccessibilityPoint, AccessibilitySelectorCandidateView, AccessibilityTree,
    AdapterCapabilities, NodeView, SelectorConfidence, SelectorRepairReport, WindowIdentityView,
};
use crate::cli::drills::{
    drill_next, failed_result, judged_result, manifest_result, unloaded_result, DrillNewsView,
    DrillRunView, ReportView, StageView,
};
use crate::cli::manifest::{DrillEntryView, DrillExpectedOutcome};
use crate::cli::reports::{
    last_failure_kind, prune_tree, retention_tree, step_failure_tree, summary_tree,
    EvidencePruneReport,
};
use crate::codec::inspection::{
    bounds_tree, candidate_tree, candidates_tree, capabilities_tree, children_trees,
    inspection_tree, node_tree, point_tree, repair_tree, window_tree,
};
use crate::collections::lookup;
use crate::executor::{RunOutcome, RunReport};
use crate::fields::{group_fields, with};
use crate::laws::documents::{platform_word, signed_number, target_says, text};
use crate::laws::reports::{error_kind_word, failure_kind_word};
use crate::run::RunErrorView;
use crate::value::{NumberView, Tree};

verus! {

type Entries = Seq<(Seq<char>, Tree)>;

/// A text, or null.
pub open spec fn text_or_null(entries: Entries, key: Seq<char>, x: Option<Seq<char>>) -> bool {
    lookup(entries, key) == Some(
        match x {
            Some(y) => Tree::Text(y),
            None => Tree::Null,
        },
    )
}

/// A truth value, or null.
pub open spec fn bool_or_null(entries: Entries, key: Seq<char>, x: Option<bool>) -> bool {
    lookup(entries, key) == Some(
        match x {
            Some(y) => Tree::Bool(y),
            None => Tree::Null,
        },
    )
}

pub open spec fn truth(entries: Entries, key: Seq<char>, x: bool) -> bool {
    lookup(entries, key) == Some(Tree::Bool(x))
}

pub open spec fn count(entries: Entries, key: Seq<char>, n: int) -> bool {
    lookup(entries, key) == Some(Tree::Number(NumberView::PosInt(n as u64)))
}

/// A list of texts, in order.
pub open spec fn text_list(entries: Entries, key: Seq<char>, x: Seq<Seq<char>>) -> bool {
    &&& lookup(entries, key) is Some && lookup(entries, key)->0 is Array
    &&& lookup(entries, key)->0->Array_0.len() == x.len()
    &&& forall|i: int|
        0 <= i < x.len() ==> #[trigger] lookup(entries, key)->0->Array_0[i] == Tree::Text(x[i])
}

/// The words for how far a selector can be relied on.
pub open spec fn confidence_word(v: SelectorConfidence) -> Seq<char> {
    match v {
        SelectorConfidence::High => "high"@,
        SelectorConfidence::Medium => "medium"@,
        SelectorConfidence::Low => "low"@,
        SelectorConfidence::LastResort => "lastResort"@,
    }
}

/// The words for how a run ended.
pub open spec fn outcome_word(v: RunOutcome) -> Seq<char> {
    match v {
        RunOutcome::Succeeded => "succeeded"@,
        RunOutcome::Failed => "failed"@,
        RunOutcome::Cancelled => "cancelled"@,
    }
}

/// The words for how a run is expected to end.
pub open spec fn expected_word(v: DrillExpectedOutcome) -> Seq<char> {
    match v {
        DrillExpectedOutcome::Succeeded => "succeeded"@,
        DrillExpectedOutcome::Failed => "failed"@,
        DrillExpectedOutcome::ExecutorError => "executorError"@,
    }
}

/// Bounds are written edge by edge.
pub proof fn bounds_are_written_edge_by_edge(v: AccessibilityBounds)
    ensures
        bounds_tree(v) is Object,
        ({
            let entries = bounds_tree(v)->Object_0;
            &&& signed_number(entries, "left"@, v.left)
            &&& signed_number(entries, "top"@, v.top)
            &&& signed_number(entries, "right"@, v.right)
            &&& signed_number(entries, "bottom"@, v.bottom)
        }),
{
    broadcast use group_fields;

    reveal_strlit("bottom");
    reveal_strlit("left");
    reveal_strlit("right");
    reveal_strlit("top");
    assert("bottom"@.len() == 6);
    assert("left"@.len() == 4);
    assert("right"@.len() == 5);
    assert("top"@.len() == 3);
}

/// Points are written with both their numbers.
pub proof fn points_are_written_with_both_numbers(v: AccessibilityPoint)
    ensures
        point_tree(v) is Object,
        ({
            let entries = point_tree(v)->Object_0;
            &&& signed_number(entries, "x"@, v.x)
            &&& signed_number(entries, "y"@, v.y)
        }),
{
    broadcast use group_fields;

    reveal_strlit("x");
    reveal_strlit("y");
    assert("x"@.len() == 1);
    assert("y"@.len() == 1);
    assert("x"@[0] != "y"@[0]);
}

/// Windows are written field by field.
pub proof fn windows_are_written_field_by_field(v: WindowIdentityView)
    ensures
        window_tree(v) is Object,
        ({
            let entries = window_tree(v)->Object_0;
            &&& text(entries, "title"@, v.title)
            &&& text(entries, "className"@, v.class_name)
            &&& text(entries, "handle"@, v.handle)
            &&& truth(entries, "isForeground"@, v.is_foreground)
            &&& truth(entries, "isMinimized"@, v.is_minimized)
            &&& text_or_null(entries, "owner"@, v.owner)
            &&& text_or_null(entries, "processName"@, v.process_name)
            &&& count(entries, "processId"@, v.process_id as int)
            &&& lookup(entries, "bounds"@) == Some(match v.bounds {
                Some(b) => bounds_tree(b),
                None => Tree::Null,
            })
        }),
{
    broadcast use group_fields;

    reveal_strlit("bounds");
    reveal_strlit("className");
    reveal_strlit("handle");
    reveal_strlit("isForeground");
    reveal_strlit("isMinimized");
    reveal_strlit("owner");
    reveal_strlit("processId");
    reveal_strlit("processName");
    reveal_strlit("title");
    assert("bounds"@.len() == 6);
    assert("className"@.len() == 9);
    assert("handle"@.len() == 6);
    assert("isForeground"@.len() == 12);
    assert("isMinimized"@.len() == 11);
    assert("owner"@.len() == 5);
    assert("processId"@.len() == 9);
    assert("processName"@.len() == 11);
    assert("title"@.len() == 5);
    assert("bounds"@[0] != "handle"@[0]);
    assert("className"@[0] != "processId"@[0]);
    assert("isMinimized"@[0] != "processName"@[0]);
    assert("owner"@[0] != "title"@[0]);
}

/// Selectors on offer are written field by field.
pub proof fn candidates_are_written_field_by_field(v: AccessibilitySelectorCandidateView)
    ensures
        candidate_tree(v) is Object,
        ({
            let entries = candidate_tree(v)->Object_0;
            &&& text(entries, "confidence"@, confidence_word(v.confidence))
            &&& text(entries, "rationale"@, v.rationale)
            &&& count(entries, "score"@, v.score as int)
            &&& text_list(entries, "changes"@, v.changes)
            &&& text_list(entries, "warnings"@, v.warnings)
            &&& lookup(entries, "target"@) is Some
                    && target_says(lookup(entries, "target"@)->0, v.target)
        }),
{
    broadcast use group_fields;

    reveal_strlit("changes");
    reveal_strlit("confidence");
    reveal_strlit("rationale");
    reveal_strlit("score");
    reveal_strlit("target");
    reveal_strlit("warnings");
    assert("changes"@.len() == 7);
    assert("confidence"@.len() == 10);
    assert("rationale"@.len() == 9);
    assert("score"@.len() == 5);
    assert("target"@.len() == 6);
    assert("warnings"@.len() == 8);
    crate::laws::documents::written_targets_say_what_is_there(v.target);
}

/// Elements are written field by field, with what is inside them in order.
pub proof fn elements_are_written_field_by_field(v: NodeView, i: int)
    ensures
        node_tree(v) is Object,
        ({
            let entries = node_tree(v)->Object_0;
            &&& text(entries, "name"@, v.name)
            &&& text(entries, "automationId"@, v.automation_id)
            &&& text(entries, "controlType"@, v.control_type)
            &&& text(entries, "className"@, v.class_name)
            &&& count(entries, "depth"@, v.depth as int)
            &&& bool_or_null(entries, "enabled"@, v.enabled)
            &&& bool_or_null(entries, "hasKeyboardFocus"@, v.has_keyboard_focus)
            &&& bool_or_null(entries, "keyboardFocusable"@, v.keyboard_focusable)
            &&& text_or_null(entries, "value"@, v.value)
            &&& text_list(entries, "actions"@, v.actions)
            &&& lookup(entries, "bounds"@) == Some(match v.bounds {
                Some(b) => bounds_tree(b),
                None => Tree::Null,
            })
            &&& lookup(entries, "clickPoint"@) == Some(match v.click_point {
                Some(p) => point_tree(p),
                None => Tree::Null,
            })
            &&& lookup(entries, "path"@) is Some && lookup(entries, "path"@)->0 is Array
                    && lookup(entries, "path"@)->0->Array_0.len() == v.path.len()
            &&& 0 <= i < v.path.len()
                    ==> lookup(entries, "path"@)->0->Array_0[i]
                        == Tree::Number(NumberView::PosInt(v.path[i] as u64))
            &&& lookup(entries, "children"@) is Some
                    && lookup(entries, "children"@)->0 is Array
                        && lookup(entries, "children"@)->0->Array_0.len() == v.children.len()
            &&& 0 <= i < v.children.len()
                    ==> lookup(entries, "children"@)->0->Array_0[i] == node_tree(v.children[i])
            &&& lookup(entries, "selectorCandidates"@)
                    == Some(candidates_tree(v.selector_candidates))
        }),
{
    broadcast use group_fields;

    reveal_strlit("actions");
    reveal_strlit("automationId");
    reveal_strlit("bounds");
    reveal_strlit("children");
    reveal_strlit("className");
    reveal_strlit("clickPoint");
    reveal_strlit("controlType");
    reveal_strlit("depth");
    reveal_strlit("enabled");
    reveal_strlit("hasKeyboardFocus");
    reveal_strlit("keyboardFocusable");
    reveal_strlit("name");
    reveal_strlit("path");
    reveal_strlit("selectorCandidates");
    reveal_strlit("value");
    assert("actions"@.len() == 7);
    assert("automationId"@.len() == 12);
    assert("bounds"@.len() == 6);
    assert("children"@.len() == 8);
    assert("className"@.len() == 9);
    assert("clickPoint"@.len() == 10);
    assert("controlType"@.len() == 11);
    assert("depth"@.len() == 5);
    assert("enabled"@.len() == 7);
    assert("hasKeyboardFocus"@.len() == 16);
    assert("keyboardFocusable"@.len() == 17);
    assert("name"@.len() == 4);
    assert("path"@.len() == 4);
    assert("selectorCandidates"@.len() == 18);
    assert("value"@.len() == 5);
    assert("actions"@[0] != "enabled"@[0]);
    assert("depth"@[0] != "value"@[0]);
    assert("name"@[0] != "path"@[0]);
    children_in_order(v, v.children.len(), i);
}

proof fn children_in_order(v: NodeView, n: nat, i: int)
    requires
        n <= v.children.len(),
    ensures
        children_trees(v, n).len() == n,
        0 <= i < n ==> children_trees(v, n)[i] == node_tree(v.children[i]),
    decreases n,
{
    if n > 0 {
        children_in_order(v, (n - 1) as nat, i);
    }
}

/// Inspections are written field by field.
pub proof fn inspections_are_written_field_by_field(v: AccessibilityTree)
    ensures
        inspection_tree(v) is Object,
        ({
            let entries = inspection_tree(v)->Object_0;
            &&& count(entries, "maxDepth"@, v.max_depth as int)
            &&& count(entries, "maxNodes"@, v.max_nodes as int)
            &&& text(entries, "platform"@, platform_word(v.platform))
            &&& lookup(entries, "root"@) == Some(node_tree(v.root@))
            &&& text(entries, "selector"@, v.selector@)
            &&& truth(entries, "truncated"@, v.truncated)
            &&& text(entries, "windowTitle"@, v.window_title@)
            &&& lookup(entries, "window"@) == Some(match v.window {
                Some(w) => window_tree(w@),
                None => Tree::Null,
            })
        }),
{
    broadcast use group_fields;

    reveal_strlit("maxDepth");
    reveal_strlit("maxNodes");
    reveal_strlit("platform");
    reveal_strlit("root");
    reveal_strlit("selector");
    reveal_strlit("truncated");
    reveal_strlit("window");
    reveal_strlit("windowTitle");
    assert("maxDepth"@.len() == 8);
    assert("maxNodes"@.len() == 8);
    assert("platform"@.len() == 8);
    assert("root"@.len() == 4);
    assert("selector"@.len() == 8);
    assert("truncated"@.len() == 9);
    assert("window"@.len() == 6);
    assert("windowTitle"@.len() == 11);
    assert("maxDepth"@[3] != "maxNodes"@[3]);
    assert("maxDepth"@[0] != "platform"@[0]);
    assert("maxDepth"@[0] != "selector"@[0]);
    assert("maxNodes"@[0] != "platform"@[0]);
    assert("maxNodes"@[0] != "selector"@[0]);
    assert("platform"@[0] != "selector"@[0]);
}

/// Repairs are written field by field.
pub proof fn repairs_are_written_field_by_field(v: SelectorRepairReport)
    ensures
        repair_tree(v) is Object,
        ({
            let entries = repair_tree(v)->Object_0;
            &&& truth(entries, "matched"@, v.matched)
            &&& lookup(entries, "original"@) is Some
                    && target_says(lookup(entries, "original"@)->0, v.original@)
            &&& lookup(entries, "candidates"@)
                    == Some(candidates_tree(crate::views::views(v.candidates@)))
            &&& text_list(entries, "diagnostics"@, crate::text::texts(v.diagnostics@))
        }),
{
    broadcast use group_fields;

    reveal_strlit("candidates");
    reveal_strlit("diagnostics");
    reveal_strlit("matched");
    reveal_strlit("original");
    assert("candidates"@.len() == 10);
    assert("diagnostics"@.len() == 11);
    assert("matched"@.len() == 7);
    assert("original"@.len() == 8);
    crate::laws::documents::written_targets_say_what_is_there(v.original@);
}

/// What an adapter can do is written field by field.
pub proof fn capabilities_are_written_field_by_field(v: AdapterCapabilities)
    ensures
        capabilities_tree(v) is Object,
        ({
            let entries = capabilities_tree(v)->Object_0;
            &&& text(entries, "platform"@, platform_word(v.platform))
            &&& truth(entries, "supportsAccessibilityTree"@, v.supports_accessibility_tree)
            &&& truth(entries, "supportsCoordinateTargets"@, v.supports_coordinate_targets)
            &&& truth(entries, "supportsFocus"@, v.supports_focus)
            &&& truth(entries, "supportsInput"@, v.supports_input)
            &&& truth(entries, "supportsLaunch"@, v.supports_launch)
            &&& truth(entries, "supportsProcessQueries"@, v.supports_process_queries)
            &&& truth(entries, "supportsSemanticTargets"@, v.supports_semantic_targets)
            &&& truth(entries, "supportsWindowQueries"@, v.supports_window_queries)
        }),
{
    broadcast use group_fields;

    reveal_strlit("platform");
    reveal_strlit("supportsAccessibilityTree");
    reveal_strlit("supportsCoordinateTargets");
    reveal_strlit("supportsFocus");
    reveal_strlit("supportsInput");
    reveal_strlit("supportsLaunch");
    reveal_strlit("supportsProcessQueries");
    reveal_strlit("supportsSemanticTargets");
    reveal_strlit("supportsWindowQueries");
    assert("platform"@.len() == 8);
    assert("supportsAccessibilityTree"@.len() == 25);
    assert("supportsCoordinateTargets"@.len() == 25);
    assert("supportsFocus"@.len() == 13);
    assert("supportsInput"@.len() == 13);
    assert("supportsLaunch"@.len() == 14);
    assert("supportsProcessQueries"@.len() == 22);
    assert("supportsSemanticTargets"@.len() == 23);
    assert("supportsWindowQueries"@.len() == 21);
    assert("supportsAccessibilityTree"@[8] != "supportsCoordinateTargets"@[8]);
    assert("supportsFocus"@[8] != "supportsInput"@[8]);
}

/// A failed step is written field by field.
pub proof fn failures_are_written_field_by_field(event: Seq<char>, step: Seq<char>, e: RunErrorView)
    ensures
        step_failure_tree(event, step, e) is Object,
        ({
            let entries = step_failure_tree(event, step, e)->Object_0;
            &&& text(entries, "errorKind"@, error_kind_word(e.kind))
            &&& text(entries, "event"@, event)
            &&& text(entries, "message"@, e.message)
            &&& text(entries, "stepId"@, step)
            &&& text_or_null(entries, "source"@, e.source)
            &&& lookup(entries, "failureKind"@) == Some(match e.failure_kind {
                Some(k) => Tree::Text(failure_kind_word(k)),
                None => Tree::Null,
            })
        }),
{
    broadcast use group_fields;

    reveal_strlit("errorKind");
    reveal_strlit("event");
    reveal_strlit("failureKind");
    reveal_strlit("message");
    reveal_strlit("source");
    reveal_strlit("stepId");
    assert("errorKind"@.len() == 9);
    assert("event"@.len() == 5);
    assert("failureKind"@.len() == 11);
    assert("message"@.len() == 7);
    assert("source"@.len() == 6);
    assert("stepId"@.len() == 6);
    assert("source"@[1] != "stepId"@[1]);
}

/// What was removed is written field by field.
pub proof fn prunes_are_written_field_by_field(p: Option<EvidencePruneReport>)
    ensures
        prune_tree(p) is Object,
        ({
            let entries = prune_tree(p)->Object_0;
            &&& truth(entries, "requested"@, p is Some)
            &&& truth(entries, "eventsRemoved"@, p is Some && p->0.events_removed)
            &&& truth(entries, "stepsRemoved"@, p is Some && p->0.steps_removed)
            &&& truth(entries, "summaryRemoved"@, p is Some && p->0.summary_removed)
        }),
{
    broadcast use group_fields;

    reveal_strlit("eventsRemoved");
    reveal_strlit("requested");
    reveal_strlit("stepsRemoved");
    reveal_strlit("summaryRemoved");
    assert("eventsRemoved"@.len() == 13);
    assert("requested"@.len() == 9);
    assert("stepsRemoved"@.len() == 12);
    assert("summaryRemoved"@.len() == 14);
}

/// The limit on artifacts that holds is written beside the usual one.
pub proof fn limits_are_written_field_by_field(most: Option<u64>, p: Option<EvidencePruneReport>)
    ensures
        retention_tree(most, p) is Object,
        ({
            let entries = retention_tree(most, p)->Object_0;
            &&& count(entries, "defaultMaxArtifactBytes"@, 26_214_400)
            &&& count(entries, "effectiveMaxArtifactBytes"@, match most {
                Some(n) => n as int,
                None => 26_214_400,
            })
            &&& truth(entries, "prunedBeforeRun"@, p is Some)
            &&& lookup(entries, "pruneBeforeRun"@) == Some(prune_tree(p))
        }),
{
    broadcast use group_fields;

    reveal_strlit("defaultMaxArtifactBytes");
    reveal_strlit("desktopScreenshotsExcludedFromStepEvidence");
    reveal_strlit("effectiveMaxArtifactBytes");
    reveal_strlit("evidenceIsLocal");
    reveal_strlit("pruneBeforeRun");
    reveal_strlit("prunedBeforeRun");
    reveal_strlit("valuesCapturedOnlyWhenAllowed");
    assert("defaultMaxArtifactBytes"@.len() == 23);
    assert("desktopScreenshotsExcludedFromStepEvidence"@.len() == 42);
    assert("effectiveMaxArtifactBytes"@.len() == 25);
    assert("evidenceIsLocal"@.len() == 15);
    assert("pruneBeforeRun"@.len() == 14);
    assert("prunedBeforeRun"@.len() == 15);
    assert("valuesCapturedOnlyWhenAllowed"@.len() == 29);
    assert("evidenceIsLocal"@[0] != "prunedBeforeRun"@[0]);
}

/// Summaries name their run, how it ended and where its events are.
pub proof fn summaries_are_written_field_by_field(
    id: Seq<char>,
    report: RunReport,
    uri: Seq<char>,
    most: Option<u64>,
    p: Option<EvidencePruneReport>,
)
    ensures
        summary_tree(id, report, uri, most, p) is Object,
        ({
            let entries = summary_tree(id, report, uri, most, p)->Object_0;
            &&& text(entries, "automationId"@, id)
            &&& text(entries, "events"@, uri)
            &&& text(entries, "outcome"@, outcome_word(report.outcome))
            &&& text(entries, "runId"@, report.run_id@)
            &&& lookup(entries, "retentionPolicy"@) == Some(retention_tree(most, p))
            &&& lookup(entries, "artifacts"@) is Some && lookup(entries, "artifacts"@)->0 is Array
            &&& count(entries, "artifactCount"@, lookup(entries, "artifacts"@)->0->Array_0.len() as int)
        }),
{
    broadcast use group_fields;

    reveal_strlit("artifactCount");
    reveal_strlit("artifacts");
    reveal_strlit("automationId");
    reveal_strlit("events");
    reveal_strlit("failureSummary");
    reveal_strlit("outcome");
    reveal_strlit("redactionPolicy");
    reveal_strlit("retentionPolicy");
    reveal_strlit("runId");
    assert("artifactCount"@.len() == 13);
    assert("artifacts"@.len() == 9);
    assert("automationId"@.len() == 12);
    assert("events"@.len() == 6);
    assert("failureSummary"@.len() == 14);
    assert("outcome"@.len() == 7);
    assert("redactionPolicy"@.len() == 15);
    assert("retentionPolicy"@.len() == 15);
    assert("runId"@.len() == 5);
    assert("redactionPolicy"@[2] != "retentionPolicy"@[2]);
}

/// A drill whose definition could not be had does not match.
pub proof fn unread_drills_do_not_match(
    d: DrillEntryView,
    path: Seq<char>,
    outcome: Seq<char>,
    error: Seq<char>,
)
    ensures
        unloaded_result(d, path, outcome, error) is Object,
        ({
            let entries = unloaded_result(d, path, outcome, error)->Object_0;
            &&& text(entries, "actualOutcome"@, outcome)
            &&& text(entries, "error"@, error)
            &&& text(entries, "expectedOutcome"@, expected_word(d.expected_outcome))
            &&& text(entries, "id"@, d.id)
            &&& truth(entries, "matched"@, false)
            &&& text(entries, "path"@, path)
        }),
{
    broadcast use group_fields;

    reveal_strlit("actualOutcome");
    reveal_strlit("error");
    reveal_strlit("expectedOutcome");
    reveal_strlit("id");
    reveal_strlit("matched");
    reveal_strlit("path");
    assert("actualOutcome"@.len() == 13);
    assert("error"@.len() == 5);
    assert("expectedOutcome"@.len() == 15);
    assert("id"@.len() == 2);
    assert("matched"@.len() == 7);
    assert("path"@.len() == 4);
    reveal(unloaded_result);
}

/// An attempt that came to an error is written field by field.
pub proof fn failed_attempts_are_written_field_by_field(
    d: DrillEntryView,
    path: Seq<char>,
    attempt: u32,
    millis: u64,
    outcome: Seq<char>,
    matched: bool,
    error: Seq<char>,
)
    ensures
        failed_result(d, path, attempt, millis, outcome, matched, error) is Object,
        ({
            let entries = failed_result(d, path, attempt, millis, outcome, matched, error)->Object_0;
            &&& text(entries, "actualOutcome"@, outcome)
            &&& text(entries, "error"@, error)
            &&& text(entries, "expectedOutcome"@, expected_word(d.expected_outcome))
            &&& text(entries, "id"@, d.id)
            &&& truth(entries, "matched"@, matched)
            &&& text(entries, "path"@, path)
            &&& count(entries, "attempt"@, attempt as int)
            &&& count(entries, "durationMillis"@, millis as int)
            &&& truth(entries, "durationMatched"@, d.expected_max_duration_millis is Some
                    ==> millis <= d.expected_max_duration_millis->0)
        }),
{
    broadcast use group_fields;

    reveal_strlit("actualOutcome");
    reveal_strlit("attempt");
    reveal_strlit("durationMatched");
    reveal_strlit("durationMillis");
    reveal_strlit("error");
    reveal_strlit("expectedMaxDurationMillis");
    reveal_strlit("expectedOutcome");
    reveal_strlit("id");
    reveal_strlit("matched");
    reveal_strlit("path");
    reveal_strlit("repeat");
    assert("actualOutcome"@.len() == 13);
    assert("attempt"@.len() == 7);
    assert("durationMatched"@.len() == 15);
    assert("durationMillis"@.len() == 14);
    assert("error"@.len() == 5);
    assert("expectedMaxDurationMillis"@.len() == 25);
    assert("expectedOutcome"@.len() == 15);
    assert("id"@.len() == 2);
    assert("matched"@.len() == 7);
    assert("path"@.len() == 4);
    assert("repeat"@.len() == 6);
    assert("attempt"@[0] != "matched"@[0]);
    assert("durationMatched"@[0] != "expectedOutcome"@[0]);
    reveal(failed_result);
}

/// An attempt that ran is written field by field.
pub proof fn judged_attempts_are_written_field_by_field(
    d: DrillEntryView,
    path: Seq<char>,
    attempt: u32,
    millis: u64,
    report: ReportView,
    p: Option<EvidencePruneReport>,
)
    ensures
        judged_result(d, path, attempt, millis, report, p) is Object,
        ({
            let entries = judged_result(d, path, attempt, millis, report, p)->Object_0;
            &&& text(entries, "actualOutcome"@, outcome_word(report.outcome))
            &&& text(entries, "expectedOutcome"@, expected_word(d.expected_outcome))
            &&& text(entries, "id"@, d.id)
            &&& text(entries, "path"@, path)
            &&& text(entries, "runId"@, report.run_id)
            &&& count(entries, "attempt"@, attempt as int)
            &&& count(entries, "durationMillis"@, millis as int)
            &&& count(entries, "eventCount"@, report.events.len() as int)
            &&& truth(entries, "durationMatched"@, d.expected_max_duration_millis is Some
                    ==> millis <= d.expected_max_duration_millis->0)
            &&& lookup(entries, "actualFailureKind"@)
                    == Some(match last_failure_kind(report.events) {
                Some(k) => Tree::Text(failure_kind_word(k)),
                None => Tree::Null,
            })
            &&& truth(entries, "matched"@, crate::cli::drills::report_expected(d, report.outcome, report.events, millis as nat))
        }),
{
    broadcast use group_fields;

    reveal_strlit("actualFailureKind");
    reveal_strlit("actualOutcome");
    reveal_strlit("attempt");
    reveal_strlit("durationMatched");
    reveal_strlit("durationMillis");
    reveal_strlit("eventCount");
    reveal_strlit("evidencePrune");
    reveal_strlit("expectedFailureKind");
    reveal_strlit("expectedLogMatched");
    reveal_strlit("expectedMaxDurationMillis");
    reveal_strlit("expectedOutcome");
    reveal_strlit("failureSummary");
    reveal_strlit("id");
    reveal_strlit("matched");
    reveal_strlit("path");
    reveal_strlit("repeat");
    reveal_strlit("runId");
    assert("actualFailureKind"@.len() == 17);
    assert("actualOutcome"@.len() == 13);
    assert("attempt"@.len() == 7);
    assert("durationMatched"@.len() == 15);
    assert("durationMillis"@.len() == 14);
    assert("eventCount"@.len() == 10);
    assert("evidencePrune"@.len() == 13);
    assert("expectedFailureKind"@.len() == 19);
    assert("expectedLogMatched"@.len() == 18);
    assert("expectedMaxDurationMillis"@.len() == 25);
    assert("expectedOutcome"@.len() == 15);
    assert("failureSummary"@.len() == 14);
    assert("id"@.len() == 2);
    assert("matched"@.len() == 7);
    assert("path"@.len() == 4);
    assert("repeat"@.len() == 6);
    assert("runId"@.len() == 5);
    assert("actualOutcome"@[0] != "evidencePrune"@[0]);
    assert("attempt"@[0] != "matched"@[0]);
    assert("durationMatched"@[0] != "expectedOutcome"@[0]);
    assert("durationMillis"@[0] != "failureSummary"@[0]);
    reveal(judged_result);
}

/// How the drills of a manifest went is told by their results and one verdict.
pub proof fn manifests_are_told_by_their_results(s: DrillRunView)
    ensures
        manifest_result(s) is Object,
        ({
            let entries = manifest_result(s)->Object_0;
            &&& text(entries, "id"@, s.manifest.id)
            &&& truth(entries, "matched"@, s.matched)
            &&& lookup(entries, "results"@) == Some(Tree::Array(s.results))
        }),
{
    broadcast use group_fields;

    reveal_strlit("id");
    reveal_strlit("matched");
    reveal_strlit("results");
    assert("id"@.len() == 2);
    assert("matched"@.len() == 7);
    assert("results"@.len() == 7);
    assert("matched"@[0] != "results"@[0]);
}

/// How often a drill is run: as often as it says, and once where it says nothing or zero.
pub open spec fn times(d: DrillEntryView) -> int {
    if d.repeat is Some && d.repeat->0 > 0 {
        d.repeat->0 as int
    } else {
        1
    }
}

/// Whether drills have gone on by one result: to the next attempt while there are more to make, and
/// otherwise to the next drill, or to the end after the last.
pub open spec fn one_more_result(a: DrillRunView, b: DrillRunView, more: bool) -> bool {
    &&& b.results.len() == a.results.len() + 1
    &&& forall|i: int| 0 <= i < a.results.len() ==> #[trigger] b.results[i] == a.results[i]
    &&& b.manifest == a.manifest && b.platform == a.platform
    &&& if more && a.attempt < times(a.manifest.drills[a.drill as int]) {
        b.drill == a.drill && b.attempt == a.attempt + 1 && b.stage is Starting
    } else {
        b.drill == a.drill + 1 && b.attempt == 1 && (b.stage is Done <==> b.drill
            == a.manifest.drills.len()) && (b.stage is Done || b.stage is Reading)
    }
}

/// Each answer takes the drills on by one stage, or ends the attempt with one result. A definition
/// that cannot be read ends its drill; whatever else ends an attempt leaves the others to be made.
pub proof fn drills_go_on_attempt_by_attempt(s: DrillRunView, news: DrillNewsView)
    ensures
        ({
            let t = drill_next(s, news);
            match (s.stage, news) {
                (StageView::Reading, DrillNewsView::Unreadable { .. }) => one_more_result(
                    s,
                    t,
                    false,
                ) && !t.matched,
                (StageView::Reading, DrillNewsView::Text { path, input }) => t.stage is Starting
                    && t.results == s.results || one_more_result(s, t, false) && !t.matched,
                (StageView::Starting { path, definition }, DrillNewsView::Begun { .. }) =>
                    t.results == s.results && t.stage is Checking && t.stage->Checking_path == path
                        && t.stage->Checking_definition == definition,
                (
                    StageView::Checking { path, definition, config },
                    DrillNewsView::Checked { refusal, .. },
                ) => if refusal is Some {
                    one_more_result(s, t, true)
                } else {
                    t.results == s.results && (t.stage is Pruning || t.stage is Running)
                },
                (StageView::Pruning { .. }, DrillNewsView::PruneFailed { .. }) => one_more_result(
                    s,
                    t,
                    true,
                ) && !t.matched,
                (StageView::Pruning { .. }, DrillNewsView::Pruned { removed }) => t.results
                    == s.results && t.stage is Running && t.stage->Running_prune == Some(removed),
                (
                    StageView::Running { path, definition, config, prune },
                    DrillNewsView::Ran { result, millis },
                ) => if result is Ok && config.evidence_directory is Some {
                    t.results == s.results && t.stage is Bundling
                } else {
                    one_more_result(s, t, true)
                },
                (StageView::Bundling { .. }, DrillNewsView::BundleFailed { .. }) => one_more_result(
                    s,
                    t,
                    true,
                ) && !t.matched,
                (StageView::Bundling { .. }, DrillNewsView::BundleWritten) => one_more_result(
                    s,
                    t,
                    true,
                ),
                _ => t == s,
            }
        }),
{
}

} // verus!
