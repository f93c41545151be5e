//! What is reported of a run.
use vstd::prelude::*;
use crate::codec::names::{platform_name, platform_text};
use crate::codec::records::{
    artifact_kind_name, artifact_kind_text, artifacts_tree, diagnostics_tree, encode_artifacts,
    encode_diagnostics, encode_event, encode_null_or_text, error_kind_name, error_kind_text,
    event_tree, failure_kind_name, failure_kind_text, null_or_text,
};
use crate::definition::Platform;
use crate::evidence::DEFAULT_EVIDENCE_MAX_ARTIFACT_BYTES;
use crate::executor::{runnable, PreflightReport, RunOutcome, RunReport};
use crate::fields::{add_field, encode_text, encode_u64, no_fields, unsigned, with};
use crate::run::{
    FailureKind, PreflightDiagnosticView, RunError, RunErrorView, RunEvent, RunEventView,
};
use crate::text::{concat, join, joined, opt_text, strip_prefix, texts, without_prefix};
use crate::value::{array_tree, object_tree, trees, Json, Tree};
use crate::views::{opt_view, views};

verus! {

/// The messages of the diagnostics, in order.
pub open spec fn messages_of(diagnostics: Seq<PreflightDiagnosticView>) -> Seq<Seq<char>> {
    diagnostics.map_values(|d: PreflightDiagnosticView| d.message)
}

/// The messages of a preflight, in one line.
pub fn preflight_messages(report: &PreflightReport) -> (r: String)
    ensures
        r@ == joined(messages_of(views(report.diagnostics@)), "; "@),
{
    let mut items: Vec<String> = Vec::new();
    let mut i: usize = 0;
    while i < report.diagnostics.len()
        invariant
            i <= report.diagnostics@.len(),
            items@.len() == i,
            forall|j: int|
                0 <= j < i ==> (#[trigger] items@[j])@ == report.diagnostics@[j].message@,
        decreases report.diagnostics@.len() - i,
    {
        items.push(report.diagnostics[i].message.clone());
        i = i + 1;
    }
    assert(texts(items@) =~= messages_of(views(report.diagnostics@)));
    join(&items, "; ")
}

/// What an event says of a failure.
pub open spec fn failure_of(e: RunEventView) -> Option<RunErrorView> {
    match e {
        RunEventView::StepFailed { run_id, automation_id, step_id, error } => Some(error),
        RunEventView::ManualIntervention { run_id, automation_id, step_id, error } => Some(error),
        _ => None,
    }
}

/// The kind of the latest failure that has one.
pub open spec fn last_failure_kind(events: Seq<RunEventView>) -> Option<FailureKind>
    decreases events.len(),
{
    if events.len() == 0 {
        None
    } else {
        match failure_of(events.last()) {
            Some(error) => if error.failure_kind is Some {
                error.failure_kind
            } else {
                last_failure_kind(events.drop_last())
            },
            None => last_failure_kind(events.drop_last()),
        }
    }
}

/// The latest event that speaks of a failure.
pub open spec fn last_failure(events: Seq<RunEventView>) -> Option<RunEventView>
    decreases events.len(),
{
    if events.len() == 0 {
        None
    } else if failure_of(events.last()) is Some {
        Some(events.last())
    } else {
        last_failure(events.drop_last())
    }
}

/// The message of the latest failure.
pub open spec fn last_failure_message(events: Seq<RunEventView>) -> Option<Seq<char>> {
    match last_failure(events) {
        Some(e) => Some(failure_of(e)->0.message),
        None => None,
    }
}

/// The latest event speaks of a failure where there is one.
pub proof fn last_failure_fails(events: Seq<RunEventView>)
    ensures
        match last_failure(events) {
            Some(e) => failure_of(e) is Some && events.contains(e),
            None => forall|i: int| 0 <= i < events.len() ==> failure_of(
                #[trigger] events[i],
            ) is None,
        },
    decreases events.len(),
{
    if events.len() > 0 {
        let front = events.drop_last();
        last_failure_fails(front);
        match last_failure(events) {
            Some(e) => {
                if failure_of(events.last()) is Some {
                    assert(events[events.len() - 1] == e);
                } else {
                    let i = choose|i: int| 0 <= i < front.len() && front[i] == e;
                    assert(events[i] == e);
                }
            },
            None => {
                assert forall|i: int| 0 <= i < events.len() implies failure_of(
                    #[trigger] events[i],
                ) is None by {
                    if i < front.len() {
                        assert(front[i] == events[i]);
                    }
                }
            },
        }
    }
}

/// The kind of the latest failure that has one.
pub fn report_failure_kind(report: &RunReport) -> (r: Option<FailureKind>)
    ensures
        r == last_failure_kind(views(report.events@)),
{
    let ghost all = views(report.events@);
    let mut i: usize = report.events.len();
    assert(all.take(i as int) =~= all);
    while i > 0
        invariant
            i <= report.events@.len(),
            all == views(report.events@),
            last_failure_kind(all) == last_failure_kind(all.take(i as int)),
        decreases i,
    {
        i = i - 1;
        assert(all.take(i + 1).drop_last() =~= all.take(i as int));
        assert(all.take(i + 1).last() == report.events@[i as int]@);
        match &report.events[i] {
            RunEvent::StepFailed { run_id, automation_id, step_id, error } => {
                if error.failure_kind.is_some() {
                    return error.failure_kind;
                }
            },
            RunEvent::ManualIntervention { run_id, automation_id, step_id, error } => {
                if error.failure_kind.is_some() {
                    return error.failure_kind;
                }
            },
            _ => {},
        }
    }
    None
}

/// Where the latest event stands that speaks of a failure.
fn find_last_failure(events: &Vec<RunEvent>) -> (r: Option<usize>)
    ensures
        match r {
            Some(i) => i < events@.len() && failure_of(events@[i as int]@) is Some && last_failure(
                views(events@),
            ) == Some(events@[i as int]@),
            None => last_failure(views(events@)) is None,
        },
{
    let ghost all = views(events@);
    let mut i: usize = events.len();
    assert(all.take(i as int) =~= all);
    while i > 0
        invariant
            i <= events@.len(),
            all == views(events@),
            last_failure(all) == last_failure(all.take(i as int)),
        decreases i,
    {
        i = i - 1;
        assert(all.take(i + 1).drop_last() =~= all.take(i as int));
        assert(all.take(i + 1).last() == events@[i as int]@);
        match &events[i] {
            RunEvent::StepFailed { run_id, automation_id, step_id, error } => {
                return Some(i);
            },
            RunEvent::ManualIntervention { run_id, automation_id, step_id, error } => {
                return Some(i);
            },
            _ => {},
        }
    }
    None
}

/// The message of the latest failure.
pub fn report_error_message(report: &RunReport) -> (r: Option<String>)
    ensures
        opt_text(r) == last_failure_message(views(report.events@)),
{
    match find_last_failure(&report.events) {
        None => None,
        Some(i) => match &report.events[i] {
            RunEvent::StepFailed { run_id, automation_id, step_id, error } => Some(
                error.message.clone(),
            ),
            RunEvent::ManualIntervention { run_id, automation_id, step_id, error } => Some(
                error.message.clone(),
            ),
            _ => None,
        },
    }
}

/// A kind of failure, or null.
pub open spec fn null_or_failure_kind(v: Option<FailureKind>) -> Tree {
    match v {
        Some(x) => Tree::Text(failure_kind_name(x)),
        None => Tree::Null,
    }
}

pub(crate) fn encode_null_or_failure_kind(v: Option<FailureKind>) -> (r: Json)
    ensures
        r@ == null_or_failure_kind(v),
{
    match v {
        Some(x) => encode_text(failure_kind_text(x)),
        None => Json::Null,
    }
}

/// A failed step in a summary.
pub open spec fn step_failure_tree(
    event: Seq<char>,
    step_id: Seq<char>,
    error: RunErrorView,
) -> Tree {
    let entries: Seq<(Seq<char>, Tree)> = Seq::empty();
    let entries = with(entries, "errorKind"@, Some(Tree::Text(error_kind_name(error.kind))));
    let entries = with(entries, "event"@, Some(Tree::Text(event)));
    let entries = with(entries, "failureKind"@, Some(null_or_failure_kind(error.failure_kind)));
    let entries = with(entries, "message"@, Some(Tree::Text(error.message)));
    let entries = with(entries, "source"@, Some(null_or_text(error.source)));
    let entries = with(entries, "stepId"@, Some(Tree::Text(step_id)));
    Tree::Object(entries)
}

fn encode_step_failure(event: &str, step_id: &str, error: &RunError) -> (r: Json)
    ensures
        r@ == step_failure_tree(event@, step_id@, error@),
{
    broadcast use object_tree;

    let mut entries = no_fields();
    add_field(&mut entries, "errorKind", Some(encode_text(error_kind_text(error.kind))));
    add_field(&mut entries, "event", Some(encode_text(event)));
    add_field(&mut entries, "failureKind", Some(encode_null_or_failure_kind(error.failure_kind)));
    add_field(&mut entries, "message", Some(encode_text(error.message.as_str())));
    add_field(&mut entries, "source", Some(encode_null_or_text(&error.source)));
    add_field(&mut entries, "stepId", Some(encode_text(step_id)));
    Json::Object(entries)
}

/// A failed run in a summary, where no step is known to have failed.
pub open spec fn run_failure_tree(event: Seq<char>, message: Seq<char>) -> Tree {
    let entries: Seq<(Seq<char>, Tree)> = Seq::empty();
    let entries = with(entries, "event"@, Some(Tree::Text(event)));
    let entries = with(entries, "message"@, Some(Tree::Text(message)));
    Tree::Object(entries)
}

fn encode_run_failure(event: &str, message: &str) -> (r: Json)
    ensures
        r@ == run_failure_tree(event@, message@),
{
    broadcast use object_tree;

    let mut entries = no_fields();
    add_field(&mut entries, "event", Some(encode_text(event)));
    add_field(&mut entries, "message", Some(encode_text(message)));
    Json::Object(entries)
}

/// What a summary says of the failure of a run: the latest failed step; where none failed, how the
/// run ended; null where it succeeded.
pub open spec fn failure_summary(outcome: RunOutcome, events: Seq<RunEventView>) -> Tree {
    match last_failure(events) {
        Some(RunEventView::StepFailed { run_id, automation_id, step_id, error }) =>
            step_failure_tree("stepFailed"@, step_id, error),
        Some(RunEventView::ManualIntervention { run_id, automation_id, step_id, error }) =>
            step_failure_tree("manualIntervention"@, step_id, error),
        _ => match outcome {
            RunOutcome::Succeeded => Tree::Null,
            RunOutcome::Failed => run_failure_tree(
                "runFailed"@,
                "run failed without a terminal step failure event"@,
            ),
            RunOutcome::Cancelled => run_failure_tree(
                "runCancelled"@,
                "run was cancelled without a terminal step failure event"@,
            ),
        },
    }
}

/// What a summary says of the failure of a run.
pub fn report_failure_summary(report: &RunReport) -> (r: Json)
    ensures
        r@ == failure_summary(report.outcome, views(report.events@)),
{
    match find_last_failure(&report.events) {
        Some(i) => match &report.events[i] {
            RunEvent::StepFailed { run_id, automation_id, step_id, error } => {
                return encode_step_failure("stepFailed", step_id.as_str(), error);
            },
            RunEvent::ManualIntervention { run_id, automation_id, step_id, error } => {
                return encode_step_failure("manualIntervention", step_id.as_str(), error);
            },
            _ => {},
        },
        None => {},
    }
    match report.outcome {
        RunOutcome::Succeeded => Json::Null,
        RunOutcome::Failed => encode_run_failure(
            "runFailed",
            "run failed without a terminal step failure event",
        ),
        RunOutcome::Cancelled => encode_run_failure(
            "runCancelled",
            "run was cancelled without a terminal step failure event",
        ),
    }
}

/// The name by which reports call how a run ended.
pub open spec fn outcome_name(outcome: RunOutcome) -> Seq<char> {
    match outcome {
        RunOutcome::Succeeded => "succeeded"@,
        RunOutcome::Failed => "failed"@,
        RunOutcome::Cancelled => "cancelled"@,
    }
}

pub fn outcome_str(outcome: RunOutcome) -> (r: &'static str)
    ensures
        r@ == outcome_name(outcome),
{
    match outcome {
        RunOutcome::Succeeded => "succeeded",
        RunOutcome::Failed => "failed",
        RunOutcome::Cancelled => "cancelled",
    }
}

/// The address of a file: an absolute path, without the prefix that Windows puts before long ones.
pub fn artifact_uri(path: &str) -> (r: String)
    ensures
        r@ == "file://"@ + without_prefix(path@, "\\\\?\\"@),
{
    let plain = strip_prefix(path, "\\\\?\\");
    concat("file://", plain.as_str())
}

/// What was removed from an evidence directory before a run.
#[derive(Debug, Clone, Copy, PartialEq, Eq, Structural)]
pub struct EvidencePruneReport {
    pub events_removed: bool,
    pub summary_removed: bool,
    pub steps_removed: bool,
}

/// What was removed before a run, as a record.
pub open spec fn prune_tree(report: Option<EvidencePruneReport>) -> Tree {
    let removed = match report {
        Some(r) => r,
        None => EvidencePruneReport {
            events_removed: false,
            summary_removed: false,
            steps_removed: false,
        },
    };
    let entries: Seq<(Seq<char>, Tree)> = Seq::empty();
    let entries = with(entries, "eventsRemoved"@, Some(Tree::Bool(removed.events_removed)));
    let entries = with(entries, "requested"@, Some(Tree::Bool(report is Some)));
    let entries = with(entries, "stepsRemoved"@, Some(Tree::Bool(removed.steps_removed)));
    let entries = with(entries, "summaryRemoved"@, Some(Tree::Bool(removed.summary_removed)));
    Tree::Object(entries)
}

pub fn evidence_prune_json(report: Option<EvidencePruneReport>) -> (r: Json)
    ensures
        r@ == prune_tree(report),
{
    broadcast use object_tree;

    let removed = match report {
        Some(r) => r,
        None => EvidencePruneReport {
            events_removed: false,
            summary_removed: false,
            steps_removed: false,
        },
    };
    let mut entries = no_fields();
    add_field(&mut entries, "eventsRemoved", Some(Json::Bool(removed.events_removed)));
    add_field(&mut entries, "requested", Some(Json::Bool(report.is_some())));
    add_field(&mut entries, "stepsRemoved", Some(Json::Bool(removed.steps_removed)));
    add_field(&mut entries, "summaryRemoved", Some(Json::Bool(removed.summary_removed)));
    Json::Object(entries)
}

/// What an event adds to the artifacts in a summary.
pub open spec fn artifact_entry(e: RunEventView) -> Option<Tree> {
    match e {
        RunEventView::Artifact { run_id, automation_id, step_id, artifact } => Some(
            ({
                let entries: Seq<(Seq<char>, Tree)> = Seq::empty();
                let entries = with(
                    entries,
                    "kind"@,
                    Some(Tree::Text(artifact_kind_name(artifact.kind))),
                );
                let entries = with(entries, "label"@, Some(null_or_text(artifact.label)));
                let entries = with(entries, "stepId"@, Some(null_or_text(step_id)));
                let entries = with(entries, "uri"@, Some(Tree::Text(artifact.uri)));
                Tree::Object(entries)
            }),
        ),
        RunEventView::StepSucceeded { run_id, automation_id, step_id, artifacts } => Some(
            ({
                let entries: Seq<(Seq<char>, Tree)> = Seq::empty();
                let entries = with(entries, "artifacts"@, Some(artifacts_tree(artifacts)));
                let entries = with(entries, "stepId"@, Some(Tree::Text(step_id)));
                Tree::Object(entries)
            }),
        ),
        _ => None,
    }
}

fn encode_artifact_entry(e: &RunEvent) -> (r: Option<Json>)
    ensures
        opt_view(r) == artifact_entry(e@),
{
    broadcast use object_tree;

    let mut entries = no_fields();
    match e {
        RunEvent::Artifact { run_id, automation_id, step_id, artifact } => {
            add_field(&mut entries, "kind", Some(encode_text(artifact_kind_text(artifact.kind))));
            add_field(&mut entries, "label", Some(encode_null_or_text(&artifact.label)));
            add_field(&mut entries, "stepId", Some(encode_null_or_text(step_id)));
            add_field(&mut entries, "uri", Some(encode_text(artifact.uri.as_str())));
            Some(Json::Object(entries))
        },
        RunEvent::StepSucceeded { run_id, automation_id, step_id, artifacts } => {
            add_field(&mut entries, "artifacts", Some(encode_artifacts(artifacts)));
            add_field(&mut entries, "stepId", Some(encode_text(step_id.as_str())));
            Some(Json::Object(entries))
        },
        _ => None,
    }
}

/// The artifacts in a summary, in the order of the events.
pub open spec fn artifact_entries(events: Seq<RunEventView>) -> Seq<Tree>
    decreases events.len(),
{
    if events.len() == 0 {
        Seq::empty()
    } else {
        let front = artifact_entries(events.drop_last());
        match artifact_entry(events.last()) {
            Some(tree) => front.push(tree),
            None => front,
        }
    }
}

fn encode_artifact_entries(events: &Vec<RunEvent>) -> (r: Vec<Json>)
    ensures
        trees(r@) == artifact_entries(views(events@)),
{
    let ghost all = views(events@);
    let mut out: Vec<Json> = Vec::new();
    let mut i: usize = 0;
    assert(all.take(0) =~= Seq::empty());
    assert(trees(out@) =~= Seq::empty());
    while i < events.len()
        invariant
            i <= events@.len(),
            all == views(events@),
            trees(out@) == artifact_entries(all.take(i as int)),
        decreases events@.len() - i,
    {
        assert(all.take(i + 1).drop_last() =~= all.take(i as int));
        assert(all.take(i + 1).last() == events@[i as int]@);
        let ghost before = trees(out@);
        match encode_artifact_entry(&events[i]) {
            Some(entry) => {
                let ghost added = entry@;
                out.push(entry);
                assert(trees(out@) =~= before.push(added));
            },
            None => {},
        }
        i = i + 1;
    }
    assert(all.take(i as int) =~= all);
    out
}

/// How long evidence is kept, and how much of it.
pub open spec fn retention_tree(
    max_bytes: Option<u64>,
    prune: Option<EvidencePruneReport>,
) -> Tree {
    let effective = match max_bytes {
        Some(n) => n,
        None => DEFAULT_EVIDENCE_MAX_ARTIFACT_BYTES,
    };
    let entries: Seq<(Seq<char>, Tree)> = Seq::empty();
    let entries = with(
        entries,
        "defaultMaxArtifactBytes"@,
        Some(unsigned(DEFAULT_EVIDENCE_MAX_ARTIFACT_BYTES)),
    );
    let entries = with(
        entries,
        "desktopScreenshotsExcludedFromStepEvidence"@,
        Some(Tree::Bool(true)),
    );
    let entries = with(entries, "effectiveMaxArtifactBytes"@, Some(unsigned(effective)));
    let entries = with(entries, "evidenceIsLocal"@, Some(Tree::Bool(true)));
    let entries = with(entries, "pruneBeforeRun"@, Some(prune_tree(prune)));
    let entries = with(entries, "prunedBeforeRun"@, Some(Tree::Bool(prune is Some)));
    let entries = with(entries, "valuesCapturedOnlyWhenAllowed"@, Some(Tree::Bool(true)));
    Tree::Object(entries)
}

fn encode_retention(max_bytes: Option<u64>, prune: Option<EvidencePruneReport>) -> (r: Json)
    ensures
        r@ == retention_tree(max_bytes, prune),
{
    broadcast use object_tree;

    let effective: u64 = match max_bytes {
        Some(n) => n,
        None => DEFAULT_EVIDENCE_MAX_ARTIFACT_BYTES,
    };
    let mut entries = no_fields();
    add_field(
        &mut entries,
        "defaultMaxArtifactBytes",
        Some(encode_u64(DEFAULT_EVIDENCE_MAX_ARTIFACT_BYTES)),
    );
    add_field(&mut entries, "desktopScreenshotsExcludedFromStepEvidence", Some(Json::Bool(true)));
    add_field(&mut entries, "effectiveMaxArtifactBytes", Some(encode_u64(effective)));
    add_field(&mut entries, "evidenceIsLocal", Some(Json::Bool(true)));
    add_field(&mut entries, "pruneBeforeRun", Some(evidence_prune_json(prune)));
    add_field(&mut entries, "prunedBeforeRun", Some(Json::Bool(prune.is_some())));
    add_field(&mut entries, "valuesCapturedOnlyWhenAllowed", Some(Json::Bool(true)));
    Json::Object(entries)
}

/// What is left out of evidence.
pub open spec fn redaction_tree() -> Tree {
    let entries: Seq<(Seq<char>, Tree)> = Seq::empty();
    let entries = with(entries, "accessibilityValuesOmittedByDefault"@, Some(Tree::Bool(true)));
    let entries = with(entries, "imageTargetsRequireExplicitApproval"@, Some(Tree::Bool(true)));
    let entries = with(entries, "passwordValuesAlwaysSuppressed"@, Some(Tree::Bool(true)));
    let entries = with(
        entries,
        "screenshotCaptureRequiresExplicitApproval"@,
        Some(Tree::Bool(true)),
    );
    Tree::Object(entries)
}

fn encode_redaction() -> (r: Json)
    ensures
        r@ == redaction_tree(),
{
    broadcast use object_tree;

    let mut entries = no_fields();
    add_field(&mut entries, "accessibilityValuesOmittedByDefault", Some(Json::Bool(true)));
    add_field(&mut entries, "imageTargetsRequireExplicitApproval", Some(Json::Bool(true)));
    add_field(&mut entries, "passwordValuesAlwaysSuppressed", Some(Json::Bool(true)));
    add_field(&mut entries, "screenshotCaptureRequiresExplicitApproval", Some(Json::Bool(true)));
    Json::Object(entries)
}

/// The summary of a run in its evidence directory.
pub open spec fn summary_tree(
    automation_id: Seq<char>,
    report: RunReport,
    events_uri: Seq<char>,
    max_bytes: Option<u64>,
    prune: Option<EvidencePruneReport>,
) -> Tree {
    let artifacts = artifact_entries(views(report.events@));
    let entries: Seq<(Seq<char>, Tree)> = Seq::empty();
    let entries = with(entries, "artifactCount"@, Some(unsigned(artifacts.len() as u64)));
    let entries = with(entries, "artifacts"@, Some(Tree::Array(artifacts)));
    let entries = with(entries, "automationId"@, Some(Tree::Text(automation_id)));
    let entries = with(entries, "events"@, Some(Tree::Text(events_uri)));
    let entries = with(
        entries,
        "failureSummary"@,
        Some(failure_summary(report.outcome, views(report.events@))),
    );
    let entries = with(entries, "outcome"@, Some(Tree::Text(outcome_name(report.outcome))));
    let entries = with(entries, "redactionPolicy"@, Some(redaction_tree()));
    let entries = with(entries, "retentionPolicy"@, Some(retention_tree(max_bytes, prune)));
    let entries = with(entries, "runId"@, Some(Tree::Text(report.run_id@)));
    Tree::Object(entries)
}

/// The summary of a run in its evidence directory.
pub fn evidence_summary(
    automation_id: &str,
    report: &RunReport,
    events_uri: &str,
    max_bytes: Option<u64>,
    prune: Option<EvidencePruneReport>,
) -> (r: Json)
    ensures
        r@ == summary_tree(automation_id@, *report, events_uri@, max_bytes, prune),
{
    broadcast use {array_tree, object_tree};

    let artifacts = encode_artifact_entries(&report.events);
    let count: usize = artifacts.len();
    let mut entries = no_fields();
    add_field(&mut entries, "artifactCount", Some(encode_u64(count as u64)));
    add_field(&mut entries, "artifacts", Some(Json::Array(artifacts)));
    add_field(&mut entries, "automationId", Some(encode_text(automation_id)));
    add_field(&mut entries, "events", Some(encode_text(events_uri)));
    add_field(&mut entries, "failureSummary", Some(report_failure_summary(report)));
    add_field(&mut entries, "outcome", Some(encode_text(outcome_str(report.outcome))));
    add_field(&mut entries, "redactionPolicy", Some(encode_redaction()));
    add_field(&mut entries, "retentionPolicy", Some(encode_retention(max_bytes, prune)));
    add_field(&mut entries, "runId", Some(encode_text(report.run_id.as_str())));
    Json::Object(entries)
}

/// The events of a run as records, in order.
pub fn event_records(report: &RunReport) -> (r: Vec<Json>)
    ensures
        trees(r@) == views(report.events@).map_values(|e: RunEventView| event_tree(e)),
{
    let mut out: Vec<Json> = Vec::new();
    let mut i: usize = 0;
    while i < report.events.len()
        invariant
            i <= report.events@.len(),
            out@.len() == i,
            forall|j: int| 0 <= j < i ==> (#[trigger] out@[j])@ == event_tree(report.events@[j]@),
        decreases report.events@.len() - i,
    {
        out.push(encode_event(&report.events[i]));
        i = i + 1;
    }
    assert(trees(out@) =~= views(report.events@).map_values(|e: RunEventView| event_tree(e)));
    out
}

/// What a preflight found, as a record.
pub fn preflight_json(report: &PreflightReport) -> (r: Json)
    ensures
        r@ == ({
            let entries: Seq<(Seq<char>, Tree)> = Seq::empty();
            let entries = with(
                entries,
                "canRun"@,
                Some(Tree::Bool(runnable(views(report.diagnostics@)))),
            );
            let entries = with(
                entries,
                "diagnostics"@,
                Some(diagnostics_tree(views(report.diagnostics@))),
            );
            Tree::Object(entries)
        }),
{
    broadcast use object_tree;

    let mut entries = no_fields();
    add_field(&mut entries, "canRun", Some(Json::Bool(report.can_run())));
    add_field(&mut entries, "diagnostics", Some(encode_diagnostics(&report.diagnostics)));
    Json::Object(entries)
}

/// Whether Accessibility permission is there, as a record.
pub fn permission_json(platform: Platform, trusted: bool) -> (r: Json)
    ensures
        r@ == ({
            let entries: Seq<(Seq<char>, Tree)> = Seq::empty();
            let entries = with(entries, "accessibilityTrusted"@, Some(Tree::Bool(trusted)));
            let entries = with(entries, "platform"@, Some(Tree::Text(platform_name(platform))));
            Tree::Object(entries)
        }),
{
    broadcast use object_tree;

    let mut entries = no_fields();
    add_field(&mut entries, "accessibilityTrusted", Some(Json::Bool(trusted)));
    add_field(&mut entries, "platform", Some(encode_text(platform_text(platform))));
    Json::Object(entries)
}

/// Where a step of a run failed, the summary of the run tells of a failure.
pub proof fn summary_names_a_failure(outcome: RunOutcome, events: Seq<RunEventView>, i: int)
    requires
        0 <= i < events.len(),
        failure_of(events[i]) is Some,
    ensures
        failure_summary(outcome, events) is Object,
        last_failure_message(events) is Some,
{
    last_failure_fails(events);
}

} // verus!
