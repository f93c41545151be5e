//! What the records of a run say, entry by entry.
use vstd::prelude::*;
use crate::codec::records::{
    artifact_kind_of, artifact_kind_round_trip, artifact_of, artifact_round_trip, artifact_tree,
    artifacts_of, diagnostic_of, diagnostic_round_trip, diagnostic_tree, error_kind_of,
    error_kind_round_trip, event_kind_of, event_kind_round_trip, event_of, event_round_trip,
    event_tree, failure_kind_of, failure_kind_round_trip, level_of, level_round_trip, run_error_of,
    run_error_round_trip, run_error_tree, severity_of, severity_round_trip, status_of,
    status_round_trip, EventKind,
};
use crate::collections::lookup;
use crate::laws::documents::{each_is_read, maybe_text, nothing, text};
use crate::run::{
    ArtifactKind, ArtifactView, FailureKind, LogLevel, PreflightDiagnosticView, PreflightSeverity,
    RunErrorKind, RunErrorView, RunEventView, RunStatus,
};
use crate::value::Tree;

verus! {

type Entries = Seq<(Seq<char>, Tree)>;

/// The words for the kinds of artifacts.
pub open spec fn artifact_kind_word(x: ArtifactKind) -> Seq<char> {
    match x {
        ArtifactKind::Screenshot => "screenshot"@,
        ArtifactKind::AccessibilityTree => "accessibilityTree"@,
        ArtifactKind::Log => "log"@,
        ArtifactKind::Video => "video"@,
        ArtifactKind::File => "file"@,
    }
}

/// The kinds of artifacts are read from their words, and from nothing else.
pub proof fn artifact_kind_is_read(t: Tree, x: ArtifactKind)
    ensures
        artifact_kind_of(t) == Some(x) <==> t == Tree::Text(artifact_kind_word(x)),
{
    artifact_kind_round_trip(x);
}

/// The words for the kinds of errors.
pub open spec fn error_kind_word(x: RunErrorKind) -> Seq<char> {
    match x {
        RunErrorKind::Validation => "validation"@,
        RunErrorKind::Adapter => "adapter"@,
        RunErrorKind::Timeout => "timeout"@,
        RunErrorKind::Assertion => "assertion"@,
        RunErrorKind::Cancelled => "cancelled"@,
        RunErrorKind::Unsupported => "unsupported"@,
    }
}

/// The kinds of errors are read from their words, and from nothing else.
pub proof fn error_kind_is_read(t: Tree, x: RunErrorKind)
    ensures
        error_kind_of(t) == Some(x) <==> t == Tree::Text(error_kind_word(x)),
{
    error_kind_round_trip(x);
}

/// The words for the kinds of failures.
pub open spec fn failure_kind_word(x: FailureKind) -> Seq<char> {
    match x {
        FailureKind::NotFound => "notFound"@,
        FailureKind::Ambiguous => "ambiguous"@,
        FailureKind::Disabled => "disabled"@,
        FailureKind::Offscreen => "offscreen"@,
        FailureKind::FocusDenied => "focusDenied"@,
        FailureKind::CapabilityUnavailable => "capabilityUnavailable"@,
        FailureKind::Transient => "transient"@,
        FailureKind::PolicyDenied => "policyDenied"@,
        FailureKind::TruncatedSearch => "truncatedSearch"@,
    }
}

/// The kinds of failures are read from their words, and from nothing else.
pub proof fn failure_kind_is_read(t: Tree, x: FailureKind)
    ensures
        failure_kind_of(t) == Some(x) <==> t == Tree::Text(failure_kind_word(x)),
{
    failure_kind_round_trip(x);
}

/// The words for the levels of a log.
pub open spec fn level_word(x: LogLevel) -> Seq<char> {
    match x {
        LogLevel::Trace => "trace"@,
        LogLevel::Debug => "debug"@,
        LogLevel::Info => "info"@,
        LogLevel::Warn => "warn"@,
        LogLevel::Error => "error"@,
    }
}

/// The levels of a log are read from their words, and from nothing else.
pub proof fn level_is_read(t: Tree, x: LogLevel)
    ensures
        level_of(t) == Some(x) <==> t == Tree::Text(level_word(x)),
{
    level_round_trip(x);
}

/// The words for the outcomes of a run.
pub open spec fn status_word(x: RunStatus) -> Seq<char> {
    match x {
        RunStatus::Succeeded => "succeeded"@,
        RunStatus::Failed => "failed"@,
    }
}

/// The outcomes of a run are read from their words, and from nothing else.
pub proof fn status_is_read(t: Tree, x: RunStatus)
    ensures
        status_of(t) == Some(x) <==> t == Tree::Text(status_word(x)),
{
    status_round_trip(x);
}

/// The words for the severities of diagnostics.
pub open spec fn severity_word(x: PreflightSeverity) -> Seq<char> {
    match x {
        PreflightSeverity::Warning => "warning"@,
        PreflightSeverity::Error => "error"@,
    }
}

/// The severities of diagnostics are read from their words, and from nothing else.
pub proof fn severity_is_read(t: Tree, x: PreflightSeverity)
    ensures
        severity_of(t) == Some(x) <==> t == Tree::Text(severity_word(x)),
{
    severity_round_trip(x);
}

/// The words for the kinds of events.
pub open spec fn event_kind_word(x: EventKind) -> Seq<char> {
    match x {
        EventKind::Started => "started"@,
        EventKind::StepStarted => "stepStarted"@,
        EventKind::StepSucceeded => "stepSucceeded"@,
        EventKind::StepFailed => "stepFailed"@,
        EventKind::Paused => "paused"@,
        EventKind::Resumed => "resumed"@,
        EventKind::ManualIntervention => "manualIntervention"@,
        EventKind::Log => "log"@,
        EventKind::Artifact => "artifact"@,
        EventKind::Completed => "completed"@,
        EventKind::Cancelled => "cancelled"@,
    }
}

/// The kinds of events are read from their words, and from nothing else.
pub proof fn event_kind_is_read(t: Tree, x: EventKind)
    ensures
        event_kind_of(t) == Some(x) <==> t == Tree::Text(event_kind_word(x)),
{
    event_kind_round_trip(x);
}

/// The entries of an artifact.
pub open spec fn artifact_says(t: Tree, x: ArtifactView) -> bool {
    &&& t is Object
    &&& text(t->Object_0, "kind"@, artifact_kind_word(x.kind))
    &&& maybe_text(t->Object_0, "label"@, x.label)
    &&& text(t->Object_0, "uri"@, x.uri)
}

/// An artifact is read as what its entries say.
pub proof fn artifact_is_read(t: Tree, x: ArtifactView)
    ensures
        artifact_of(t) == Some(x) <==> artifact_says(t, x),
{
    if t is Object && lookup(t->Object_0, "kind"@) is Some {
        artifact_kind_is_read(lookup(t->Object_0, "kind"@)->0, x.kind);
    }
}

/// The entries of an error.
pub open spec fn run_error_says(t: Tree, x: RunErrorView) -> bool {
    &&& t is Object
    &&& text(t->Object_0, "kind"@, error_kind_word(x.kind))
    &&& text(t->Object_0, "message"@, x.message)
    &&& maybe_text(t->Object_0, "source"@, x.source)
    &&& maybe_text(t->Object_0, "stepId"@, x.step_id)
    &&& match x.failure_kind {
        Some(y) => text(t->Object_0, "failureKind"@, failure_kind_word(y)),
        None => nothing(t->Object_0, "failureKind"@),
    }
}

/// An error is read as what its entries say.
pub proof fn run_error_is_read(t: Tree, x: RunErrorView)
    ensures
        run_error_of(t) == Some(x) <==> run_error_says(t, x),
{
    if t is Object {
        if lookup(t->Object_0, "kind"@) is Some {
            error_kind_is_read(lookup(t->Object_0, "kind"@)->0, x.kind);
        }
        if lookup(t->Object_0, "failureKind"@) is Some && x.failure_kind is Some {
            failure_kind_is_read(lookup(t->Object_0, "failureKind"@)->0, x.failure_kind->0);
        }
    }
}

/// The entries of a diagnostic.
pub open spec fn diagnostic_says(t: Tree, x: PreflightDiagnosticView) -> bool {
    &&& t is Object
    &&& text(t->Object_0, "code"@, x.code)
    &&& text(t->Object_0, "message"@, x.message)
    &&& text(t->Object_0, "severity"@, severity_word(x.severity))
    &&& maybe_text(t->Object_0, "stepId"@, x.step_id)
}

/// A diagnostic is read as what its entries say.
pub proof fn diagnostic_is_read(t: Tree, x: PreflightDiagnosticView)
    ensures
        diagnostic_of(t) == Some(x) <==> diagnostic_says(t, x),
{
    if t is Object && lookup(t->Object_0, "severity"@) is Some {
        severity_is_read(lookup(t->Object_0, "severity"@)->0, x.severity);
    }
}

/// A list of artifacts, in order.
pub open spec fn artifacts_say(t: Tree, x: Seq<ArtifactView>) -> bool {
    t is Array && t->Array_0.len() == x.len() && forall|i: int|
        0 <= i < x.len() ==> artifact_says(#[trigger] t->Array_0[i], x[i])
}

proof fn artifacts_are_read(t: Tree, x: Seq<ArtifactView>)
    ensures
        artifacts_of(t) == Some(x) <==> artifacts_say(t, x),
{
    if t is Array {
        let items = t->Array_0;
        each_is_read(items, |u: Tree| artifact_of(u), x);
        assert forall|i: int| 0 <= i < items.len() && items.len() == x.len() implies (artifact_of(
            #[trigger] items[i],
        ) == Some(x[i]) <==> artifact_says(items[i], x[i])) by {
            artifact_is_read(items[i], x[i]);
        }
    }
}

/// The two names that every event carries.
pub open spec fn event_told(
    entries: Entries,
    kind: Seq<char>,
    run: Seq<char>,
    automation: Seq<char>,
) -> bool {
    text(entries, "kind"@, kind) && text(entries, "run_id"@, run) && text(
        entries,
        "automation_id"@,
        automation,
    )
}

/// The entries of an event, of each kind.
pub open spec fn event_says(t: Tree, x: RunEventView) -> bool {
    let entries = t->Object_0;
    t is Object && match x {
        RunEventView::Started { run_id, automation_id } => event_told(
            entries,
            "started"@,
            run_id,
            automation_id,
        ),
        RunEventView::StepStarted { run_id, automation_id, step_id, step_kind } => event_told(
            entries,
            "stepStarted"@,
            run_id,
            automation_id,
        ) && text(entries, "step_id"@, step_id) && text(entries, "step_kind"@, step_kind),
        RunEventView::StepSucceeded { run_id, automation_id, artifacts, step_id } => event_told(
            entries,
            "stepSucceeded"@,
            run_id,
            automation_id,
        ) && text(entries, "step_id"@, step_id) && lookup(entries, "artifacts"@) is Some
            && artifacts_say(lookup(entries, "artifacts"@)->0, artifacts),
        RunEventView::StepFailed { run_id, automation_id, error, step_id } => event_told(
            entries,
            "stepFailed"@,
            run_id,
            automation_id,
        ) && text(entries, "step_id"@, step_id) && lookup(entries, "error"@) is Some
            && run_error_says(lookup(entries, "error"@)->0, error),
        RunEventView::Paused { run_id, automation_id, step_id } => event_told(
            entries,
            "paused"@,
            run_id,
            automation_id,
        ) && maybe_text(entries, "step_id"@, step_id),
        RunEventView::Resumed { run_id, automation_id, step_id } => event_told(
            entries,
            "resumed"@,
            run_id,
            automation_id,
        ) && maybe_text(entries, "step_id"@, step_id),
        RunEventView::ManualIntervention { run_id, automation_id, error, step_id } => event_told(
            entries,
            "manualIntervention"@,
            run_id,
            automation_id,
        ) && text(entries, "step_id"@, step_id) && lookup(entries, "error"@) is Some
            && run_error_says(lookup(entries, "error"@)->0, error),
        RunEventView::Log { run_id, automation_id, level, message, step_id } => event_told(
            entries,
            "log"@,
            run_id,
            automation_id,
        ) && text(entries, "level"@, level_word(level)) && text(entries, "message"@, message)
            && maybe_text(entries, "step_id"@, step_id),
        RunEventView::Artifact { run_id, automation_id, artifact, step_id } => event_told(
            entries,
            "artifact"@,
            run_id,
            automation_id,
        ) && maybe_text(entries, "step_id"@, step_id) && lookup(entries, "artifact"@) is Some
            && artifact_says(lookup(entries, "artifact"@)->0, artifact),
        RunEventView::Completed { run_id, automation_id, status } => event_told(
            entries,
            "completed"@,
            run_id,
            automation_id,
        ) && text(entries, "status"@, status_word(status)),
        RunEventView::Cancelled { run_id, automation_id } => event_told(
            entries,
            "cancelled"@,
            run_id,
            automation_id,
        ),
    }
}

spec fn kind_of_news(x: RunEventView) -> EventKind {
    match x {
        RunEventView::Started { .. } => EventKind::Started,
        RunEventView::StepStarted { .. } => EventKind::StepStarted,
        RunEventView::StepSucceeded { .. } => EventKind::StepSucceeded,
        RunEventView::StepFailed { .. } => EventKind::StepFailed,
        RunEventView::Paused { .. } => EventKind::Paused,
        RunEventView::Resumed { .. } => EventKind::Resumed,
        RunEventView::ManualIntervention { .. } => EventKind::ManualIntervention,
        RunEventView::Log { .. } => EventKind::Log,
        RunEventView::Artifact { .. } => EventKind::Artifact,
        RunEventView::Completed { .. } => EventKind::Completed,
        RunEventView::Cancelled { .. } => EventKind::Cancelled,
    }
}

/// An event is read as what its entries say.
pub proof fn event_is_read(t: Tree, x: RunEventView)
    ensures
        event_of(t) == Some(x) <==> event_says(t, x),
{
    if t is Object {
        let entries = t->Object_0;
        if lookup(entries, "kind"@) is Some {
            event_kind_is_read(lookup(entries, "kind"@)->0, kind_of_news(x));
        }
        match x {
            RunEventView::StepSucceeded { artifacts, .. } => {
                if lookup(entries, "artifacts"@) is Some {
                    artifacts_are_read(lookup(entries, "artifacts"@)->0, artifacts);
                }
            },
            RunEventView::StepFailed { error, .. } => {
                if lookup(entries, "error"@) is Some {
                    run_error_is_read(lookup(entries, "error"@)->0, error);
                }
            },
            RunEventView::ManualIntervention { error, .. } => {
                if lookup(entries, "error"@) is Some {
                    run_error_is_read(lookup(entries, "error"@)->0, error);
                }
            },
            RunEventView::Log { level, .. } => {
                if lookup(entries, "level"@) is Some {
                    level_is_read(lookup(entries, "level"@)->0, level);
                }
            },
            RunEventView::Artifact { artifact, .. } => {
                if lookup(entries, "artifact"@) is Some {
                    artifact_is_read(lookup(entries, "artifact"@)->0, artifact);
                }
            },
            RunEventView::Completed { status, .. } => {
                if lookup(entries, "status"@) is Some {
                    status_is_read(lookup(entries, "status"@)->0, status);
                }
            },
            _ => {},
        }
    }
}

/// The records of a run are written with the entries that say what they hold.
pub proof fn written_records_say_what_is_there(
    a: ArtifactView,
    e: RunErrorView,
    d: PreflightDiagnosticView,
    x: RunEventView,
)
    ensures
        artifact_says(artifact_tree(a), a),
        run_error_says(run_error_tree(e), e),
        diagnostic_says(diagnostic_tree(d), d),
        event_says(event_tree(x), x),
{
    artifact_round_trip(a);
    artifact_is_read(artifact_tree(a), a);
    run_error_round_trip(e);
    run_error_is_read(run_error_tree(e), e);
    diagnostic_round_trip(d);
    diagnostic_is_read(diagnostic_tree(d), d);
    event_round_trip(x);
    event_is_read(event_tree(x), x);
}

} // verus!
