//! What happens in a run, as JSON records.
use vstd::prelude::*;
use crate::codec::readers::{opt_text_at, read_opt_text_at, read_req_text_at, req_text_at};
use crate::collections::lookup;
use crate::fields::{
    add_field, decode_each, decode_each_all, decode_each_step, encode_opt_text, encode_text,
    group_fields, no_fields, opt_text_tree, optional, required, with,
};
use crate::run::{
    Artifact, ArtifactKind, ArtifactView, FailureKind, LogLevel, PreflightDiagnostic,
    PreflightDiagnosticView, PreflightSeverity, RunError, RunErrorKind, RunErrorView, RunEvent,
    RunEventView, RunStatus,
};
use crate::text::{opt_text, same_text};
use crate::value::{array_tree, entry_trees, find_entry, object_tree, trees, Json, Tree};
use crate::views::{opt_view, views};

verus! {

/// The name by which records call a kind of artifact.
pub open spec fn artifact_kind_name(v: ArtifactKind) -> Seq<char> {
    match v {
        ArtifactKind::Screenshot => "screenshot"@,
        ArtifactKind::AccessibilityTree => "accessibilityTree"@,
        ArtifactKind::Log => "log"@,
        ArtifactKind::Video => "video"@,
        ArtifactKind::File => "file"@,
    }
}

pub open spec fn artifact_kind_named(name: Seq<char>) -> Option<ArtifactKind> {
    if name == "screenshot"@ {
        Some(ArtifactKind::Screenshot)
    } else if name == "accessibilityTree"@ {
        Some(ArtifactKind::AccessibilityTree)
    } else if name == "log"@ {
        Some(ArtifactKind::Log)
    } else if name == "video"@ {
        Some(ArtifactKind::Video)
    } else if name == "file"@ {
        Some(ArtifactKind::File)
    } else {
        None
    }
}

pub open spec fn artifact_kind_of(tree: Tree) -> Option<ArtifactKind> {
    match tree {
        Tree::Text(name) => artifact_kind_named(name),
        _ => None,
    }
}

pub(crate) proof fn artifact_kind_round_trip(v: ArtifactKind)
    ensures
        artifact_kind_named(artifact_kind_name(v)) == Some(v),
{
    reveal_strlit("screenshot");
    reveal_strlit("accessibilityTree");
    reveal_strlit("log");
    reveal_strlit("video");
    reveal_strlit("file");
    assert("screenshot"@.len() == 10);
    assert("accessibilityTree"@.len() == 17);
    assert("log"@.len() == 3);
    assert("video"@.len() == 5);
    assert("file"@.len() == 4);
}

/// The name by which records call a kind of artifact.
pub fn artifact_kind_text(v: ArtifactKind) -> (r: &'static str)
    ensures
        r@ == artifact_kind_name(v),
{
    match v {
        ArtifactKind::Screenshot => "screenshot",
        ArtifactKind::AccessibilityTree => "accessibilityTree",
        ArtifactKind::Log => "log",
        ArtifactKind::Video => "video",
        ArtifactKind::File => "file",
    }
}

pub fn artifact_kind_from(name: &str) -> (r: Option<ArtifactKind>)
    ensures
        r == artifact_kind_named(name@),
{
    if same_text(name, "screenshot") {
        Some(ArtifactKind::Screenshot)
    } else if same_text(name, "accessibilityTree") {
        Some(ArtifactKind::AccessibilityTree)
    } else if same_text(name, "log") {
        Some(ArtifactKind::Log)
    } else if same_text(name, "video") {
        Some(ArtifactKind::Video)
    } else if same_text(name, "file") {
        Some(ArtifactKind::File)
    } else {
        None
    }
}

fn decode_artifact_kind(value: &Json) -> (r: Option<ArtifactKind>)
    ensures
        r == artifact_kind_of(value@),
{
    match value {
        Json::String(name) => artifact_kind_from(name.as_str()),
        _ => None,
    }
}

/// The name by which records call a kind of error.
pub open spec fn error_kind_name(v: RunErrorKind) -> Seq<char> {
    match v {
        RunErrorKind::Validation => "validation"@,
        RunErrorKind::Adapter => "adapter"@,
        RunErrorKind::Timeout => "timeout"@,
        RunErrorKind::Assertion => "assertion"@,
        RunErrorKind::Cancelled => "cancelled"@,
        RunErrorKind::Unsupported => "unsupported"@,
    }
}

pub open spec fn error_kind_named(name: Seq<char>) -> Option<RunErrorKind> {
    if name == "validation"@ {
        Some(RunErrorKind::Validation)
    } else if name == "adapter"@ {
        Some(RunErrorKind::Adapter)
    } else if name == "timeout"@ {
        Some(RunErrorKind::Timeout)
    } else if name == "assertion"@ {
        Some(RunErrorKind::Assertion)
    } else if name == "cancelled"@ {
        Some(RunErrorKind::Cancelled)
    } else if name == "unsupported"@ {
        Some(RunErrorKind::Unsupported)
    } else {
        None
    }
}

pub open spec fn error_kind_of(tree: Tree) -> Option<RunErrorKind> {
    match tree {
        Tree::Text(name) => error_kind_named(name),
        _ => None,
    }
}

pub(crate) proof fn error_kind_round_trip(v: RunErrorKind)
    ensures
        error_kind_named(error_kind_name(v)) == Some(v),
{
    reveal_strlit("validation");
    reveal_strlit("adapter");
    reveal_strlit("timeout");
    reveal_strlit("assertion");
    reveal_strlit("cancelled");
    reveal_strlit("unsupported");
    assert("validation"@.len() == 10);
    assert("adapter"@.len() == 7);
    assert("timeout"@.len() == 7);
    assert("assertion"@.len() == 9);
    assert("cancelled"@.len() == 9);
    assert("unsupported"@.len() == 11);
    assert("adapter"@[0] != "timeout"@[0]);
    assert("assertion"@[0] != "cancelled"@[0]);
}

/// The name by which records call a kind of error.
pub fn error_kind_text(v: RunErrorKind) -> (r: &'static str)
    ensures
        r@ == error_kind_name(v),
{
    match v {
        RunErrorKind::Validation => "validation",
        RunErrorKind::Adapter => "adapter",
        RunErrorKind::Timeout => "timeout",
        RunErrorKind::Assertion => "assertion",
        RunErrorKind::Cancelled => "cancelled",
        RunErrorKind::Unsupported => "unsupported",
    }
}

pub fn error_kind_from(name: &str) -> (r: Option<RunErrorKind>)
    ensures
        r == error_kind_named(name@),
{
    if same_text(name, "validation") {
        Some(RunErrorKind::Validation)
    } else if same_text(name, "adapter") {
        Some(RunErrorKind::Adapter)
    } else if same_text(name, "timeout") {
        Some(RunErrorKind::Timeout)
    } else if same_text(name, "assertion") {
        Some(RunErrorKind::Assertion)
    } else if same_text(name, "cancelled") {
        Some(RunErrorKind::Cancelled)
    } else if same_text(name, "unsupported") {
        Some(RunErrorKind::Unsupported)
    } else {
        None
    }
}

fn decode_error_kind(value: &Json) -> (r: Option<RunErrorKind>)
    ensures
        r == error_kind_of(value@),
{
    match value {
        Json::String(name) => error_kind_from(name.as_str()),
        _ => None,
    }
}

/// The name by which records call a reason why an adapter failed.
pub open spec fn failure_kind_name(v: FailureKind) -> Seq<char> {
    match v {
        FailureKind::NotFound => "notFound"@,
        FailureKind::Ambiguous => "ambiguous"@,
        FailureKind::Disabled => "disabled"@,
        FailureKind::Offscreen => "offscreen"@,
        FailureKind::FocusDenied => "focusDenied"@,
        FailureKind::CapabilityUnavailable => "capabilityUnavailable"@,
        FailureKind::Transient => "transient"@,
        FailureKind::PolicyDenied => "policyDenied"@,
        FailureKind::TruncatedSearch => "truncatedSearch"@,
    }
}

pub open spec fn failure_kind_named(name: Seq<char>) -> Option<FailureKind> {
    if name == "notFound"@ {
        Some(FailureKind::NotFound)
    } else if name == "ambiguous"@ {
        Some(FailureKind::Ambiguous)
    } else if name == "disabled"@ {
        Some(FailureKind::Disabled)
    } else if name == "offscreen"@ {
        Some(FailureKind::Offscreen)
    } else if name == "focusDenied"@ {
        Some(FailureKind::FocusDenied)
    } else if name == "capabilityUnavailable"@ {
        Some(FailureKind::CapabilityUnavailable)
    } else if name == "transient"@ {
        Some(FailureKind::Transient)
    } else if name == "policyDenied"@ {
        Some(FailureKind::PolicyDenied)
    } else if name == "truncatedSearch"@ {
        Some(FailureKind::TruncatedSearch)
    } else {
        None
    }
}

pub open spec fn failure_kind_of(tree: Tree) -> Option<FailureKind> {
    match tree {
        Tree::Text(name) => failure_kind_named(name),
        _ => None,
    }
}

pub(crate) proof fn failure_kind_round_trip(v: FailureKind)
    ensures
        failure_kind_named(failure_kind_name(v)) == Some(v),
{
    reveal_strlit("notFound");
    reveal_strlit("ambiguous");
    reveal_strlit("disabled");
    reveal_strlit("offscreen");
    reveal_strlit("focusDenied");
    reveal_strlit("capabilityUnavailable");
    reveal_strlit("transient");
    reveal_strlit("policyDenied");
    reveal_strlit("truncatedSearch");
    assert("notFound"@.len() == 8);
    assert("ambiguous"@.len() == 9);
    assert("disabled"@.len() == 8);
    assert("offscreen"@.len() == 9);
    assert("focusDenied"@.len() == 11);
    assert("capabilityUnavailable"@.len() == 21);
    assert("transient"@.len() == 9);
    assert("policyDenied"@.len() == 12);
    assert("truncatedSearch"@.len() == 15);
    assert("notFound"@[0] != "disabled"@[0]);
    assert("ambiguous"@[0] != "offscreen"@[0]);
    assert("ambiguous"@[0] != "transient"@[0]);
    assert("offscreen"@[0] != "transient"@[0]);
}

/// The name by which records call a reason why an adapter failed.
pub fn failure_kind_text(v: FailureKind) -> (r: &'static str)
    ensures
        r@ == failure_kind_name(v),
{
    match v {
        FailureKind::NotFound => "notFound",
        FailureKind::Ambiguous => "ambiguous",
        FailureKind::Disabled => "disabled",
        FailureKind::Offscreen => "offscreen",
        FailureKind::FocusDenied => "focusDenied",
        FailureKind::CapabilityUnavailable => "capabilityUnavailable",
        FailureKind::Transient => "transient",
        FailureKind::PolicyDenied => "policyDenied",
        FailureKind::TruncatedSearch => "truncatedSearch",
    }
}

pub fn failure_kind_from(name: &str) -> (r: Option<FailureKind>)
    ensures
        r == failure_kind_named(name@),
{
    if same_text(name, "notFound") {
        Some(FailureKind::NotFound)
    } else if same_text(name, "ambiguous") {
        Some(FailureKind::Ambiguous)
    } else if same_text(name, "disabled") {
        Some(FailureKind::Disabled)
    } else if same_text(name, "offscreen") {
        Some(FailureKind::Offscreen)
    } else if same_text(name, "focusDenied") {
        Some(FailureKind::FocusDenied)
    } else if same_text(name, "capabilityUnavailable") {
        Some(FailureKind::CapabilityUnavailable)
    } else if same_text(name, "transient") {
        Some(FailureKind::Transient)
    } else if same_text(name, "policyDenied") {
        Some(FailureKind::PolicyDenied)
    } else if same_text(name, "truncatedSearch") {
        Some(FailureKind::TruncatedSearch)
    } else {
        None
    }
}

fn decode_failure_kind(value: &Json) -> (r: Option<FailureKind>)
    ensures
        r == failure_kind_of(value@),
{
    match value {
        Json::String(name) => failure_kind_from(name.as_str()),
        _ => None,
    }
}

/// The name by which records call a log level.
pub open spec fn level_name(v: LogLevel) -> Seq<char> {
    match v {
        LogLevel::Trace => "trace"@,
        LogLevel::Debug => "debug"@,
        LogLevel::Info => "info"@,
        LogLevel::Warn => "warn"@,
        LogLevel::Error => "error"@,
    }
}

pub open spec fn level_named(name: Seq<char>) -> Option<LogLevel> {
    if name == "trace"@ {
        Some(LogLevel::Trace)
    } else if name == "debug"@ {
        Some(LogLevel::Debug)
    } else if name == "info"@ {
        Some(LogLevel::Info)
    } else if name == "warn"@ {
        Some(LogLevel::Warn)
    } else if name == "error"@ {
        Some(LogLevel::Error)
    } else {
        None
    }
}

pub open spec fn level_of(tree: Tree) -> Option<LogLevel> {
    match tree {
        Tree::Text(name) => level_named(name),
        _ => None,
    }
}

pub(crate) proof fn level_round_trip(v: LogLevel)
    ensures
        level_named(level_name(v)) == Some(v),
{
    reveal_strlit("trace");
    reveal_strlit("debug");
    reveal_strlit("info");
    reveal_strlit("warn");
    reveal_strlit("error");
    assert("trace"@.len() == 5);
    assert("debug"@.len() == 5);
    assert("info"@.len() == 4);
    assert("warn"@.len() == 4);
    assert("error"@.len() == 5);
    assert("trace"@[0] != "debug"@[0]);
    assert("trace"@[0] != "error"@[0]);
    assert("debug"@[0] != "error"@[0]);
    assert("info"@[0] != "warn"@[0]);
}

/// The name by which records call a log level.
pub fn level_text(v: LogLevel) -> (r: &'static str)
    ensures
        r@ == level_name(v),
{
    match v {
        LogLevel::Trace => "trace",
        LogLevel::Debug => "debug",
        LogLevel::Info => "info",
        LogLevel::Warn => "warn",
        LogLevel::Error => "error",
    }
}

pub fn level_from(name: &str) -> (r: Option<LogLevel>)
    ensures
        r == level_named(name@),
{
    if same_text(name, "trace") {
        Some(LogLevel::Trace)
    } else if same_text(name, "debug") {
        Some(LogLevel::Debug)
    } else if same_text(name, "info") {
        Some(LogLevel::Info)
    } else if same_text(name, "warn") {
        Some(LogLevel::Warn)
    } else if same_text(name, "error") {
        Some(LogLevel::Error)
    } else {
        None
    }
}

fn decode_level(value: &Json) -> (r: Option<LogLevel>)
    ensures
        r == level_of(value@),
{
    match value {
        Json::String(name) => level_from(name.as_str()),
        _ => None,
    }
}

/// The name by which records call how a run ended.
pub open spec fn status_name(v: RunStatus) -> Seq<char> {
    match v {
        RunStatus::Succeeded => "succeeded"@,
        RunStatus::Failed => "failed"@,
    }
}

pub open spec fn status_named(name: Seq<char>) -> Option<RunStatus> {
    if name == "succeeded"@ {
        Some(RunStatus::Succeeded)
    } else if name == "failed"@ {
        Some(RunStatus::Failed)
    } else {
        None
    }
}

pub open spec fn status_of(tree: Tree) -> Option<RunStatus> {
    match tree {
        Tree::Text(name) => status_named(name),
        _ => None,
    }
}

pub(crate) proof fn status_round_trip(v: RunStatus)
    ensures
        status_named(status_name(v)) == Some(v),
{
    reveal_strlit("succeeded");
    reveal_strlit("failed");
    assert("succeeded"@.len() == 9);
    assert("failed"@.len() == 6);
}

/// The name by which records call how a run ended.
pub fn status_text(v: RunStatus) -> (r: &'static str)
    ensures
        r@ == status_name(v),
{
    match v {
        RunStatus::Succeeded => "succeeded",
        RunStatus::Failed => "failed",
    }
}

pub fn status_from(name: &str) -> (r: Option<RunStatus>)
    ensures
        r == status_named(name@),
{
    if same_text(name, "succeeded") {
        Some(RunStatus::Succeeded)
    } else if same_text(name, "failed") {
        Some(RunStatus::Failed)
    } else {
        None
    }
}

fn decode_status(value: &Json) -> (r: Option<RunStatus>)
    ensures
        r == status_of(value@),
{
    match value {
        Json::String(name) => status_from(name.as_str()),
        _ => None,
    }
}

/// The name by which records call how grave a diagnostic is.
pub open spec fn severity_name(v: PreflightSeverity) -> Seq<char> {
    match v {
        PreflightSeverity::Warning => "warning"@,
        PreflightSeverity::Error => "error"@,
    }
}

pub open spec fn severity_named(name: Seq<char>) -> Option<PreflightSeverity> {
    if name == "warning"@ {
        Some(PreflightSeverity::Warning)
    } else if name == "error"@ {
        Some(PreflightSeverity::Error)
    } else {
        None
    }
}

pub open spec fn severity_of(tree: Tree) -> Option<PreflightSeverity> {
    match tree {
        Tree::Text(name) => severity_named(name),
        _ => None,
    }
}

pub(crate) proof fn severity_round_trip(v: PreflightSeverity)
    ensures
        severity_named(severity_name(v)) == Some(v),
{
    reveal_strlit("warning");
    reveal_strlit("error");
    assert("warning"@.len() == 7);
    assert("error"@.len() == 5);
}

/// The name by which records call how grave a diagnostic is.
pub fn severity_text(v: PreflightSeverity) -> (r: &'static str)
    ensures
        r@ == severity_name(v),
{
    match v {
        PreflightSeverity::Warning => "warning",
        PreflightSeverity::Error => "error",
    }
}

pub fn severity_from(name: &str) -> (r: Option<PreflightSeverity>)
    ensures
        r == severity_named(name@),
{
    if same_text(name, "warning") {
        Some(PreflightSeverity::Warning)
    } else if same_text(name, "error") {
        Some(PreflightSeverity::Error)
    } else {
        None
    }
}

fn decode_severity(value: &Json) -> (r: Option<PreflightSeverity>)
    ensures
        r == severity_of(value@),
{
    match value {
        Json::String(name) => severity_from(name.as_str()),
        _ => None,
    }
}

pub open spec fn opt_failure_kind_tree(v: Option<FailureKind>) -> Option<Tree> {
    match v {
        Some(x) => Some(Tree::Text(failure_kind_name(x))),
        None => None,
    }
}

pub(crate) fn encode_opt_failure_kind(v: Option<FailureKind>) -> (r: Option<Json>)
    ensures
        opt_view(r) == opt_failure_kind_tree(v),
{
    match v {
        Some(x) => Some(encode_text(failure_kind_text(x))),
        None => None,
    }
}

/// A text that may be missing, and is then written as null.
pub open spec fn null_or_text(v: Option<Seq<char>>) -> Tree {
    match v {
        Some(x) => Tree::Text(x),
        None => Tree::Null,
    }
}

pub(crate) fn encode_null_or_text(v: &Option<String>) -> (r: Json)
    ensures
        r@ == null_or_text(opt_text(*v)),
{
    match v {
        Some(x) => encode_text(x.as_str()),
        None => Json::Null,
    }
}

pub open spec fn req_artifact_kind_at(
    entries: Seq<(Seq<char>, Tree)>,
    key: Seq<char>,
) -> Option<ArtifactKind> {
    required(entries, key, |t: Tree| artifact_kind_of(t))
}

fn read_req_artifact_kind_at(entries: &Vec<(String, Json)>, key: &str) -> (r: Option<ArtifactKind>)
    ensures
        match r {
            Some(x) => req_artifact_kind_at(entry_trees(entries@), key@) == Some(x),
            None => req_artifact_kind_at(entry_trees(entries@), key@) is None,
        },
{
    match find_entry(entries, key) {
        None => None,
        Some(value) => decode_artifact_kind(value),
    }
}

pub open spec fn artifact_tree(v: ArtifactView) -> Tree {
    let entries: Seq<(Seq<char>, Tree)> = Seq::empty();
    let entries = with(entries, "kind"@, Some(Tree::Text(artifact_kind_name(v.kind))));
    let entries = with(entries, "label"@, opt_text_tree(v.label));
    let entries = with(entries, "uri"@, Some(Tree::Text(v.uri)));
    Tree::Object(entries)
}

pub open spec fn artifact_of(tree: Tree) -> Option<ArtifactView> {
    match tree {
        Tree::Object(entries) => {
            let kind = req_artifact_kind_at(entries, "kind"@);
            let label = opt_text_at(entries, "label"@);
            let uri = req_text_at(entries, "uri"@);
            if kind is Some && label is Some && uri is Some {
                Some(ArtifactView { kind: kind->0, label: label->0, uri: uri->0 })
            } else {
                None
            }
        },
        _ => None,
    }
}

/// Each field is found under its key.
proof fn artifact_entries(v0: Option<Tree>, v1: Option<Tree>, v2: Option<Tree>)
    ensures
        ({
            let entries = with(with(with(Seq::empty(), "kind"@, v0), "label"@, v1), "uri"@, v2);
            &&& lookup(entries, "kind"@) == v0
            &&& lookup(entries, "label"@) == v1
            &&& lookup(entries, "uri"@) == v2
        }),
{
    broadcast use group_fields;

    reveal_strlit("kind");
    reveal_strlit("label");
    reveal_strlit("uri");
    assert("kind"@.len() == 4);
    assert("label"@.len() == 5);
    assert("uri"@.len() == 3);
}

/// An artifact is read back as it was written.
pub proof fn artifact_round_trip(v: ArtifactView)
    ensures
        artifact_of(artifact_tree(v)) == Some(v),
{
    let entries = artifact_tree(v)->Object_0;
    artifact_entries(
        Some(Tree::Text(artifact_kind_name(v.kind))),
        opt_text_tree(v.label),
        Some(Tree::Text(v.uri)),
    );
    artifact_kind_round_trip(v.kind);
    assert(req_artifact_kind_at(entries, "kind"@) == Some(v.kind));
    assert(opt_text_at(entries, "label"@) == Some(v.label));
    assert(req_text_at(entries, "uri"@) == Some(v.uri));
}

pub fn encode_artifact(v: &Artifact) -> (r: Json)
    ensures
        r@ == artifact_tree(v@),
{
    broadcast use object_tree;

    let mut entries = no_fields();
    add_field(&mut entries, "kind", Some(encode_text(artifact_kind_text(v.kind))));
    add_field(&mut entries, "label", encode_opt_text(&v.label));
    add_field(&mut entries, "uri", Some(encode_text(v.uri.as_str())));
    Json::Object(entries)
}

/// Reads what is written as an object. Fields that are not known are passed over.
pub fn decode_artifact(value: &Json) -> (r: Option<Artifact>)
    ensures
        opt_view(r) == artifact_of(value@),
{
    broadcast use object_tree;

    let entries = match value {
        Json::Object(entries) => entries,
        _ => {
            return None;
        },
    };
    let kind = read_req_artifact_kind_at(entries, "kind")?;
    let label = read_opt_text_at(entries, "label")?;
    let uri = read_req_text_at(entries, "uri")?;
    Some(Artifact { kind, label, uri })
}

pub open spec fn artifacts_tree(items: Seq<ArtifactView>) -> Tree {
    Tree::Array(items.map_values(|x: ArtifactView| artifact_tree(x)))
}

pub open spec fn artifacts_of(tree: Tree) -> Option<Seq<ArtifactView>> {
    match tree {
        Tree::Array(items) => decode_each(items, |t: Tree| artifact_of(t)),
        _ => None,
    }
}

pub(crate) proof fn artifacts_round_trip(items: Seq<ArtifactView>)
    ensures
        artifacts_of(artifacts_tree(items)) == Some(items),
{
    let all = artifacts_tree(items)->Array_0;
    assert forall|i: int| 0 <= i < all.len() implies artifact_of(
        #[trigger] all[i],
    ) == Some(items[i]) by {
        artifact_round_trip(items[i]);
    }
    decode_each_all(all, |t: Tree| artifact_of(t), items);
}

pub fn encode_artifacts(items: &Vec<Artifact>) -> (r: Json)
    ensures
        r@ == artifacts_tree(views(items@)),
{
    broadcast use array_tree;

    let mut out: Vec<Json> = Vec::new();
    let mut i: usize = 0;
    while i < items.len()
        invariant
            i <= items@.len(),
            out@.len() == i,
            forall|j: int| 0 <= j < i ==> (#[trigger] out@[j])@ == artifact_tree(items@[j]@),
        decreases items@.len() - i,
    {
        out.push(encode_artifact(&items[i]));
        i = i + 1;
    }
    assert(trees(out@) =~= artifacts_tree(views(items@))->Array_0);
    Json::Array(out)
}

pub fn decode_artifacts(value: &Json) -> (r: Option<Vec<Artifact>>)
    ensures
        match r {
            Some(items) => artifacts_of(value@) == Some(views(items@)),
            None => artifacts_of(value@) is None,
        },
{
    broadcast use array_tree;

    let items = match value {
        Json::Array(items) => items,
        _ => {
            return None;
        },
    };
    let ghost all = trees(items@);
    let ghost decode = |t: Tree| artifact_of(t);
    let mut out: Vec<Artifact> = Vec::new();
    let mut i: usize = 0;
    assert(all.take(0) =~= Seq::empty());
    assert(views(out@) =~= Seq::empty());
    while i < items.len()
        invariant
            i <= items@.len(),
            all == trees(items@),
            value@ == Tree::Array(all),
            decode == (|t: Tree| artifact_of(t)),
            decode_each(all.take(i as int), decode) == Some(views(out@)),
        decreases items@.len() - i,
    {
        let ghost front = views(out@);
        proof {
            decode_each_step(all, i as int, decode, front);
            assert(all[i as int] == items@[i as int]@);
        }
        match decode_artifact(&items[i]) {
            Some(x) => {
                let ghost read = x@;
                out.push(x);
                assert(views(out@) =~= front.push(read));
            },
            None => {
                return None;
            },
        }
        i = i + 1;
    }
    assert(all.take(i as int) =~= all);
    Some(out)
}

pub open spec fn opt_failure_kind_at(
    entries: Seq<(Seq<char>, Tree)>,
    key: Seq<char>,
) -> Option<Option<FailureKind>> {
    optional(entries, key, |t: Tree| failure_kind_of(t))
}

pub(crate) fn read_opt_failure_kind_at(
    entries: &Vec<(String, Json)>,
    key: &str,
) -> (r: Option<Option<FailureKind>>)
    ensures
        match r {
            Some(x) => opt_failure_kind_at(entry_trees(entries@), key@) == Some(x),
            None => opt_failure_kind_at(entry_trees(entries@), key@) is None,
        },
{
    match find_entry(entries, key) {
        None => Some(None),
        Some(Json::Null) => Some(None),
        Some(value) => match decode_failure_kind(value) {
            Some(x) => Some(Some(x)),
            None => None,
        },
    }
}

pub open spec fn req_error_kind_at(
    entries: Seq<(Seq<char>, Tree)>,
    key: Seq<char>,
) -> Option<RunErrorKind> {
    required(entries, key, |t: Tree| error_kind_of(t))
}

fn read_req_error_kind_at(entries: &Vec<(String, Json)>, key: &str) -> (r: Option<RunErrorKind>)
    ensures
        match r {
            Some(x) => req_error_kind_at(entry_trees(entries@), key@) == Some(x),
            None => req_error_kind_at(entry_trees(entries@), key@) is None,
        },
{
    match find_entry(entries, key) {
        None => None,
        Some(value) => decode_error_kind(value),
    }
}

pub open spec fn run_error_tree(v: RunErrorView) -> Tree {
    let entries: Seq<(Seq<char>, Tree)> = Seq::empty();
    let entries = with(entries, "failureKind"@, opt_failure_kind_tree(v.failure_kind));
    let entries = with(entries, "kind"@, Some(Tree::Text(error_kind_name(v.kind))));
    let entries = with(entries, "message"@, Some(Tree::Text(v.message)));
    let entries = with(entries, "source"@, opt_text_tree(v.source));
    let entries = with(entries, "stepId"@, opt_text_tree(v.step_id));
    Tree::Object(entries)
}

pub open spec fn run_error_of(tree: Tree) -> Option<RunErrorView> {
    match tree {
        Tree::Object(entries) => {
            let failure_kind = opt_failure_kind_at(entries, "failureKind"@);
            let kind = req_error_kind_at(entries, "kind"@);
            let message = req_text_at(entries, "message"@);
            let source = opt_text_at(entries, "source"@);
            let step_id = opt_text_at(entries, "stepId"@);
            if failure_kind is Some && kind is Some && message is Some && source is Some
                && step_id is Some {
                Some(
                    RunErrorView {
                        failure_kind: failure_kind->0,
                        kind: kind->0,
                        message: message->0,
                        source: source->0,
                        step_id: step_id->0,
                    },
                )
            } else {
                None
            }
        },
        _ => None,
    }
}

/// Each field is found under its key.
proof fn run_error_entries(
    v0: Option<Tree>,
    v1: Option<Tree>,
    v2: Option<Tree>,
    v3: Option<Tree>,
    v4: Option<Tree>,
)
    ensures
        ({
            let entries: Seq<(Seq<char>, Tree)> = Seq::empty();
            let entries = with(entries, "failureKind"@, v0);
            let entries = with(entries, "kind"@, v1);
            let entries = with(entries, "message"@, v2);
            let entries = with(entries, "source"@, v3);
            let entries = with(entries, "stepId"@, v4);
            &&& lookup(entries, "failureKind"@) == v0
            &&& lookup(entries, "kind"@) == v1
            &&& lookup(entries, "message"@) == v2
            &&& lookup(entries, "source"@) == v3
            &&& lookup(entries, "stepId"@) == v4
        }),
{
    broadcast use group_fields;

    reveal_strlit("failureKind");
    reveal_strlit("kind");
    reveal_strlit("message");
    reveal_strlit("source");
    reveal_strlit("stepId");
    assert("failureKind"@.len() == 11);
    assert("kind"@.len() == 4);
    assert("message"@.len() == 7);
    assert("source"@.len() == 6);
    assert("stepId"@.len() == 6);
    assert("source"@[1] != "stepId"@[1]);
}

/// An error is read back as it was written.
pub proof fn run_error_round_trip(v: RunErrorView)
    ensures
        run_error_of(run_error_tree(v)) == Some(v),
{
    let entries = run_error_tree(v)->Object_0;
    run_error_entries(
        opt_failure_kind_tree(v.failure_kind),
        Some(Tree::Text(error_kind_name(v.kind))),
        Some(Tree::Text(v.message)),
        opt_text_tree(v.source),
        opt_text_tree(v.step_id),
    );
    if v.failure_kind is Some {
        failure_kind_round_trip(v.failure_kind->0);
    }
    assert(opt_failure_kind_at(entries, "failureKind"@) == Some(v.failure_kind));
    error_kind_round_trip(v.kind);
    assert(req_error_kind_at(entries, "kind"@) == Some(v.kind));
    assert(req_text_at(entries, "message"@) == Some(v.message));
    assert(opt_text_at(entries, "source"@) == Some(v.source));
    assert(opt_text_at(entries, "stepId"@) == Some(v.step_id));
}

pub fn encode_run_error(v: &RunError) -> (r: Json)
    ensures
        r@ == run_error_tree(v@),
{
    broadcast use object_tree;

    let mut entries = no_fields();
    add_field(&mut entries, "failureKind", encode_opt_failure_kind(v.failure_kind));
    add_field(&mut entries, "kind", Some(encode_text(error_kind_text(v.kind))));
    add_field(&mut entries, "message", Some(encode_text(v.message.as_str())));
    add_field(&mut entries, "source", encode_opt_text(&v.source));
    add_field(&mut entries, "stepId", encode_opt_text(&v.step_id));
    Json::Object(entries)
}

/// Reads what is written as an object. Fields that are not known are passed over.
pub fn decode_run_error(value: &Json) -> (r: Option<RunError>)
    ensures
        opt_view(r) == run_error_of(value@),
{
    broadcast use object_tree;

    let entries = match value {
        Json::Object(entries) => entries,
        _ => {
            return None;
        },
    };
    let failure_kind = read_opt_failure_kind_at(entries, "failureKind")?;
    let kind = read_req_error_kind_at(entries, "kind")?;
    let message = read_req_text_at(entries, "message")?;
    let source = read_opt_text_at(entries, "source")?;
    let step_id = read_opt_text_at(entries, "stepId")?;
    Some(RunError { failure_kind, kind, message, source, step_id })
}

pub open spec fn req_severity_at(
    entries: Seq<(Seq<char>, Tree)>,
    key: Seq<char>,
) -> Option<PreflightSeverity> {
    required(entries, key, |t: Tree| severity_of(t))
}

fn read_req_severity_at(entries: &Vec<(String, Json)>, key: &str) -> (r: Option<PreflightSeverity>)
    ensures
        match r {
            Some(x) => req_severity_at(entry_trees(entries@), key@) == Some(x),
            None => req_severity_at(entry_trees(entries@), key@) is None,
        },
{
    match find_entry(entries, key) {
        None => None,
        Some(value) => decode_severity(value),
    }
}

pub open spec fn diagnostic_tree(v: PreflightDiagnosticView) -> Tree {
    let entries: Seq<(Seq<char>, Tree)> = Seq::empty();
    let entries = with(entries, "code"@, Some(Tree::Text(v.code)));
    let entries = with(entries, "message"@, Some(Tree::Text(v.message)));
    let entries = with(entries, "severity"@, Some(Tree::Text(severity_name(v.severity))));
    let entries = with(entries, "stepId"@, opt_text_tree(v.step_id));
    Tree::Object(entries)
}

pub open spec fn diagnostic_of(tree: Tree) -> Option<PreflightDiagnosticView> {
    match tree {
        Tree::Object(entries) => {
            let code = req_text_at(entries, "code"@);
            let message = req_text_at(entries, "message"@);
            let severity = req_severity_at(entries, "severity"@);
            let step_id = opt_text_at(entries, "stepId"@);
            if code is Some && message is Some && severity is Some && step_id is Some {
                Some(
                    PreflightDiagnosticView {
                        code: code->0,
                        message: message->0,
                        severity: severity->0,
                        step_id: step_id->0,
                    },
                )
            } else {
                None
            }
        },
        _ => None,
    }
}

/// Each field is found under its key.
proof fn diagnostic_entries(v0: Option<Tree>, v1: Option<Tree>, v2: Option<Tree>, v3: Option<Tree>)
    ensures
        ({
            let entries: Seq<(Seq<char>, Tree)> = Seq::empty();
            let entries = with(entries, "code"@, v0);
            let entries = with(entries, "message"@, v1);
            let entries = with(entries, "severity"@, v2);
            let entries = with(entries, "stepId"@, v3);
            &&& lookup(entries, "code"@) == v0
            &&& lookup(entries, "message"@) == v1
            &&& lookup(entries, "severity"@) == v2
            &&& lookup(entries, "stepId"@) == v3
        }),
{
    broadcast use group_fields;

    reveal_strlit("code");
    reveal_strlit("message");
    reveal_strlit("severity");
    reveal_strlit("stepId");
    assert("code"@.len() == 4);
    assert("message"@.len() == 7);
    assert("severity"@.len() == 8);
    assert("stepId"@.len() == 6);
}

/// A diagnostic is read back as it was written.
pub proof fn diagnostic_round_trip(v: PreflightDiagnosticView)
    ensures
        diagnostic_of(diagnostic_tree(v)) == Some(v),
{
    let entries = diagnostic_tree(v)->Object_0;
    diagnostic_entries(
        Some(Tree::Text(v.code)),
        Some(Tree::Text(v.message)),
        Some(Tree::Text(severity_name(v.severity))),
        opt_text_tree(v.step_id),
    );
    assert(req_text_at(entries, "code"@) == Some(v.code));
    assert(req_text_at(entries, "message"@) == Some(v.message));
    severity_round_trip(v.severity);
    assert(req_severity_at(entries, "severity"@) == Some(v.severity));
    assert(opt_text_at(entries, "stepId"@) == Some(v.step_id));
}

pub fn encode_diagnostic(v: &PreflightDiagnostic) -> (r: Json)
    ensures
        r@ == diagnostic_tree(v@),
{
    broadcast use object_tree;

    let mut entries = no_fields();
    add_field(&mut entries, "code", Some(encode_text(v.code.as_str())));
    add_field(&mut entries, "message", Some(encode_text(v.message.as_str())));
    add_field(&mut entries, "severity", Some(encode_text(severity_text(v.severity))));
    add_field(&mut entries, "stepId", encode_opt_text(&v.step_id));
    Json::Object(entries)
}

/// Reads what is written as an object. Fields that are not known are passed over.
pub fn decode_diagnostic(value: &Json) -> (r: Option<PreflightDiagnostic>)
    ensures
        opt_view(r) == diagnostic_of(value@),
{
    broadcast use object_tree;

    let entries = match value {
        Json::Object(entries) => entries,
        _ => {
            return None;
        },
    };
    let code = read_req_text_at(entries, "code")?;
    let message = read_req_text_at(entries, "message")?;
    let severity = read_req_severity_at(entries, "severity")?;
    let step_id = read_opt_text_at(entries, "stepId")?;
    Some(PreflightDiagnostic { code, message, severity, step_id })
}

pub open spec fn diagnostics_tree(items: Seq<PreflightDiagnosticView>) -> Tree {
    Tree::Array(items.map_values(|x: PreflightDiagnosticView| diagnostic_tree(x)))
}

pub fn encode_diagnostics(items: &Vec<PreflightDiagnostic>) -> (r: Json)
    ensures
        r@ == diagnostics_tree(views(items@)),
{
    broadcast use array_tree;

    let mut out: Vec<Json> = Vec::new();
    let mut i: usize = 0;
    while i < items.len()
        invariant
            i <= items@.len(),
            out@.len() == i,
            forall|j: int| 0 <= j < i ==> (#[trigger] out@[j])@ == diagnostic_tree(items@[j]@),
        decreases items@.len() - i,
    {
        out.push(encode_diagnostic(&items[i]));
        i = i + 1;
    }
    assert(trees(out@) =~= diagnostics_tree(views(items@))->Array_0);
    Json::Array(out)
}

/// The kinds of events.
#[derive(Debug, Clone, Copy, PartialEq, Eq, Structural)]
pub enum EventKind {
    Started,
    StepStarted,
    StepSucceeded,
    StepFailed,
    Paused,
    Resumed,
    ManualIntervention,
    Log,
    Artifact,
    Completed,
    Cancelled,
}

/// The kinds of events.
pub open spec fn event_kind_name(v: EventKind) -> Seq<char> {
    match v {
        EventKind::Started => "started"@,
        EventKind::StepStarted => "stepStarted"@,
        EventKind::StepSucceeded => "stepSucceeded"@,
        EventKind::StepFailed => "stepFailed"@,
        EventKind::Paused => "paused"@,
        EventKind::Resumed => "resumed"@,
        EventKind::ManualIntervention => "manualIntervention"@,
        EventKind::Log => "log"@,
        EventKind::Artifact => "artifact"@,
        EventKind::Completed => "completed"@,
        EventKind::Cancelled => "cancelled"@,
    }
}

pub open spec fn event_kind_named(name: Seq<char>) -> Option<EventKind> {
    if name == "started"@ {
        Some(EventKind::Started)
    } else if name == "stepStarted"@ {
        Some(EventKind::StepStarted)
    } else if name == "stepSucceeded"@ {
        Some(EventKind::StepSucceeded)
    } else if name == "stepFailed"@ {
        Some(EventKind::StepFailed)
    } else if name == "paused"@ {
        Some(EventKind::Paused)
    } else if name == "resumed"@ {
        Some(EventKind::Resumed)
    } else if name == "manualIntervention"@ {
        Some(EventKind::ManualIntervention)
    } else if name == "log"@ {
        Some(EventKind::Log)
    } else if name == "artifact"@ {
        Some(EventKind::Artifact)
    } else if name == "completed"@ {
        Some(EventKind::Completed)
    } else if name == "cancelled"@ {
        Some(EventKind::Cancelled)
    } else {
        None
    }
}

pub open spec fn event_kind_of(tree: Tree) -> Option<EventKind> {
    match tree {
        Tree::Text(name) => event_kind_named(name),
        _ => None,
    }
}

pub(crate) proof fn event_kind_round_trip(v: EventKind)
    ensures
        event_kind_named(event_kind_name(v)) == Some(v),
{
    reveal_strlit("started");
    reveal_strlit("stepStarted");
    reveal_strlit("stepSucceeded");
    reveal_strlit("stepFailed");
    reveal_strlit("paused");
    reveal_strlit("resumed");
    reveal_strlit("manualIntervention");
    reveal_strlit("log");
    reveal_strlit("artifact");
    reveal_strlit("completed");
    reveal_strlit("cancelled");
    assert("started"@.len() == 7);
    assert("stepStarted"@.len() == 11);
    assert("stepSucceeded"@.len() == 13);
    assert("stepFailed"@.len() == 10);
    assert("paused"@.len() == 6);
    assert("resumed"@.len() == 7);
    assert("manualIntervention"@.len() == 18);
    assert("log"@.len() == 3);
    assert("artifact"@.len() == 8);
    assert("completed"@.len() == 9);
    assert("cancelled"@.len() == 9);
    assert("started"@[0] != "resumed"@[0]);
    assert("completed"@[1] != "cancelled"@[1]);
}

/// The kinds of events.
pub fn event_kind_text(v: EventKind) -> (r: &'static str)
    ensures
        r@ == event_kind_name(v),
{
    match v {
        EventKind::Started => "started",
        EventKind::StepStarted => "stepStarted",
        EventKind::StepSucceeded => "stepSucceeded",
        EventKind::StepFailed => "stepFailed",
        EventKind::Paused => "paused",
        EventKind::Resumed => "resumed",
        EventKind::ManualIntervention => "manualIntervention",
        EventKind::Log => "log",
        EventKind::Artifact => "artifact",
        EventKind::Completed => "completed",
        EventKind::Cancelled => "cancelled",
    }
}

pub fn event_kind_from(name: &str) -> (r: Option<EventKind>)
    ensures
        r == event_kind_named(name@),
{
    if same_text(name, "started") {
        Some(EventKind::Started)
    } else if same_text(name, "stepStarted") {
        Some(EventKind::StepStarted)
    } else if same_text(name, "stepSucceeded") {
        Some(EventKind::StepSucceeded)
    } else if same_text(name, "stepFailed") {
        Some(EventKind::StepFailed)
    } else if same_text(name, "paused") {
        Some(EventKind::Paused)
    } else if same_text(name, "resumed") {
        Some(EventKind::Resumed)
    } else if same_text(name, "manualIntervention") {
        Some(EventKind::ManualIntervention)
    } else if same_text(name, "log") {
        Some(EventKind::Log)
    } else if same_text(name, "artifact") {
        Some(EventKind::Artifact)
    } else if same_text(name, "completed") {
        Some(EventKind::Completed)
    } else if same_text(name, "cancelled") {
        Some(EventKind::Cancelled)
    } else {
        None
    }
}

fn decode_event_kind(value: &Json) -> (r: Option<EventKind>)
    ensures
        r == event_kind_of(value@),
{
    match value {
        Json::String(name) => event_kind_from(name.as_str()),
        _ => None,
    }
}

pub open spec fn req_event_kind_at(
    entries: Seq<(Seq<char>, Tree)>,
    key: Seq<char>,
) -> Option<EventKind> {
    required(entries, key, |t: Tree| event_kind_of(t))
}

fn read_req_event_kind_at(entries: &Vec<(String, Json)>, key: &str) -> (r: Option<EventKind>)
    ensures
        match r {
            Some(x) => req_event_kind_at(entry_trees(entries@), key@) == Some(x),
            None => req_event_kind_at(entry_trees(entries@), key@) is None,
        },
{
    match find_entry(entries, key) {
        None => None,
        Some(value) => decode_event_kind(value),
    }
}

pub open spec fn req_artifacts_at(
    entries: Seq<(Seq<char>, Tree)>,
    key: Seq<char>,
) -> Option<Seq<ArtifactView>> {
    required(entries, key, |t: Tree| artifacts_of(t))
}

fn read_req_artifacts_at(entries: &Vec<(String, Json)>, key: &str) -> (r: Option<Vec<Artifact>>)
    ensures
        match r {
            Some(x) => req_artifacts_at(entry_trees(entries@), key@) == Some(views(x@)),
            None => req_artifacts_at(entry_trees(entries@), key@) is None,
        },
{
    match find_entry(entries, key) {
        None => None,
        Some(value) => decode_artifacts(value),
    }
}

pub open spec fn req_run_error_at(
    entries: Seq<(Seq<char>, Tree)>,
    key: Seq<char>,
) -> Option<RunErrorView> {
    required(entries, key, |t: Tree| run_error_of(t))
}

fn read_req_run_error_at(entries: &Vec<(String, Json)>, key: &str) -> (r: Option<RunError>)
    ensures
        match r {
            Some(x) => req_run_error_at(entry_trees(entries@), key@) == Some(x@),
            None => req_run_error_at(entry_trees(entries@), key@) is None,
        },
{
    match find_entry(entries, key) {
        None => None,
        Some(value) => decode_run_error(value),
    }
}

pub open spec fn req_level_at(entries: Seq<(Seq<char>, Tree)>, key: Seq<char>) -> Option<LogLevel> {
    required(entries, key, |t: Tree| level_of(t))
}

fn read_req_level_at(entries: &Vec<(String, Json)>, key: &str) -> (r: Option<LogLevel>)
    ensures
        match r {
            Some(x) => req_level_at(entry_trees(entries@), key@) == Some(x),
            None => req_level_at(entry_trees(entries@), key@) is None,
        },
{
    match find_entry(entries, key) {
        None => None,
        Some(value) => decode_level(value),
    }
}

pub open spec fn req_artifact_at(
    entries: Seq<(Seq<char>, Tree)>,
    key: Seq<char>,
) -> Option<ArtifactView> {
    required(entries, key, |t: Tree| artifact_of(t))
}

fn read_req_artifact_at(entries: &Vec<(String, Json)>, key: &str) -> (r: Option<Artifact>)
    ensures
        match r {
            Some(x) => req_artifact_at(entry_trees(entries@), key@) == Some(x@),
            None => req_artifact_at(entry_trees(entries@), key@) is None,
        },
{
    match find_entry(entries, key) {
        None => None,
        Some(value) => decode_artifact(value),
    }
}

pub open spec fn req_status_at(
    entries: Seq<(Seq<char>, Tree)>,
    key: Seq<char>,
) -> Option<RunStatus> {
    required(entries, key, |t: Tree| status_of(t))
}

fn read_req_status_at(entries: &Vec<(String, Json)>, key: &str) -> (r: Option<RunStatus>)
    ensures
        match r {
            Some(x) => req_status_at(entry_trees(entries@), key@) == Some(x),
            None => req_status_at(entry_trees(entries@), key@) is None,
        },
{
    match find_entry(entries, key) {
        None => None,
        Some(value) => decode_status(value),
    }
}

/// The names of the fields of events are distinct.
proof fn event_field_names()
    ensures
        "artifact"@.len() == 8,
        "artifacts"@.len() == 9,
        "automation_id"@.len() == 13,
        "error"@.len() == 5,
        "kind"@.len() == 4,
        "level"@.len() == 5,
        "message"@.len() == 7,
        "run_id"@.len() == 6,
        "status"@.len() == 6,
        "step_id"@.len() == 7,
        "step_kind"@.len() == 9,
        "artifacts"@ != "step_kind"@,
        "error"@ != "level"@,
        "message"@ != "step_id"@,
        "run_id"@ != "status"@,
{
    reveal_strlit("artifact");
    reveal_strlit("artifacts");
    reveal_strlit("automation_id");
    reveal_strlit("error");
    reveal_strlit("kind");
    reveal_strlit("level");
    reveal_strlit("message");
    reveal_strlit("run_id");
    reveal_strlit("status");
    reveal_strlit("step_id");
    reveal_strlit("step_kind");
    assert("artifacts"@[0] != "step_kind"@[0]);
    assert("error"@[0] != "level"@[0]);
    assert("message"@[0] != "step_id"@[0]);
    assert("run_id"@[0] != "status"@[0]);
}

/// Each field is found under its key.
proof fn event_with_ids_entries(v0: Option<Tree>, v1: Option<Tree>, v2: Option<Tree>)
    ensures
        ({
            let entries: Seq<(Seq<char>, Tree)> = Seq::empty();
            let entries = with(entries, "automation_id"@, v0);
            let entries = with(entries, "kind"@, v1);
            let entries = with(entries, "run_id"@, v2);
            &&& lookup(entries, "automation_id"@) == v0
            &&& lookup(entries, "kind"@) == v1
            &&& lookup(entries, "run_id"@) == v2
        }),
{
    broadcast use group_fields;

    event_field_names();
}

/// Each field is found under its key.
proof fn event_with_step_kind_entries(
    v0: Option<Tree>,
    v1: Option<Tree>,
    v2: Option<Tree>,
    v3: Option<Tree>,
    v4: Option<Tree>,
)
    ensures
        ({
            let entries: Seq<(Seq<char>, Tree)> = Seq::empty();
            let entries = with(entries, "automation_id"@, v0);
            let entries = with(entries, "kind"@, v1);
            let entries = with(entries, "run_id"@, v2);
            let entries = with(entries, "step_id"@, v3);
            let entries = with(entries, "step_kind"@, v4);
            &&& lookup(entries, "automation_id"@) == v0
            &&& lookup(entries, "kind"@) == v1
            &&& lookup(entries, "run_id"@) == v2
            &&& lookup(entries, "step_id"@) == v3
            &&& lookup(entries, "step_kind"@) == v4
        }),
{
    broadcast use group_fields;

    event_field_names();
}

/// Each field is found under its key.
proof fn event_with_artifacts_entries(
    v0: Option<Tree>,
    v1: Option<Tree>,
    v2: Option<Tree>,
    v3: Option<Tree>,
    v4: Option<Tree>,
)
    ensures
        ({
            let entries: Seq<(Seq<char>, Tree)> = Seq::empty();
            let entries = with(entries, "artifacts"@, v0);
            let entries = with(entries, "automation_id"@, v1);
            let entries = with(entries, "kind"@, v2);
            let entries = with(entries, "run_id"@, v3);
            let entries = with(entries, "step_id"@, v4);
            &&& lookup(entries, "artifacts"@) == v0
            &&& lookup(entries, "automation_id"@) == v1
            &&& lookup(entries, "kind"@) == v2
            &&& lookup(entries, "run_id"@) == v3
            &&& lookup(entries, "step_id"@) == v4
        }),
{
    broadcast use group_fields;

    event_field_names();
}

/// Each field is found under its key.
proof fn event_with_error_entries(
    v0: Option<Tree>,
    v1: Option<Tree>,
    v2: Option<Tree>,
    v3: Option<Tree>,
    v4: Option<Tree>,
)
    ensures
        ({
            let entries: Seq<(Seq<char>, Tree)> = Seq::empty();
            let entries = with(entries, "automation_id"@, v0);
            let entries = with(entries, "error"@, v1);
            let entries = with(entries, "kind"@, v2);
            let entries = with(entries, "run_id"@, v3);
            let entries = with(entries, "step_id"@, v4);
            &&& lookup(entries, "automation_id"@) == v0
            &&& lookup(entries, "error"@) == v1
            &&& lookup(entries, "kind"@) == v2
            &&& lookup(entries, "run_id"@) == v3
            &&& lookup(entries, "step_id"@) == v4
        }),
{
    broadcast use group_fields;

    event_field_names();
}

/// Each field is found under its key.
proof fn event_with_step_entries(
    v0: Option<Tree>,
    v1: Option<Tree>,
    v2: Option<Tree>,
    v3: Option<Tree>,
)
    ensures
        ({
            let entries: Seq<(Seq<char>, Tree)> = Seq::empty();
            let entries = with(entries, "automation_id"@, v0);
            let entries = with(entries, "kind"@, v1);
            let entries = with(entries, "run_id"@, v2);
            let entries = with(entries, "step_id"@, v3);
            &&& lookup(entries, "automation_id"@) == v0
            &&& lookup(entries, "kind"@) == v1
            &&& lookup(entries, "run_id"@) == v2
            &&& lookup(entries, "step_id"@) == v3
        }),
{
    broadcast use group_fields;

    event_field_names();
}

/// Each field is found under its key.
proof fn event_with_message_entries(
    v0: Option<Tree>,
    v1: Option<Tree>,
    v2: Option<Tree>,
    v3: Option<Tree>,
    v4: Option<Tree>,
    v5: Option<Tree>,
)
    ensures
        ({
            let entries: Seq<(Seq<char>, Tree)> = Seq::empty();
            let entries = with(entries, "automation_id"@, v0);
            let entries = with(entries, "kind"@, v1);
            let entries = with(entries, "level"@, v2);
            let entries = with(entries, "message"@, v3);
            let entries = with(entries, "run_id"@, v4);
            let entries = with(entries, "step_id"@, v5);
            &&& lookup(entries, "automation_id"@) == v0
            &&& lookup(entries, "kind"@) == v1
            &&& lookup(entries, "level"@) == v2
            &&& lookup(entries, "message"@) == v3
            &&& lookup(entries, "run_id"@) == v4
            &&& lookup(entries, "step_id"@) == v5
        }),
{
    broadcast use group_fields;

    event_field_names();
}

/// Each field is found under its key.
proof fn event_with_artifact_entries(
    v0: Option<Tree>,
    v1: Option<Tree>,
    v2: Option<Tree>,
    v3: Option<Tree>,
    v4: Option<Tree>,
)
    ensures
        ({
            let entries: Seq<(Seq<char>, Tree)> = Seq::empty();
            let entries = with(entries, "artifact"@, v0);
            let entries = with(entries, "automation_id"@, v1);
            let entries = with(entries, "kind"@, v2);
            let entries = with(entries, "run_id"@, v3);
            let entries = with(entries, "step_id"@, v4);
            &&& lookup(entries, "artifact"@) == v0
            &&& lookup(entries, "automation_id"@) == v1
            &&& lookup(entries, "kind"@) == v2
            &&& lookup(entries, "run_id"@) == v3
            &&& lookup(entries, "step_id"@) == v4
        }),
{
    broadcast use group_fields;

    event_field_names();
}

/// Each field is found under its key.
proof fn event_with_status_entries(
    v0: Option<Tree>,
    v1: Option<Tree>,
    v2: Option<Tree>,
    v3: Option<Tree>,
)
    ensures
        ({
            let entries: Seq<(Seq<char>, Tree)> = Seq::empty();
            let entries = with(entries, "automation_id"@, v0);
            let entries = with(entries, "kind"@, v1);
            let entries = with(entries, "run_id"@, v2);
            let entries = with(entries, "status"@, v3);
            &&& lookup(entries, "automation_id"@) == v0
            &&& lookup(entries, "kind"@) == v1
            &&& lookup(entries, "run_id"@) == v2
            &&& lookup(entries, "status"@) == v3
        }),
{
    broadcast use group_fields;

    event_field_names();
}

pub open spec fn event_tree(e: RunEventView) -> Tree {
    match e {
        RunEventView::Started { run_id, automation_id } => {
            let entries: Seq<(Seq<char>, Tree)> = Seq::empty();
            let entries = with(entries, "automation_id"@, Some(Tree::Text(automation_id)));
            let entries = with(
                entries,
                "kind"@,
                Some(Tree::Text(event_kind_name(EventKind::Started))),
            );
            let entries = with(entries, "run_id"@, Some(Tree::Text(run_id)));
            Tree::Object(entries)
        },
        RunEventView::StepStarted { run_id, automation_id, step_id, step_kind } => {
            let entries: Seq<(Seq<char>, Tree)> = Seq::empty();
            let entries = with(entries, "automation_id"@, Some(Tree::Text(automation_id)));
            let entries = with(
                entries,
                "kind"@,
                Some(Tree::Text(event_kind_name(EventKind::StepStarted))),
            );
            let entries = with(entries, "run_id"@, Some(Tree::Text(run_id)));
            let entries = with(entries, "step_id"@, Some(Tree::Text(step_id)));
            let entries = with(entries, "step_kind"@, Some(Tree::Text(step_kind)));
            Tree::Object(entries)
        },
        RunEventView::StepSucceeded { run_id, automation_id, artifacts, step_id } => {
            let entries: Seq<(Seq<char>, Tree)> = Seq::empty();
            let entries = with(entries, "artifacts"@, Some(artifacts_tree(artifacts)));
            let entries = with(entries, "automation_id"@, Some(Tree::Text(automation_id)));
            let entries = with(
                entries,
                "kind"@,
                Some(Tree::Text(event_kind_name(EventKind::StepSucceeded))),
            );
            let entries = with(entries, "run_id"@, Some(Tree::Text(run_id)));
            let entries = with(entries, "step_id"@, Some(Tree::Text(step_id)));
            Tree::Object(entries)
        },
        RunEventView::StepFailed { run_id, automation_id, error, step_id } => {
            let entries: Seq<(Seq<char>, Tree)> = Seq::empty();
            let entries = with(entries, "automation_id"@, Some(Tree::Text(automation_id)));
            let entries = with(entries, "error"@, Some(run_error_tree(error)));
            let entries = with(
                entries,
                "kind"@,
                Some(Tree::Text(event_kind_name(EventKind::StepFailed))),
            );
            let entries = with(entries, "run_id"@, Some(Tree::Text(run_id)));
            let entries = with(entries, "step_id"@, Some(Tree::Text(step_id)));
            Tree::Object(entries)
        },
        RunEventView::Paused { run_id, automation_id, step_id } => {
            let entries: Seq<(Seq<char>, Tree)> = Seq::empty();
            let entries = with(entries, "automation_id"@, Some(Tree::Text(automation_id)));
            let entries = with(
                entries,
                "kind"@,
                Some(Tree::Text(event_kind_name(EventKind::Paused))),
            );
            let entries = with(entries, "run_id"@, Some(Tree::Text(run_id)));
            let entries = with(entries, "step_id"@, Some(null_or_text(step_id)));
            Tree::Object(entries)
        },
        RunEventView::Resumed { run_id, automation_id, step_id } => {
            let entries: Seq<(Seq<char>, Tree)> = Seq::empty();
            let entries = with(entries, "automation_id"@, Some(Tree::Text(automation_id)));
            let entries = with(
                entries,
                "kind"@,
                Some(Tree::Text(event_kind_name(EventKind::Resumed))),
            );
            let entries = with(entries, "run_id"@, Some(Tree::Text(run_id)));
            let entries = with(entries, "step_id"@, Some(null_or_text(step_id)));
            Tree::Object(entries)
        },
        RunEventView::ManualIntervention { run_id, automation_id, error, step_id } => {
            let entries: Seq<(Seq<char>, Tree)> = Seq::empty();
            let entries = with(entries, "automation_id"@, Some(Tree::Text(automation_id)));
            let entries = with(entries, "error"@, Some(run_error_tree(error)));
            let entries = with(
                entries,
                "kind"@,
                Some(Tree::Text(event_kind_name(EventKind::ManualIntervention))),
            );
            let entries = with(entries, "run_id"@, Some(Tree::Text(run_id)));
            let entries = with(entries, "step_id"@, Some(Tree::Text(step_id)));
            Tree::Object(entries)
        },
        RunEventView::Log { run_id, automation_id, level, message, step_id } => {
            let entries: Seq<(Seq<char>, Tree)> = Seq::empty();
            let entries = with(entries, "automation_id"@, Some(Tree::Text(automation_id)));
            let entries = with(entries, "kind"@, Some(Tree::Text(event_kind_name(EventKind::Log))));
            let entries = with(entries, "level"@, Some(Tree::Text(level_name(level))));
            let entries = with(entries, "message"@, Some(Tree::Text(message)));
            let entries = with(entries, "run_id"@, Some(Tree::Text(run_id)));
            let entries = with(entries, "step_id"@, Some(null_or_text(step_id)));
            Tree::Object(entries)
        },
        RunEventView::Artifact { run_id, automation_id, artifact, step_id } => {
            let entries: Seq<(Seq<char>, Tree)> = Seq::empty();
            let entries = with(entries, "artifact"@, Some(artifact_tree(artifact)));
            let entries = with(entries, "automation_id"@, Some(Tree::Text(automation_id)));
            let entries = with(
                entries,
                "kind"@,
                Some(Tree::Text(event_kind_name(EventKind::Artifact))),
            );
            let entries = with(entries, "run_id"@, Some(Tree::Text(run_id)));
            let entries = with(entries, "step_id"@, Some(null_or_text(step_id)));
            Tree::Object(entries)
        },
        RunEventView::Completed { run_id, automation_id, status } => {
            let entries: Seq<(Seq<char>, Tree)> = Seq::empty();
            let entries = with(entries, "automation_id"@, Some(Tree::Text(automation_id)));
            let entries = with(
                entries,
                "kind"@,
                Some(Tree::Text(event_kind_name(EventKind::Completed))),
            );
            let entries = with(entries, "run_id"@, Some(Tree::Text(run_id)));
            let entries = with(entries, "status"@, Some(Tree::Text(status_name(status))));
            Tree::Object(entries)
        },
        RunEventView::Cancelled { run_id, automation_id } => {
            let entries: Seq<(Seq<char>, Tree)> = Seq::empty();
            let entries = with(entries, "automation_id"@, Some(Tree::Text(automation_id)));
            let entries = with(
                entries,
                "kind"@,
                Some(Tree::Text(event_kind_name(EventKind::Cancelled))),
            );
            let entries = with(entries, "run_id"@, Some(Tree::Text(run_id)));
            Tree::Object(entries)
        },
    }
}

pub open spec fn event_from(kind: EventKind, entries: Seq<(Seq<char>, Tree)>) -> Option<
    RunEventView,
> {
    let run_id = req_text_at(entries, "run_id"@);
    let automation_id = req_text_at(entries, "automation_id"@);
    if run_id is None || automation_id is None {
        None
    } else {
        event_with_ids(kind, entries, run_id->0, automation_id->0)
    }
}

/// The rest of an event.
pub open spec fn event_with_ids(
    kind: EventKind,
    entries: Seq<(Seq<char>, Tree)>,
    run_id: Seq<char>,
    automation_id: Seq<char>,
) -> Option<RunEventView> {
    match kind {
        EventKind::Started => Some(RunEventView::Started { run_id, automation_id }),
        EventKind::StepStarted => match (
            req_text_at(entries, "step_id"@),
            req_text_at(entries, "step_kind"@),
        ) {
            (Some(step_id), Some(step_kind)) => Some(
                RunEventView::StepStarted { run_id, automation_id, step_id, step_kind },
            ),
            _ => None,
        },
        EventKind::StepSucceeded => match (
            req_artifacts_at(entries, "artifacts"@),
            req_text_at(entries, "step_id"@),
        ) {
            (Some(artifacts), Some(step_id)) => Some(
                RunEventView::StepSucceeded { run_id, automation_id, artifacts, step_id },
            ),
            _ => None,
        },
        EventKind::StepFailed => match (
            req_run_error_at(entries, "error"@),
            req_text_at(entries, "step_id"@),
        ) {
            (Some(error), Some(step_id)) => Some(
                RunEventView::StepFailed { run_id, automation_id, error, step_id },
            ),
            _ => None,
        },
        EventKind::Paused => match opt_text_at(entries, "step_id"@) {
            Some(step_id) => Some(RunEventView::Paused { run_id, automation_id, step_id }),
            None => None,
        },
        EventKind::Resumed => match opt_text_at(entries, "step_id"@) {
            Some(step_id) => Some(RunEventView::Resumed { run_id, automation_id, step_id }),
            None => None,
        },
        EventKind::ManualIntervention => match (
            req_run_error_at(entries, "error"@),
            req_text_at(entries, "step_id"@),
        ) {
            (Some(error), Some(step_id)) => Some(
                RunEventView::ManualIntervention { run_id, automation_id, error, step_id },
            ),
            _ => None,
        },
        EventKind::Log => match (
            req_level_at(entries, "level"@),
            req_text_at(entries, "message"@),
            opt_text_at(entries, "step_id"@),
        ) {
            (Some(level), Some(message), Some(step_id)) => Some(
                RunEventView::Log { run_id, automation_id, level, message, step_id },
            ),
            _ => None,
        },
        EventKind::Artifact => match (
            req_artifact_at(entries, "artifact"@),
            opt_text_at(entries, "step_id"@),
        ) {
            (Some(artifact), Some(step_id)) => Some(
                RunEventView::Artifact { run_id, automation_id, artifact, step_id },
            ),
            _ => None,
        },
        EventKind::Completed => match req_status_at(entries, "status"@) {
            Some(status) => Some(RunEventView::Completed { run_id, automation_id, status }),
            None => None,
        },
        EventKind::Cancelled => Some(RunEventView::Cancelled { run_id, automation_id }),
    }
}

pub open spec fn event_of(tree: Tree) -> Option<RunEventView> {
    match tree {
        Tree::Object(entries) => match req_event_kind_at(entries, "kind"@) {
            Some(kind) => event_from(kind, entries),
            None => None,
        },
        _ => None,
    }
}

/// An event is read back as it was written.
pub proof fn event_round_trip(e: RunEventView)
    ensures
        event_of(event_tree(e)) == Some(e),
{
    let entries = event_tree(e)->Object_0;
    match e {
        RunEventView::Started { run_id, automation_id } => {
            event_kind_round_trip(EventKind::Started);
            event_with_ids_entries(
                Some(Tree::Text(automation_id)),
                Some(Tree::Text(event_kind_name(EventKind::Started))),
                Some(Tree::Text(run_id)),
            );
            assert(req_event_kind_at(entries, "kind"@) == Some(EventKind::Started));
            assert(req_text_at(entries, "run_id"@) == Some(run_id));
            assert(req_text_at(entries, "automation_id"@) == Some(automation_id));
        },
        RunEventView::StepStarted { run_id, automation_id, step_id, step_kind } => {
            event_kind_round_trip(EventKind::StepStarted);
            event_with_step_kind_entries(
                Some(Tree::Text(automation_id)),
                Some(Tree::Text(event_kind_name(EventKind::StepStarted))),
                Some(Tree::Text(run_id)),
                Some(Tree::Text(step_id)),
                Some(Tree::Text(step_kind)),
            );
            assert(req_event_kind_at(entries, "kind"@) == Some(EventKind::StepStarted));
            assert(req_text_at(entries, "run_id"@) == Some(run_id));
            assert(req_text_at(entries, "automation_id"@) == Some(automation_id));
            assert(req_text_at(entries, "step_id"@) == Some(step_id));
            assert(req_text_at(entries, "step_kind"@) == Some(step_kind));
        },
        RunEventView::StepSucceeded { run_id, automation_id, artifacts, step_id } => {
            event_kind_round_trip(EventKind::StepSucceeded);
            artifacts_round_trip(artifacts);
            event_with_artifacts_entries(
                Some(artifacts_tree(artifacts)),
                Some(Tree::Text(automation_id)),
                Some(Tree::Text(event_kind_name(EventKind::StepSucceeded))),
                Some(Tree::Text(run_id)),
                Some(Tree::Text(step_id)),
            );
            assert(req_event_kind_at(entries, "kind"@) == Some(EventKind::StepSucceeded));
            assert(req_text_at(entries, "run_id"@) == Some(run_id));
            assert(req_text_at(entries, "automation_id"@) == Some(automation_id));
            assert(req_artifacts_at(entries, "artifacts"@) == Some(artifacts));
            assert(req_text_at(entries, "step_id"@) == Some(step_id));
        },
        RunEventView::StepFailed { run_id, automation_id, error, step_id } => {
            event_kind_round_trip(EventKind::StepFailed);
            run_error_round_trip(error);
            event_with_error_entries(
                Some(Tree::Text(automation_id)),
                Some(run_error_tree(error)),
                Some(Tree::Text(event_kind_name(EventKind::StepFailed))),
                Some(Tree::Text(run_id)),
                Some(Tree::Text(step_id)),
            );
            assert(req_event_kind_at(entries, "kind"@) == Some(EventKind::StepFailed));
            assert(req_text_at(entries, "run_id"@) == Some(run_id));
            assert(req_text_at(entries, "automation_id"@) == Some(automation_id));
            assert(req_run_error_at(entries, "error"@) == Some(error));
            assert(req_text_at(entries, "step_id"@) == Some(step_id));
        },
        RunEventView::Paused { run_id, automation_id, step_id } => {
            event_kind_round_trip(EventKind::Paused);
            event_with_step_entries(
                Some(Tree::Text(automation_id)),
                Some(Tree::Text(event_kind_name(EventKind::Paused))),
                Some(Tree::Text(run_id)),
                Some(null_or_text(step_id)),
            );
            assert(req_event_kind_at(entries, "kind"@) == Some(EventKind::Paused));
            assert(req_text_at(entries, "run_id"@) == Some(run_id));
            assert(req_text_at(entries, "automation_id"@) == Some(automation_id));
            assert(opt_text_at(entries, "step_id"@) == Some(step_id));
        },
        RunEventView::Resumed { run_id, automation_id, step_id } => {
            event_kind_round_trip(EventKind::Resumed);
            event_with_step_entries(
                Some(Tree::Text(automation_id)),
                Some(Tree::Text(event_kind_name(EventKind::Resumed))),
                Some(Tree::Text(run_id)),
                Some(null_or_text(step_id)),
            );
            assert(req_event_kind_at(entries, "kind"@) == Some(EventKind::Resumed));
            assert(req_text_at(entries, "run_id"@) == Some(run_id));
            assert(req_text_at(entries, "automation_id"@) == Some(automation_id));
            assert(opt_text_at(entries, "step_id"@) == Some(step_id));
        },
        RunEventView::ManualIntervention { run_id, automation_id, error, step_id } => {
            event_kind_round_trip(EventKind::ManualIntervention);
            run_error_round_trip(error);
            event_with_error_entries(
                Some(Tree::Text(automation_id)),
                Some(run_error_tree(error)),
                Some(Tree::Text(event_kind_name(EventKind::ManualIntervention))),
                Some(Tree::Text(run_id)),
                Some(Tree::Text(step_id)),
            );
            assert(req_event_kind_at(entries, "kind"@) == Some(EventKind::ManualIntervention));
            assert(req_text_at(entries, "run_id"@) == Some(run_id));
            assert(req_text_at(entries, "automation_id"@) == Some(automation_id));
            assert(req_run_error_at(entries, "error"@) == Some(error));
            assert(req_text_at(entries, "step_id"@) == Some(step_id));
        },
        RunEventView::Log { run_id, automation_id, level, message, step_id } => {
            event_kind_round_trip(EventKind::Log);
            level_round_trip(level);
            event_with_message_entries(
                Some(Tree::Text(automation_id)),
                Some(Tree::Text(event_kind_name(EventKind::Log))),
                Some(Tree::Text(level_name(level))),
                Some(Tree::Text(message)),
                Some(Tree::Text(run_id)),
                Some(null_or_text(step_id)),
            );
            assert(req_event_kind_at(entries, "kind"@) == Some(EventKind::Log));
            assert(req_text_at(entries, "run_id"@) == Some(run_id));
            assert(req_text_at(entries, "automation_id"@) == Some(automation_id));
            assert(req_level_at(entries, "level"@) == Some(level));
            assert(req_text_at(entries, "message"@) == Some(message));
            assert(opt_text_at(entries, "step_id"@) == Some(step_id));
        },
        RunEventView::Artifact { run_id, automation_id, artifact, step_id } => {
            event_kind_round_trip(EventKind::Artifact);
            artifact_round_trip(artifact);
            event_with_artifact_entries(
                Some(artifact_tree(artifact)),
                Some(Tree::Text(automation_id)),
                Some(Tree::Text(event_kind_name(EventKind::Artifact))),
                Some(Tree::Text(run_id)),
                Some(null_or_text(step_id)),
            );
            assert(req_event_kind_at(entries, "kind"@) == Some(EventKind::Artifact));
            assert(req_text_at(entries, "run_id"@) == Some(run_id));
            assert(req_text_at(entries, "automation_id"@) == Some(automation_id));
            assert(req_artifact_at(entries, "artifact"@) == Some(artifact));
            assert(opt_text_at(entries, "step_id"@) == Some(step_id));
        },
        RunEventView::Completed { run_id, automation_id, status } => {
            event_kind_round_trip(EventKind::Completed);
            status_round_trip(status);
            event_with_status_entries(
                Some(Tree::Text(automation_id)),
                Some(Tree::Text(event_kind_name(EventKind::Completed))),
                Some(Tree::Text(run_id)),
                Some(Tree::Text(status_name(status))),
            );
            assert(req_event_kind_at(entries, "kind"@) == Some(EventKind::Completed));
            assert(req_text_at(entries, "run_id"@) == Some(run_id));
            assert(req_text_at(entries, "automation_id"@) == Some(automation_id));
            assert(req_status_at(entries, "status"@) == Some(status));
        },
        RunEventView::Cancelled { run_id, automation_id } => {
            event_kind_round_trip(EventKind::Cancelled);
            event_with_ids_entries(
                Some(Tree::Text(automation_id)),
                Some(Tree::Text(event_kind_name(EventKind::Cancelled))),
                Some(Tree::Text(run_id)),
            );
            assert(req_event_kind_at(entries, "kind"@) == Some(EventKind::Cancelled));
            assert(req_text_at(entries, "run_id"@) == Some(run_id));
            assert(req_text_at(entries, "automation_id"@) == Some(automation_id));
        },
    }
}

pub fn encode_event(e: &RunEvent) -> (r: Json)
    ensures
        r@ == event_tree(e@),
{
    broadcast use object_tree;

    let mut entries = no_fields();
    match e {
        RunEvent::Started { run_id, automation_id } => {
            add_field(&mut entries, "automation_id", Some(encode_text(automation_id.as_str())));
            add_field(&mut entries, "kind", Some(encode_text(event_kind_text(EventKind::Started))));
            add_field(&mut entries, "run_id", Some(encode_text(run_id.as_str())));
        },
        RunEvent::StepStarted { run_id, automation_id, step_id, step_kind } => {
            add_field(&mut entries, "automation_id", Some(encode_text(automation_id.as_str())));
            add_field(
                &mut entries,
                "kind",
                Some(encode_text(event_kind_text(EventKind::StepStarted))),
            );
            add_field(&mut entries, "run_id", Some(encode_text(run_id.as_str())));
            add_field(&mut entries, "step_id", Some(encode_text(step_id.as_str())));
            add_field(&mut entries, "step_kind", Some(encode_text(step_kind.as_str())));
        },
        RunEvent::StepSucceeded { run_id, automation_id, artifacts, step_id } => {
            add_field(&mut entries, "artifacts", Some(encode_artifacts(artifacts)));
            add_field(&mut entries, "automation_id", Some(encode_text(automation_id.as_str())));
            add_field(
                &mut entries,
                "kind",
                Some(encode_text(event_kind_text(EventKind::StepSucceeded))),
            );
            add_field(&mut entries, "run_id", Some(encode_text(run_id.as_str())));
            add_field(&mut entries, "step_id", Some(encode_text(step_id.as_str())));
        },
        RunEvent::StepFailed { run_id, automation_id, error, step_id } => {
            add_field(&mut entries, "automation_id", Some(encode_text(automation_id.as_str())));
            add_field(&mut entries, "error", Some(encode_run_error(error)));
            add_field(
                &mut entries,
                "kind",
                Some(encode_text(event_kind_text(EventKind::StepFailed))),
            );
            add_field(&mut entries, "run_id", Some(encode_text(run_id.as_str())));
            add_field(&mut entries, "step_id", Some(encode_text(step_id.as_str())));
        },
        RunEvent::Paused { run_id, automation_id, step_id } => {
            add_field(&mut entries, "automation_id", Some(encode_text(automation_id.as_str())));
            add_field(&mut entries, "kind", Some(encode_text(event_kind_text(EventKind::Paused))));
            add_field(&mut entries, "run_id", Some(encode_text(run_id.as_str())));
            add_field(&mut entries, "step_id", Some(encode_null_or_text(step_id)));
        },
        RunEvent::Resumed { run_id, automation_id, step_id } => {
            add_field(&mut entries, "automation_id", Some(encode_text(automation_id.as_str())));
            add_field(&mut entries, "kind", Some(encode_text(event_kind_text(EventKind::Resumed))));
            add_field(&mut entries, "run_id", Some(encode_text(run_id.as_str())));
            add_field(&mut entries, "step_id", Some(encode_null_or_text(step_id)));
        },
        RunEvent::ManualIntervention { run_id, automation_id, error, step_id } => {
            add_field(&mut entries, "automation_id", Some(encode_text(automation_id.as_str())));
            add_field(&mut entries, "error", Some(encode_run_error(error)));
            add_field(
                &mut entries,
                "kind",
                Some(encode_text(event_kind_text(EventKind::ManualIntervention))),
            );
            add_field(&mut entries, "run_id", Some(encode_text(run_id.as_str())));
            add_field(&mut entries, "step_id", Some(encode_text(step_id.as_str())));
        },
        RunEvent::Log { run_id, automation_id, level, message, step_id } => {
            add_field(&mut entries, "automation_id", Some(encode_text(automation_id.as_str())));
            add_field(&mut entries, "kind", Some(encode_text(event_kind_text(EventKind::Log))));
            add_field(&mut entries, "level", Some(encode_text(level_text(*level))));
            add_field(&mut entries, "message", Some(encode_text(message.as_str())));
            add_field(&mut entries, "run_id", Some(encode_text(run_id.as_str())));
            add_field(&mut entries, "step_id", Some(encode_null_or_text(step_id)));
        },
        RunEvent::Artifact { run_id, automation_id, artifact, step_id } => {
            add_field(&mut entries, "artifact", Some(encode_artifact(artifact)));
            add_field(&mut entries, "automation_id", Some(encode_text(automation_id.as_str())));
            add_field(
                &mut entries,
                "kind",
                Some(encode_text(event_kind_text(EventKind::Artifact))),
            );
            add_field(&mut entries, "run_id", Some(encode_text(run_id.as_str())));
            add_field(&mut entries, "step_id", Some(encode_null_or_text(step_id)));
        },
        RunEvent::Completed { run_id, automation_id, status } => {
            add_field(&mut entries, "automation_id", Some(encode_text(automation_id.as_str())));
            add_field(
                &mut entries,
                "kind",
                Some(encode_text(event_kind_text(EventKind::Completed))),
            );
            add_field(&mut entries, "run_id", Some(encode_text(run_id.as_str())));
            add_field(&mut entries, "status", Some(encode_text(status_text(*status))));
        },
        RunEvent::Cancelled { run_id, automation_id } => {
            add_field(&mut entries, "automation_id", Some(encode_text(automation_id.as_str())));
            add_field(
                &mut entries,
                "kind",
                Some(encode_text(event_kind_text(EventKind::Cancelled))),
            );
            add_field(&mut entries, "run_id", Some(encode_text(run_id.as_str())));
        },
    }
    Json::Object(entries)
}

/// Reads an event. Fields that are not known are passed over.
pub fn decode_event(value: &Json) -> (r: Option<RunEvent>)
    ensures
        opt_view(r) == event_of(value@),
{
    broadcast use object_tree;

    let entries = match value {
        Json::Object(entries) => entries,
        _ => {
            return None;
        },
    };
    let kind = read_req_event_kind_at(entries, "kind")?;
    let run_id = read_req_text_at(entries, "run_id")?;
    let automation_id = read_req_text_at(entries, "automation_id")?;
    match kind {
        EventKind::Started => {
            Some(RunEvent::Started { run_id, automation_id })
        },
        EventKind::StepStarted => {
            let step_id = read_req_text_at(entries, "step_id")?;
            let step_kind = read_req_text_at(entries, "step_kind")?;
            Some(RunEvent::StepStarted { run_id, automation_id, step_id, step_kind })
        },
        EventKind::StepSucceeded => {
            let artifacts = read_req_artifacts_at(entries, "artifacts")?;
            let step_id = read_req_text_at(entries, "step_id")?;
            Some(RunEvent::StepSucceeded { run_id, automation_id, artifacts, step_id })
        },
        EventKind::StepFailed => {
            let error = read_req_run_error_at(entries, "error")?;
            let step_id = read_req_text_at(entries, "step_id")?;
            Some(RunEvent::StepFailed { run_id, automation_id, error, step_id })
        },
        EventKind::Paused => {
            let step_id = read_opt_text_at(entries, "step_id")?;
            Some(RunEvent::Paused { run_id, automation_id, step_id })
        },
        EventKind::Resumed => {
            let step_id = read_opt_text_at(entries, "step_id")?;
            Some(RunEvent::Resumed { run_id, automation_id, step_id })
        },
        EventKind::ManualIntervention => {
            let error = read_req_run_error_at(entries, "error")?;
            let step_id = read_req_text_at(entries, "step_id")?;
            Some(RunEvent::ManualIntervention { run_id, automation_id, error, step_id })
        },
        EventKind::Log => {
            let level = read_req_level_at(entries, "level")?;
            let message = read_req_text_at(entries, "message")?;
            let step_id = read_opt_text_at(entries, "step_id")?;
            Some(RunEvent::Log { run_id, automation_id, level, message, step_id })
        },
        EventKind::Artifact => {
            let artifact = read_req_artifact_at(entries, "artifact")?;
            let step_id = read_opt_text_at(entries, "step_id")?;
            Some(RunEvent::Artifact { run_id, automation_id, artifact, step_id })
        },
        EventKind::Completed => {
            let status = read_req_status_at(entries, "status")?;
            Some(RunEvent::Completed { run_id, automation_id, status })
        },
        EventKind::Cancelled => {
            Some(RunEvent::Cancelled { run_id, automation_id })
        },
    }
}

} // verus!
