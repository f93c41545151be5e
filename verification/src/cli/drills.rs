//! Drills: how the runs of a manifest follow one another, and how they are judged.
use vstd::prelude::*;
use crate::cli::manifest::{
    drill_approvals, expected_name, outcome_expected, DrillEntry, DrillEntryView,
    DrillExpectedOutcome, DrillManifest, DrillManifestView,
};
use crate::cli::profiles::{configure, configured};
use crate::cli::reports::{
    encode_null_or_failure_kind, evidence_prune_json, failure_summary, last_failure_kind,
    last_failure_message, messages_of, null_or_failure_kind, outcome_name, outcome_str,
    preflight_messages, prune_tree, report_error_message, report_failure_kind,
    report_failure_summary, EvidencePruneReport,
};
use crate::codec::document::{definition_in_text, parse_definition_json};
use crate::collections::lookup;
use crate::definition::{AutomationDefinition, AutomationDefinitionView, Platform};
use crate::executor::{
    executor_error_text, runnable, ExecutorError, PreflightReport, RunOutcome, RunReport,
};
use crate::fields::{
    add_field, encode_text, encode_u64, lookup_empty, lookup_with, no_fields, unsigned, with,
};
use crate::messages::parse_failure_text;
use crate::run::{FailureKind, RunConfig, RunConfigView, RunEvent, RunEventView};
use crate::text::{concat, contains, contains_text, decimal, format_u64, joined, opt_text, texts};
use crate::value::{array_tree, object_tree, trees, Json, Tree};
use crate::views::views;

verus! {

/// Whether a failure has the kind that is expected, where one is.
pub open spec fn failure_kind_expected(d: DrillEntryView, actual: Option<FailureKind>) -> bool {
    d.expected_failure_kind is Some ==> d.expected_failure_kind == actual
}

pub fn expected_failure_kind_matches(drill: &DrillEntry, actual: Option<FailureKind>) -> (r: bool)
    ensures
        r == failure_kind_expected(drill@, actual),
{
    match (drill.expected_failure_kind, actual) {
        (None, _) => true,
        (Some(_), None) => false,
        (Some(expected), Some(kind)) => expected == kind,
    }
}

/// Whether an error holds the words that are expected, where some are. No error holds none.
pub open spec fn error_expected(d: DrillEntryView, actual: Option<Seq<char>>) -> bool {
    match (d.expected_error_contains, actual) {
        (Some(words), Some(text)) => contains_text(text, words),
        (Some(_), None) => false,
        (None, _) => true,
    }
}

pub fn expected_error_matches(drill: &DrillEntry, actual_error: &str) -> (r: bool)
    ensures
        r == error_expected(drill@, Some(actual_error@)),
{
    match &drill.expected_error_contains {
        Some(expected) => contains(actual_error, expected.as_str()),
        None => true,
    }
}

pub fn expected_optional_error_matches(drill: &DrillEntry, actual_error: &Option<String>) -> (r:
    bool)
    ensures
        r == error_expected(drill@, opt_text(*actual_error)),
{
    match (&drill.expected_error_contains, actual_error) {
        (Some(expected), Some(actual)) => contains(actual.as_str(), expected.as_str()),
        (Some(_), None) => false,
        (None, _) => true,
    }
}

/// Whether an event is a log message with the words.
pub open spec fn logs(e: RunEventView, words: Seq<char>) -> bool {
    match e {
        RunEventView::Log { run_id, automation_id, step_id, level, message } => contains_text(
            message,
            words,
        ),
        _ => false,
    }
}

/// Whether a log message holds the words that are expected, where some are.
pub open spec fn log_expected(d: DrillEntryView, events: Seq<RunEventView>) -> bool {
    match d.expected_log_contains {
        Some(words) => exists|i: int| 0 <= i < events.len() && logs(#[trigger] events[i], words),
        None => true,
    }
}

pub fn expected_log_matches(drill: &DrillEntry, report: &RunReport) -> (r: bool)
    ensures
        r == log_expected(drill@, views(report.events@)),
{
    let ghost all = views(report.events@);
    match &drill.expected_log_contains {
        None => true,
        Some(expected) => {
            let mut i: usize = 0;
            while i < report.events.len()
                invariant
                    i <= report.events@.len(),
                    all == views(report.events@),
                    drill@.expected_log_contains == Some(expected@),
                    forall|j: int| 0 <= j < i ==> !logs(#[trigger] all[j], expected@),
                decreases report.events@.len() - i,
            {
                assert(all[i as int] == report.events@[i as int]@);
                match &report.events[i] {
                    RunEvent::Log { run_id, automation_id, step_id, level, message } => {
                        if contains(message.as_str(), expected.as_str()) {
                            assert(logs(all[i as int], expected@));
                            return true;
                        }
                    },
                    _ => {},
                }
                i = i + 1;
            }
            false
        },
    }
}

/// Whether a run took no longer than is expected, where something is.
pub open spec fn duration_expected(d: DrillEntryView, millis: nat) -> bool {
    d.expected_max_duration_millis matches Some(most) ==> millis <= most
}

pub fn expected_duration_matches(drill: &DrillEntry, actual_duration_millis: u128) -> (r: bool)
    ensures
        r == duration_expected(drill@, actual_duration_millis as nat),
{
    match drill.expected_max_duration_millis {
        Some(expected) => actual_duration_millis <= expected as u128,
        None => true,
    }
}

/// Whether it was expected that the run does not begin, for this reason and within this time.
pub open spec fn refusal_expected(d: DrillEntryView, error: Seq<char>, millis: nat) -> bool {
    &&& d.expected_outcome == DrillExpectedOutcome::ExecutorError
    &&& d.expected_failure_kind is None
    &&& error_expected(d, Some(error))
    &&& duration_expected(d, millis)
}

pub fn refusal_matches(drill: &DrillEntry, error: &str, millis: u128) -> (r: bool)
    ensures
        r == refusal_expected(drill@, error@, millis as nat),
{
    drill.expected_outcome == DrillExpectedOutcome::ExecutorError
        && drill.expected_failure_kind.is_none() && expected_error_matches(drill, error)
        && expected_duration_matches(drill, millis)
}

/// Whether a run did what was expected of it.
pub open spec fn report_expected(
    d: DrillEntryView,
    outcome: RunOutcome,
    events: Seq<RunEventView>,
    millis: nat,
) -> bool {
    &&& outcome_expected(d.expected_outcome, outcome)
    &&& failure_kind_expected(d, last_failure_kind(events))
    &&& error_expected(d, last_failure_message(events))
    &&& log_expected(d, events)
    &&& duration_expected(d, millis)
}

pub fn report_matches(drill: &DrillEntry, report: &RunReport, millis: u128) -> (r: bool)
    ensures
        r == report_expected(drill@, report.outcome, views(report.events@), millis as nat),
{
    let actual_error = report_error_message(report);
    drill.expected_outcome.matches(report.outcome) && expected_failure_kind_matches(
        drill,
        report_failure_kind(report),
    ) && expected_optional_error_matches(
        drill,
        &actual_error,
    ) && expected_log_matches(drill, report)
        && expected_duration_matches(drill, millis)
}

/// How often a drill is run: at least once.
pub open spec fn repeats(d: DrillEntryView) -> u32 {
    match d.repeat {
        Some(n) => if n == 0 {
            1
        } else {
            n
        },
        None => 1,
    }
}

pub fn drill_repeats(drill: &DrillEntry) -> (r: u32)
    ensures
        r == repeats(drill@),
        r > 0,
{
    match drill.repeat {
        Some(n) => if n == 0 {
            1
        } else {
            n
        },
        None => 1,
    }
}

/// The folders, each inside the one before it, in which an attempt leaves its evidence: that of
/// the manifest, that of the drill, and one for the attempt where there are several.
pub open spec fn evidence_folders(
    root: Option<Seq<char>>,
    d: DrillEntryView,
    attempt: u32,
) -> Option<Seq<Seq<char>>> {
    match root {
        None => None,
        Some(dir) => Some(
            if repeats(d) > 1 {
                seq![dir, d.id, "attempt-"@ + decimal(attempt as nat)]
            } else {
                seq![dir, d.id]
            },
        ),
    }
}

pub fn attempt_folders(root: &Option<String>, drill: &DrillEntry, attempt: u32) -> (r: Option<
    Vec<String>,
>)
    ensures
        match r {
            Some(folders) => evidence_folders(opt_text(*root), drill@, attempt) == Some(
                texts(folders@),
            ),
            None => evidence_folders(opt_text(*root), drill@, attempt) is None,
        },
{
    match root {
        None => None,
        Some(dir) => {
            let mut folders: Vec<String> = Vec::new();
            folders.push(dir.clone());
            folders.push(drill.id.clone());
            assert(texts(folders@) =~= seq![dir@, drill.id@]);
            if drill_repeats(drill) > 1 {
                let number = format_u64(attempt as u64);
                folders.push(concat("attempt-", number.as_str()));
                assert(texts(folders@) =~= seq![
                    dir@,
                    drill.id@,
                    "attempt-"@ + decimal(attempt as nat),
                ]);
            }
            Some(folders)
        },
    }
}

/// How an attempt is configured.
pub open spec fn attempt_configured(
    d: DrillEntryView,
    platform: Platform,
    evidence_directory: Option<Seq<char>>,
) -> RunConfigView {
    configured(
        false,
        platform,
        d.policy_profile,
        drill_approvals(d),
        d.evidence_max_artifact_bytes,
        evidence_directory,
    )
}

pub fn attempt_config(
    drill: &DrillEntry,
    platform: Platform,
    evidence_directory: Option<String>,
) -> (r: RunConfig)
    ensures
        r@ == attempt_configured(drill@, platform, opt_text(evidence_directory)),
{
    configure(
        false,
        platform,
        drill.policy_profile,
        drill.approvals(),
        drill.evidence_max_artifact_bytes,
        evidence_directory,
    )
}

pub open spec fn null_or_u64(v: Option<u64>) -> Tree {
    match v {
        Some(n) => unsigned(n),
        None => Tree::Null,
    }
}

fn encode_null_or_u64(v: Option<u64>) -> (r: Json)
    ensures
        r@ == null_or_u64(v),
{
    match v {
        Some(n) => encode_u64(n),
        None => Json::Null,
    }
}

/// The result of a drill whose definition could not be had.
#[verifier::opaque]
pub open spec fn unloaded_result(
    d: DrillEntryView,
    path: Seq<char>,
    outcome: Seq<char>,
    error: Seq<char>,
) -> Tree {
    let entries: Seq<(Seq<char>, Tree)> = Seq::empty();
    let entries = with(entries, "actualOutcome"@, Some(Tree::Text(outcome)));
    let entries = with(entries, "error"@, Some(Tree::Text(error)));
    let entries = with(
        entries,
        "expectedOutcome"@,
        Some(Tree::Text(expected_name(d.expected_outcome))),
    );
    let entries = with(entries, "id"@, Some(Tree::Text(d.id)));
    let entries = with(entries, "matched"@, Some(Tree::Bool(false)));
    let entries = with(entries, "path"@, Some(Tree::Text(path)));
    Tree::Object(entries)
}

fn encode_unloaded(drill: &DrillEntry, path: &str, outcome: &str, error: &str) -> (r: Json)
    ensures
        r@ == unloaded_result(drill@, path@, outcome@, error@),
{
    broadcast use object_tree;

    proof {
        reveal(unloaded_result);
    }

    let mut entries = no_fields();
    add_field(&mut entries, "actualOutcome", Some(encode_text(outcome)));
    add_field(&mut entries, "error", Some(encode_text(error)));
    add_field(&mut entries, "expectedOutcome", Some(encode_text(drill.expected_outcome.as_str())));
    add_field(&mut entries, "id", Some(encode_text(drill.id.as_str())));
    add_field(&mut entries, "matched", Some(Json::Bool(false)));
    add_field(&mut entries, "path", Some(encode_text(path)));
    Json::Object(entries)
}

/// The result of an attempt that came to an error outside the steps.
#[verifier::opaque]
pub open spec fn failed_result(
    d: DrillEntryView,
    path: Seq<char>,
    attempt: u32,
    millis: u64,
    outcome: Seq<char>,
    matched: bool,
    error: Seq<char>,
) -> Tree {
    let entries: Seq<(Seq<char>, Tree)> = Seq::empty();
    let entries = with(entries, "actualOutcome"@, Some(Tree::Text(outcome)));
    let entries = with(entries, "attempt"@, Some(unsigned(attempt as u64)));
    let entries = with(
        entries,
        "durationMatched"@,
        Some(Tree::Bool(duration_expected(d, millis as nat))),
    );
    let entries = with(entries, "durationMillis"@, Some(unsigned(millis)));
    let entries = with(entries, "error"@, Some(Tree::Text(error)));
    let entries = with(
        entries,
        "expectedMaxDurationMillis"@,
        Some(null_or_u64(d.expected_max_duration_millis)),
    );
    let entries = with(
        entries,
        "expectedOutcome"@,
        Some(Tree::Text(expected_name(d.expected_outcome))),
    );
    let entries = with(entries, "id"@, Some(Tree::Text(d.id)));
    let entries = with(entries, "matched"@, Some(Tree::Bool(matched)));
    let entries = with(entries, "path"@, Some(Tree::Text(path)));
    let entries = with(entries, "repeat"@, Some(unsigned(repeats(d) as u64)));
    Tree::Object(entries)
}

fn encode_failed(
    drill: &DrillEntry,
    path: &str,
    attempt: u32,
    millis: u64,
    outcome: &str,
    matched: bool,
    error: &str,
) -> (r: Json)
    ensures
        r@ == failed_result(drill@, path@, attempt, millis, outcome@, matched, error@),
{
    broadcast use object_tree;

    proof {
        reveal(failed_result);
    }

    let mut entries = no_fields();
    add_field(&mut entries, "actualOutcome", Some(encode_text(outcome)));
    add_field(&mut entries, "attempt", Some(encode_u64(attempt as u64)));
    add_field(
        &mut entries,
        "durationMatched",
        Some(Json::Bool(expected_duration_matches(drill, millis as u128))),
    );
    add_field(&mut entries, "durationMillis", Some(encode_u64(millis)));
    add_field(&mut entries, "error", Some(encode_text(error)));
    add_field(
        &mut entries,
        "expectedMaxDurationMillis",
        Some(encode_null_or_u64(drill.expected_max_duration_millis)),
    );
    add_field(&mut entries, "expectedOutcome", Some(encode_text(drill.expected_outcome.as_str())));
    add_field(&mut entries, "id", Some(encode_text(drill.id.as_str())));
    add_field(&mut entries, "matched", Some(Json::Bool(matched)));
    add_field(&mut entries, "path", Some(encode_text(path)));
    add_field(&mut entries, "repeat", Some(encode_u64(drill_repeats(drill) as u64)));
    Json::Object(entries)
}

/// The result of an attempt that ran.
#[verifier::opaque]
pub open spec fn judged_result(
    d: DrillEntryView,
    path: Seq<char>,
    attempt: u32,
    millis: u64,
    report: ReportView,
    prune: Option<EvidencePruneReport>,
) -> Tree {
    let entries: Seq<(Seq<char>, Tree)> = Seq::empty();
    let entries = with(
        entries,
        "actualFailureKind"@,
        Some(null_or_failure_kind(last_failure_kind(report.events))),
    );
    let entries = with(entries, "actualOutcome"@, Some(Tree::Text(outcome_name(report.outcome))));
    let entries = with(entries, "attempt"@, Some(unsigned(attempt as u64)));
    let entries = with(
        entries,
        "durationMatched"@,
        Some(Tree::Bool(duration_expected(d, millis as nat))),
    );
    let entries = with(entries, "durationMillis"@, Some(unsigned(millis)));
    let entries = with(entries, "eventCount"@, Some(unsigned(report.events.len() as u64)));
    let entries = with(entries, "evidencePrune"@, Some(prune_tree(prune)));
    let entries = with(
        entries,
        "expectedFailureKind"@,
        Some(null_or_failure_kind(d.expected_failure_kind)),
    );
    let entries = with(
        entries,
        "expectedLogMatched"@,
        Some(Tree::Bool(log_expected(d, report.events))),
    );
    let entries = with(
        entries,
        "expectedMaxDurationMillis"@,
        Some(null_or_u64(d.expected_max_duration_millis)),
    );
    let entries = with(
        entries,
        "expectedOutcome"@,
        Some(Tree::Text(expected_name(d.expected_outcome))),
    );
    let entries = with(
        entries,
        "failureSummary"@,
        Some(failure_summary(report.outcome, report.events)),
    );
    let entries = with(entries, "id"@, Some(Tree::Text(d.id)));
    let entries = with(
        entries,
        "matched"@,
        Some(Tree::Bool(report_expected(d, report.outcome, report.events, millis as nat))),
    );
    let entries = with(entries, "path"@, Some(Tree::Text(path)));
    let entries = with(entries, "repeat"@, Some(unsigned(repeats(d) as u64)));
    let entries = with(entries, "runId"@, Some(Tree::Text(report.run_id)));
    Tree::Object(entries)
}

fn encode_judged(
    drill: &DrillEntry,
    path: &str,
    attempt: u32,
    millis: u64,
    report: &RunReport,
    prune: Option<EvidencePruneReport>,
) -> (r: Json)
    ensures
        r@ == judged_result(drill@, path@, attempt, millis, report_view(*report), prune),
{
    broadcast use object_tree;

    proof {
        reveal(judged_result);
    }

    let mut entries = no_fields();
    add_field(
        &mut entries,
        "actualFailureKind",
        Some(encode_null_or_failure_kind(report_failure_kind(report))),
    );
    add_field(&mut entries, "actualOutcome", Some(encode_text(outcome_str(report.outcome))));
    add_field(&mut entries, "attempt", Some(encode_u64(attempt as u64)));
    add_field(
        &mut entries,
        "durationMatched",
        Some(Json::Bool(expected_duration_matches(drill, millis as u128))),
    );
    add_field(&mut entries, "durationMillis", Some(encode_u64(millis)));
    add_field(&mut entries, "eventCount", Some(encode_u64(report.events.len() as u64)));
    add_field(&mut entries, "evidencePrune", Some(evidence_prune_json(prune)));
    add_field(
        &mut entries,
        "expectedFailureKind",
        Some(encode_null_or_failure_kind(drill.expected_failure_kind)),
    );
    add_field(
        &mut entries,
        "expectedLogMatched",
        Some(Json::Bool(expected_log_matches(drill, report))),
    );
    add_field(
        &mut entries,
        "expectedMaxDurationMillis",
        Some(encode_null_or_u64(drill.expected_max_duration_millis)),
    );
    add_field(&mut entries, "expectedOutcome", Some(encode_text(drill.expected_outcome.as_str())));
    add_field(&mut entries, "failureSummary", Some(report_failure_summary(report)));
    add_field(&mut entries, "id", Some(encode_text(drill.id.as_str())));
    add_field(
        &mut entries,
        "matched",
        Some(Json::Bool(report_matches(drill, report, millis as u128))),
    );
    add_field(&mut entries, "path", Some(encode_text(path)));
    add_field(&mut entries, "repeat", Some(encode_u64(drill_repeats(drill) as u64)));
    add_field(&mut entries, "runId", Some(encode_text(report.run_id.as_str())));
    Json::Object(entries)
}

/// What a [`RunReport`] stands for.
pub struct ReportView {
    pub run_id: Seq<char>,
    pub outcome: RunOutcome,
    pub events: Seq<RunEventView>,
}

pub open spec fn report_view(report: RunReport) -> ReportView {
    ReportView { run_id: report.run_id@, outcome: report.outcome, events: views(report.events@) }
}

/// How far the drill in hand has come.
#[derive(Debug)]
pub enum Stage {
    /// Its definition is to be read.
    Reading,
    /// An attempt is to be begun.
    Starting { path: String, definition: AutomationDefinition },
    /// The attempt is to be preflighted.
    Checking { path: String, definition: AutomationDefinition, config: RunConfig },
    /// Earlier evidence is to be removed.
    Pruning { path: String, definition: AutomationDefinition, config: RunConfig },
    /// The definition is to be run.
    Running {
        path: String,
        definition: AutomationDefinition,
        config: RunConfig,
        prune: Option<EvidencePruneReport>,
    },
    /// The evidence of the run is to be written.
    Bundling {
        path: String,
        definition: AutomationDefinition,
        report: RunReport,
        millis: u64,
        prune: Option<EvidencePruneReport>,
    },
    /// Nothing is left to do.
    Done,
}

/// What a [`Stage`] stands for.
pub enum StageView {
    Reading,
    Starting { path: Seq<char>, definition: AutomationDefinitionView },
    Checking { path: Seq<char>, definition: AutomationDefinitionView, config: RunConfigView },
    Pruning { path: Seq<char>, definition: AutomationDefinitionView, config: RunConfigView },
    Running {
        path: Seq<char>,
        definition: AutomationDefinitionView,
        config: RunConfigView,
        prune: Option<EvidencePruneReport>,
    },
    Bundling {
        path: Seq<char>,
        definition: AutomationDefinitionView,
        report: ReportView,
        millis: u64,
        prune: Option<EvidencePruneReport>,
    },
    Done,
}

impl View for Stage {
    type V = StageView;

    open spec fn view(&self) -> StageView {
        match *self {
            Stage::Reading => StageView::Reading,
            Stage::Starting { path, definition } => StageView::Starting {
                path: path@,
                definition: definition@,
            },
            Stage::Checking { path, definition, config } => StageView::Checking {
                path: path@,
                definition: definition@,
                config: config@,
            },
            Stage::Pruning { path, definition, config } => StageView::Pruning {
                path: path@,
                definition: definition@,
                config: config@,
            },
            Stage::Running { path, definition, config, prune } => StageView::Running {
                path: path@,
                definition: definition@,
                config: config@,
                prune,
            },
            Stage::Bundling { path, definition, report, millis, prune } => StageView::Bundling {
                path: path@,
                definition: definition@,
                report: report_view(report),
                millis,
                prune,
            },
            Stage::Done => StageView::Done,
        }
    }
}

/// The answer of the host to what it was asked to do. Times are counted from the beginning of the
/// attempt.
#[derive(Debug)]
pub enum DrillNews {
    /// The definition could not be read.
    Unreadable { path: String, error: String },
    /// The text of the definition.
    Text { path: String, input: String },
    /// The attempt has begun, and leaves its evidence here.
    Begun { evidence_directory: Option<String> },
    /// What the preflight found.
    Checked { found: Result<PreflightReport, ExecutorError>, millis: u64 },
    PruneFailed { error: String, millis: u64 },
    Pruned { removed: EvidencePruneReport },
    /// What came of the run.
    Ran { result: Result<RunReport, ExecutorError>, millis: u64 },
    BundleFailed { error: String },
    BundleWritten,
}

/// What a [`DrillNews`] stands for.
pub enum DrillNewsView {
    Unreadable { path: Seq<char>, error: Seq<char> },
    Text { path: Seq<char>, input: Seq<char> },
    Begun { evidence_directory: Option<Seq<char>> },
    Checked { refusal: Option<Seq<char>>, millis: u64 },
    PruneFailed { error: Seq<char>, millis: u64 },
    Pruned { removed: EvidencePruneReport },
    Ran { result: Result<ReportView, Seq<char>>, millis: u64 },
    BundleFailed { error: Seq<char> },
    BundleWritten,
}

/// Why a run is not begun after a preflight.
pub open spec fn refusal_of(found: Result<PreflightReport, ExecutorError>) -> Option<Seq<char>> {
    match found {
        Ok(report) => if runnable(views(report.diagnostics@)) {
            None
        } else {
            Some(
                "automation preflight failed: "@ + joined(
                    messages_of(views(report.diagnostics@)),
                    "; "@,
                ),
            )
        },
        Err(e) => Some(executor_error_text(e)),
    }
}

fn refusal(found: &Result<PreflightReport, ExecutorError>) -> (r: Option<String>)
    ensures
        opt_text(r) == refusal_of(*found),
{
    match found {
        Ok(report) => if report.can_run() {
            None
        } else {
            let messages = preflight_messages(report);
            Some(concat("automation preflight failed: ", messages.as_str()))
        },
        Err(e) => Some(e.message()),
    }
}

impl View for DrillNews {
    type V = DrillNewsView;

    open spec fn view(&self) -> DrillNewsView {
        match *self {
            DrillNews::Unreadable { path, error } => DrillNewsView::Unreadable {
                path: path@,
                error: error@,
            },
            DrillNews::Text { path, input } => DrillNewsView::Text {
                path: path@,
                input: input@,
            },
            DrillNews::Begun { evidence_directory } => DrillNewsView::Begun {
                evidence_directory: opt_text(evidence_directory),
            },
            DrillNews::Checked { found, millis } => DrillNewsView::Checked {
                refusal: refusal_of(found),
                millis,
            },
            DrillNews::PruneFailed { error, millis } => DrillNewsView::PruneFailed {
                error: error@,
                millis,
            },
            DrillNews::Pruned { removed } => DrillNewsView::Pruned { removed },
            DrillNews::Ran { result, millis } => DrillNewsView::Ran {
                result: match result {
                    Ok(report) => Ok(report_view(report)),
                    Err(e) => Err(executor_error_text(e)),
                },
                millis,
            },
            DrillNews::BundleFailed { error } => DrillNewsView::BundleFailed { error: error@ },
            DrillNews::BundleWritten => DrillNewsView::BundleWritten,
        }
    }
}

/// What is known of the runs of a manifest but for the stage of the one in hand.
#[derive(Debug)]
struct Progress {
    manifest: DrillManifest,
    platform: Platform,
    drill: usize,
    attempt: u32,
    results: Vec<Json>,
    matched: bool,
}

/// The runs of a manifest, as far as they have come.
#[derive(Debug)]
pub struct DrillRun {
    progress: Progress,
    stage: Stage,
}

/// What a [`DrillRun`] stands for.
pub struct DrillRunView {
    pub manifest: DrillManifestView,
    pub platform: Platform,
    /// Which drill is in hand.
    pub drill: nat,
    /// Which attempt is in hand, counted from one.
    pub attempt: u32,
    pub stage: StageView,
    pub results: Seq<Tree>,
    /// Whether everything went as expected so far.
    pub matched: bool,
}

/// The progress with a stage.
closed spec fn at(p: Progress, stage: StageView) -> DrillRunView {
    DrillRunView {
        manifest: p.manifest@,
        platform: p.platform,
        drill: p.drill as nat,
        attempt: p.attempt,
        stage,
        results: trees(p.results@),
        matched: p.matched,
    }
}

impl View for DrillRun {
    type V = DrillRunView;

    closed spec fn view(&self) -> DrillRunView {
        at(self.progress, self.stage@)
    }
}

/// Nothing is left to do exactly where no drill is left.
pub open spec fn drill_run_wf(s: DrillRunView) -> bool {
    &&& s.drill <= s.manifest.drills.len()
    &&& s.stage is Done <==> s.drill == s.manifest.drills.len()
    &&& s.stage !is Done ==> 1 <= s.attempt <= repeats(s.manifest.drills[s.drill as int])
    &&& s.stage is Reading ==> s.attempt == 1
}

/// Where the drills begin.
pub open spec fn first_drill(manifest: DrillManifestView, platform: Platform) -> DrillRunView {
    DrillRunView {
        manifest,
        platform,
        drill: 0,
        attempt: 1,
        stage: if manifest.drills.len() == 0 {
            StageView::Done
        } else {
            StageView::Reading
        },
        results: Seq::empty(),
        matched: true,
    }
}

/// The drill in hand is over: on to the next one.
pub open spec fn next_drill(s: DrillRunView, result: Tree, matched: bool) -> DrillRunView {
    DrillRunView {
        drill: s.drill + 1,
        attempt: 1,
        stage: if s.drill + 1 == s.manifest.drills.len() {
            StageView::Done
        } else {
            StageView::Reading
        },
        results: s.results.push(result),
        matched: s.matched && matched,
        ..s
    }
}

/// The attempt in hand is over: on to the next one, or to the next drill after the last.
pub open spec fn next_attempt(
    s: DrillRunView,
    path: Seq<char>,
    definition: AutomationDefinitionView,
    result: Tree,
    matched: bool,
) -> DrillRunView {
    if s.attempt < repeats(s.manifest.drills[s.drill as int]) {
        DrillRunView {
            attempt: (s.attempt + 1) as u32,
            stage: StageView::Starting { path, definition },
            results: s.results.push(result),
            matched: s.matched && matched,
            ..s
        }
    } else {
        next_drill(s, result, matched)
    }
}

/// What follows on an answer of the host. An answer to something else than what was asked changes
/// nothing.
pub open spec fn drill_next(s: DrillRunView, news: DrillNewsView) -> DrillRunView {
    let d = s.manifest.drills[s.drill as int];
    match (s.stage, news) {
        (StageView::Reading, DrillNewsView::Unreadable { path, error }) => next_drill(
            s,
            unloaded_result(d, path, "loadFailed"@, error),
            false,
        ),
        (StageView::Reading, DrillNewsView::Text { path, input }) => match definition_in_text(
            input,
        ) {
            Ok(definition) => DrillRunView { stage: StageView::Starting { path, definition }, ..s },
            Err(e) => next_drill(
                s,
                unloaded_result(d, path, "invalid"@, parse_failure_text(e)),
                false,
            ),
        },
        (
            StageView::Starting { path, definition },
            DrillNewsView::Begun { evidence_directory },
        ) => DrillRunView {
            stage: StageView::Checking {
                path,
                definition,
                config: attempt_configured(d, s.platform, evidence_directory),
            },
            ..s
        },
        (
            StageView::Checking { path, definition, config },
            DrillNewsView::Checked { refusal, millis },
        ) => match refusal {
            Some(error) => refused_attempt(s, path, definition, error, millis),
            None => DrillRunView {
                stage: if d.prune_evidence_before_run && config.evidence_directory is Some {
                    StageView::Pruning { path, definition, config }
                } else {
                    StageView::Running { path, definition, config, prune: None }
                },
                ..s
            },
        },
        (
            StageView::Pruning { path, definition, config },
            DrillNewsView::PruneFailed { error, millis },
        ) => next_attempt(
            s,
            path,
            definition,
            failed_result(
                d,
                path,
                s.attempt,
                millis,
                "invalid"@,
                false,
                "failed to prune evidence directory: "@ + error,
            ),
            false,
        ),
        (
            StageView::Pruning { path, definition, config },
            DrillNewsView::Pruned { removed },
        ) => DrillRunView {
            stage: StageView::Running { path, definition, config, prune: Some(removed) },
            ..s
        },
        (
            StageView::Running { path, definition, config, prune },
            DrillNewsView::Ran { result, millis },
        ) => match result {
            Err(error) => refused_attempt(s, path, definition, error, millis),
            Ok(report) => if config.evidence_directory is Some {
                DrillRunView {
                    stage: StageView::Bundling { path, definition, report, millis, prune },
                    ..s
                }
            } else {
                judged_attempt(s, path, definition, report, millis, prune)
            },
        },
        (
            StageView::Bundling { path, definition, report, millis, prune },
            DrillNewsView::BundleFailed { error },
        ) => next_attempt(
            s,
            path,
            definition,
            failed_result(
                d,
                path,
                s.attempt,
                millis,
                outcome_name(report.outcome),
                false,
                "failed to write evidence bundle: "@ + error,
            ),
            false,
        ),
        (
            StageView::Bundling { path, definition, report, millis, prune },
            DrillNewsView::BundleWritten,
        ) => judged_attempt(s, path, definition, report, millis, prune),
        _ => s,
    }
}

/// The run did not begin.
pub open spec fn refused_attempt(
    s: DrillRunView,
    path: Seq<char>,
    definition: AutomationDefinitionView,
    error: Seq<char>,
    millis: u64,
) -> DrillRunView {
    let d = s.manifest.drills[s.drill as int];
    let matched = refusal_expected(d, error, millis as nat);
    next_attempt(
        s,
        path,
        definition,
        failed_result(d, path, s.attempt, millis, "executorError"@, matched, error),
        matched,
    )
}

/// The run is held against what was expected of it.
pub open spec fn judged_attempt(
    s: DrillRunView,
    path: Seq<char>,
    definition: AutomationDefinitionView,
    report: ReportView,
    millis: u64,
    prune: Option<EvidencePruneReport>,
) -> DrillRunView {
    let d = s.manifest.drills[s.drill as int];
    next_attempt(
        s,
        path,
        definition,
        judged_result(d, path, s.attempt, millis, report, prune),
        report_expected(d, report.outcome, report.events, millis as nat),
    )
}

/// What the host is asked to do.
#[derive(Debug)]
pub enum DrillTask {
    /// Read the definition at this path, which starts at the folder of the manifest.
    Read { path: String },
    /// Begin an attempt that leaves its evidence in these folders, each inside the one before it,
    /// the first of them inside the folder of the manifest.
    Begin { folders: Option<Vec<String>> },
    /// Preflight the definition.
    Check,
    /// Remove earlier evidence.
    Prune,
    /// Run the definition.
    Run,
    /// Write the evidence of the run.
    Bundle,
    /// Tell how it went.
    Report,
}

/// What the host is asked to do.
pub open spec fn asks(s: DrillRunView, task: DrillTask) -> bool {
    let d = s.manifest.drills[s.drill as int];
    match s.stage {
        StageView::Reading => task matches DrillTask::Read { path } && path@ == d.path,
        StageView::Starting { path, definition } => task matches DrillTask::Begin { folders } && (
        match folders {
            Some(names) => evidence_folders(s.manifest.evidence_dir, d, s.attempt) == Some(
                texts(names@),
            ),
            None => evidence_folders(s.manifest.evidence_dir, d, s.attempt) is None,
        }),
        StageView::Checking { path, definition, config } => task is Check,
        StageView::Pruning { path, definition, config } => task is Prune,
        StageView::Running { path, definition, config, prune } => task is Run,
        StageView::Bundling { path, definition, report, millis, prune } => task is Bundle,
        StageView::Done => task is Report,
    }
}

impl Progress {
    /// Whether a drill is in hand.
    spec fn open(self) -> bool {
        self.drill < self.manifest.drills@.len()
    }

    /// Whether an attempt is in hand.
    spec fn trying(self) -> bool {
        &&& self.open()
        &&& 1 <= self.attempt <= repeats(self.manifest.drills@[self.drill as int]@)
    }

    fn to_next_drill(self, result: Json, matched: bool) -> (r: DrillRun)
        requires
            self.open(),
        ensures
            r@ == next_drill(at(self, StageView::Reading), result@, matched),
    {
        let ghost before = trees(self.results@);
        let ghost added = result@;
        let mut results = self.results;
        results.push(result);
        assert(trees(results@) =~= before.push(added));
        let total: usize = self.manifest.drills.len();
        let drill: usize = self.drill + 1;
        let stage = if drill == total {
            Stage::Done
        } else {
            Stage::Reading
        };
        let progress = Progress {
            manifest: self.manifest,
            platform: self.platform,
            drill,
            attempt: 1,
            results,
            matched: self.matched && matched,
        };
        DrillRun { progress, stage }
    }

    fn to_next_attempt(
        self,
        path: String,
        definition: AutomationDefinition,
        result: Json,
        matched: bool,
    ) -> (r: DrillRun)
        requires
            self.trying(),
        ensures
            r@ == next_attempt(
                at(self, StageView::Reading),
                path@,
                definition@,
                result@,
                matched,
            ),
    {
        if self.attempt < drill_repeats(&self.manifest.drills[self.drill]) {
            let ghost before = trees(self.results@);
            let ghost added = result@;
            let mut results = self.results;
            results.push(result);
            assert(trees(results@) =~= before.push(added));
            let progress = Progress {
                manifest: self.manifest,
                platform: self.platform,
                drill: self.drill,
                attempt: self.attempt + 1,
                results,
                matched: self.matched && matched,
            };
            DrillRun { progress, stage: Stage::Starting { path, definition } }
        } else {
            self.to_next_drill(result, matched)
        }
    }

    fn refused(
        self,
        path: String,
        definition: AutomationDefinition,
        error: String,
        millis: u64,
    ) -> (r: DrillRun)
        requires
            self.trying(),
        ensures
            r@ == refused_attempt(
                at(self, StageView::Reading),
                path@,
                definition@,
                error@,
                millis,
            ),
    {
        let drill = &self.manifest.drills[self.drill];
        let matched = refusal_matches(drill, error.as_str(), millis as u128);
        let result = encode_failed(
            drill,
            path.as_str(),
            self.attempt,
            millis,
            "executorError",
            matched,
            error.as_str(),
        );
        self.to_next_attempt(path, definition, result, matched)
    }

    /// The attempt could not be completed.
    fn spoiled(
        self,
        path: String,
        definition: AutomationDefinition,
        millis: u64,
        outcome: &str,
        error: String,
    ) -> (r: DrillRun)
        requires
            self.trying(),
        ensures
            r@ == next_attempt(
                at(self, StageView::Reading),
                path@,
                definition@,
                failed_result(
                    self.manifest.drills@[self.drill as int]@,
                    path@,
                    self.attempt,
                    millis,
                    outcome@,
                    false,
                    error@,
                ),
                false,
            ),
    {
        let result = encode_failed(
            &self.manifest.drills[self.drill],
            path.as_str(),
            self.attempt,
            millis,
            outcome,
            false,
            error.as_str(),
        );
        self.to_next_attempt(path, definition, result, false)
    }

    fn judged(
        self,
        path: String,
        definition: AutomationDefinition,
        report: RunReport,
        millis: u64,
        prune: Option<EvidencePruneReport>,
    ) -> (r: DrillRun)
        requires
            self.trying(),
        ensures
            r@ == judged_attempt(
                at(self, StageView::Reading),
                path@,
                definition@,
                report_view(report),
                millis,
                prune,
            ),
    {
        let drill = &self.manifest.drills[self.drill];
        let matched = report_matches(drill, &report, millis as u128);
        let result = encode_judged(drill, path.as_str(), self.attempt, millis, &report, prune);
        self.to_next_attempt(path, definition, result, matched)
    }

    fn unreadable(self, path: String, outcome: &str, error: String) -> (r: DrillRun)
        requires
            self.trying(),
        ensures
            r@ == next_drill(
                at(self, StageView::Reading),
                unloaded_result(
                    self.manifest.drills@[self.drill as int]@,
                    path@,
                    outcome@,
                    error@,
                ),
                false,
            ),
    {
        let result = encode_unloaded(
            &self.manifest.drills[self.drill],
            path.as_str(),
            outcome,
            error.as_str(),
        );
        self.to_next_drill(result, false)
    }

    fn read(self, path: String, input: String) -> (r: DrillRun)
        requires
            self.trying(),
        ensures
            r@ == drill_next(
                at(self, StageView::Reading),
                DrillNewsView::Text { path: path@, input: input@ },
            ),
    {
        match parse_definition_json(input.as_str()) {
            Ok(definition) => {
                DrillRun { progress: self, stage: Stage::Starting { path, definition } }
            },
            Err(e) => {
                let error = e.message();
                self.unreadable(path, "invalid", error)
            },
        }
    }

    fn checked(
        self,
        path: String,
        definition: AutomationDefinition,
        config: RunConfig,
        found: Result<PreflightReport, ExecutorError>,
        millis: u64,
    ) -> (r: DrillRun)
        requires
            self.trying(),
        ensures
            r@ == drill_next(
                at(
                    self,
                    StageView::Checking { path: path@, definition: definition@, config: config@ },
                ),
                DrillNewsView::Checked { refusal: refusal_of(found), millis },
            ),
    {
        match refusal(&found) {
            Some(error) => self.refused(path, definition, error, millis),
            None => {
                let prunes = self.manifest.drills[self.drill].prune_evidence_before_run;
                let stage = if prunes && config.evidence_directory.is_some() {
                    Stage::Pruning { path, definition, config }
                } else {
                    Stage::Running { path, definition, config, prune: None }
                };
                DrillRun { progress: self, stage }
            },
        }
    }

    fn ran(
        self,
        path: String,
        definition: AutomationDefinition,
        config: RunConfig,
        prune: Option<EvidencePruneReport>,
        result: Result<RunReport, ExecutorError>,
        millis: u64,
    ) -> (r: DrillRun)
        requires
            self.trying(),
        ensures
            r@ == drill_next(
                at(
                    self,
                    StageView::Running {
                        path: path@,
                        definition: definition@,
                        config: config@,
                        prune,
                    },
                ),
                DrillNews::Ran { result, millis }@,
            ),
    {
        match result {
            Err(e) => {
                let error = e.message();
                self.refused(path, definition, error, millis)
            },
            Ok(report) => if config.evidence_directory.is_some() {
                DrillRun {
                    progress: self,
                    stage: Stage::Bundling { path, definition, report, millis, prune },
                }
            } else {
                self.judged(path, definition, report, millis, prune)
            },
        }
    }
}

impl DrillRun {
    #[verifier::type_invariant]
    spec fn wf(self) -> bool {
        drill_run_wf(self@)
    }

    pub fn new(manifest: DrillManifest, platform: Platform) -> (r: Self)
        ensures
            r@ == first_drill(manifest@, platform),
            drill_run_wf(r@),
    {
        let stage = if manifest.drills.len() == 0 {
            Stage::Done
        } else {
            Stage::Reading
        };
        let results: Vec<Json> = Vec::new();
        assert(trees(results@) =~= Seq::empty());
        let progress = Progress {
            manifest,
            platform,
            drill: 0,
            attempt: 1,
            results,
            matched: true,
        };
        DrillRun { progress, stage }
    }

    /// How far the drill in hand has come.
    pub fn stage(&self) -> (r: &Stage)
        ensures
            r@ == self@.stage,
    {
        &self.stage
    }

    /// What the host is to do.
    pub fn task(&self) -> (r: DrillTask)
        ensures
            asks(self@, r),
            drill_run_wf(self@),
    {
        proof {
            use_type_invariant(self);
        }
        let p = &self.progress;
        match &self.stage {
            Stage::Reading => DrillTask::Read { path: p.manifest.drills[p.drill].path.clone() },
            Stage::Starting { path, definition } => DrillTask::Begin {
                folders: attempt_folders(
                    &p.manifest.evidence_dir,
                    &p.manifest.drills[p.drill],
                    p.attempt,
                ),
            },
            Stage::Checking { path, definition, config } => DrillTask::Check,
            Stage::Pruning { path, definition, config } => DrillTask::Prune,
            Stage::Running { path, definition, config, prune } => DrillTask::Run,
            Stage::Bundling { path, definition, report, millis, prune } => DrillTask::Bundle,
            Stage::Done => DrillTask::Report,
        }
    }

    /// How many bytes an artifact of the drill in hand may have, where something was said.
    pub fn max_artifact_bytes(&self) -> (r: Option<u64>)
        ensures
            r == (if self@.stage is Done {
                None
            } else {
                self@.manifest.drills[self@.drill as int].evidence_max_artifact_bytes
            }),
    {
        proof {
            use_type_invariant(self);
        }
        let p = &self.progress;
        if p.drill < p.manifest.drills.len() {
            p.manifest.drills[p.drill].evidence_max_artifact_bytes
        } else {
            None
        }
    }

    /// Goes on with an answer of the host.
    pub fn next(self, news: DrillNews) -> (r: Self)
        ensures
            r@ == drill_next(self@, news@),
    {
        proof {
            use_type_invariant(&self);
        }
        let DrillRun { progress, stage } = self;
        match (stage, news) {
            (Stage::Reading, DrillNews::Unreadable { path, error }) => progress.unreadable(
                path,
                "loadFailed",
                error,
            ),
            (Stage::Reading, DrillNews::Text { path, input }) => progress.read(path, input),
            (Stage::Starting { path, definition }, DrillNews::Begun { evidence_directory }) => {
                let config = attempt_config(
                    &progress.manifest.drills[progress.drill],
                    progress.platform,
                    evidence_directory,
                );
                DrillRun { progress, stage: Stage::Checking { path, definition, config } }
            },
            (
                Stage::Checking { path, definition, config },
                DrillNews::Checked { found, millis },
            ) => progress.checked(path, definition, config, found, millis),
            (
                Stage::Pruning { path, definition, config },
                DrillNews::PruneFailed { error, millis },
            ) => {
                let words = concat("failed to prune evidence directory: ", error.as_str());
                progress.spoiled(path, definition, millis, "invalid", words)
            },
            (Stage::Pruning { path, definition, config }, DrillNews::Pruned { removed }) => {
                let prune = Some(removed);
                DrillRun { progress, stage: Stage::Running { path, definition, config, prune } }
            },
            (
                Stage::Running { path, definition, config, prune },
                DrillNews::Ran { result, millis },
            ) => progress.ran(path, definition, config, prune, result, millis),
            (
                Stage::Bundling { path, definition, report, millis, prune },
                DrillNews::BundleFailed { error },
            ) => {
                let words = concat("failed to write evidence bundle: ", error.as_str());
                progress.spoiled(path, definition, millis, outcome_str(report.outcome), words)
            },
            (
                Stage::Bundling { path, definition, report, millis, prune },
                DrillNews::BundleWritten,
            ) => progress.judged(path, definition, report, millis, prune),
            (stage, _) => DrillRun { progress, stage },
        }
    }

    /// How it went, as a record, and whether everything went as expected.
    pub fn report(self) -> (r: (Json, bool))
        ensures
            r.0@ == manifest_result(self@),
            r.1 == self@.matched,
    {
        broadcast use {array_tree, object_tree};

        let DrillRun { progress, stage } = self;
        let mut entries = no_fields();
        add_field(&mut entries, "id", Some(encode_text(progress.manifest.id.as_str())));
        add_field(&mut entries, "matched", Some(Json::Bool(progress.matched)));
        add_field(&mut entries, "results", Some(Json::Array(progress.results)));
        (Json::Object(entries), progress.matched)
    }
}

/// How it went, as a record.
pub open spec fn manifest_result(s: DrillRunView) -> Tree {
    Tree::Object(
        with(
            with(
                with(Seq::empty(), "id"@, Some(Tree::Text(s.manifest.id))),
                "matched"@,
                Some(Tree::Bool(s.matched)),
            ),
            "results"@,
            Some(Tree::Array(s.results)),
        ),
    )
}

/// What a result says of whether it was as expected.
pub open spec fn says_matched(result: Tree) -> bool {
    result matches Tree::Object(entries) && lookup(entries, "matched"@) == Some(Tree::Bool(true))
}

/// The names of the fields of results differ from that of the verdict.
proof fn verdict_name()
    ensures
        "actualFailureKind"@ != "matched"@,
        "actualOutcome"@ != "matched"@,
        "attempt"@ != "matched"@,
        "durationMatched"@ != "matched"@,
        "durationMillis"@ != "matched"@,
        "error"@ != "matched"@,
        "eventCount"@ != "matched"@,
        "evidencePrune"@ != "matched"@,
        "expectedFailureKind"@ != "matched"@,
        "expectedLogMatched"@ != "matched"@,
        "expectedMaxDurationMillis"@ != "matched"@,
        "expectedOutcome"@ != "matched"@,
        "failureSummary"@ != "matched"@,
        "id"@ != "matched"@,
        "path"@ != "matched"@,
        "repeat"@ != "matched"@,
        "runId"@ != "matched"@,
{
    reveal_strlit("actualFailureKind");
    reveal_strlit("actualOutcome");
    reveal_strlit("attempt");
    reveal_strlit("durationMatched");
    reveal_strlit("durationMillis");
    reveal_strlit("error");
    reveal_strlit("eventCount");
    reveal_strlit("evidencePrune");
    reveal_strlit("expectedFailureKind");
    reveal_strlit("expectedLogMatched");
    reveal_strlit("expectedMaxDurationMillis");
    reveal_strlit("expectedOutcome");
    reveal_strlit("failureSummary");
    reveal_strlit("id");
    reveal_strlit("matched");
    reveal_strlit("path");
    reveal_strlit("repeat");
    reveal_strlit("runId");
    assert("actualFailureKind"@.len() == 17);
    assert("actualOutcome"@.len() == 13);
    assert("durationMatched"@.len() == 15);
    assert("durationMillis"@.len() == 14);
    assert("error"@.len() == 5);
    assert("eventCount"@.len() == 10);
    assert("evidencePrune"@.len() == 13);
    assert("expectedFailureKind"@.len() == 19);
    assert("expectedLogMatched"@.len() == 18);
    assert("expectedMaxDurationMillis"@.len() == 25);
    assert("expectedOutcome"@.len() == 15);
    assert("failureSummary"@.len() == 14);
    assert("id"@.len() == 2);
    assert("matched"@.len() == 7);
    assert("path"@.len() == 4);
    assert("repeat"@.len() == 6);
    assert("runId"@.len() == 5);
    assert("attempt"@[0] != "matched"@[0]);
}

/// The verdict is found in the fields of a result.
proof fn unloaded_fields(
    v0: Option<Tree>,
    v1: Option<Tree>,
    v2: Option<Tree>,
    v3: Option<Tree>,
    v4: Option<Tree>,
    v5: Option<Tree>,
)
    ensures
        lookup(
            ({
                let entries: Seq<(Seq<char>, Tree)> = Seq::empty();
                let entries = with(entries, "actualOutcome"@, v0);
                let entries = with(entries, "error"@, v1);
                let entries = with(entries, "expectedOutcome"@, v2);
                let entries = with(entries, "id"@, v3);
                let entries = with(entries, "matched"@, v4);
                let entries = with(entries, "path"@, v5);
                entries
            }),
            "matched"@,
        ) == v4,
{
    verdict_name();
    lookup_empty("matched"@);
    let e0 = Seq::<(Seq<char>, Tree)>::empty();
    let e1 = with(e0, "actualOutcome"@, v0);
    lookup_with(e0, "actualOutcome"@, v0, "matched"@);
    let e2 = with(e1, "error"@, v1);
    lookup_with(e1, "error"@, v1, "matched"@);
    let e3 = with(e2, "expectedOutcome"@, v2);
    lookup_with(e2, "expectedOutcome"@, v2, "matched"@);
    let e4 = with(e3, "id"@, v3);
    lookup_with(e3, "id"@, v3, "matched"@);
    let e5 = with(e4, "matched"@, v4);
    lookup_with(e4, "matched"@, v4, "matched"@);
    let e6 = with(e5, "path"@, v5);
    lookup_with(e5, "path"@, v5, "matched"@);
}

/// The verdict is found in the fields of a result.
proof fn failed_fields(
    v0: Option<Tree>,
    v1: Option<Tree>,
    v2: Option<Tree>,
    v3: Option<Tree>,
    v4: Option<Tree>,
    v5: Option<Tree>,
    v6: Option<Tree>,
    v7: Option<Tree>,
    v8: Option<Tree>,
    v9: Option<Tree>,
    v10: Option<Tree>,
)
    ensures
        lookup(
            ({
                let entries: Seq<(Seq<char>, Tree)> = Seq::empty();
                let entries = with(entries, "actualOutcome"@, v0);
                let entries = with(entries, "attempt"@, v1);
                let entries = with(entries, "durationMatched"@, v2);
                let entries = with(entries, "durationMillis"@, v3);
                let entries = with(entries, "error"@, v4);
                let entries = with(entries, "expectedMaxDurationMillis"@, v5);
                let entries = with(entries, "expectedOutcome"@, v6);
                let entries = with(entries, "id"@, v7);
                let entries = with(entries, "matched"@, v8);
                let entries = with(entries, "path"@, v9);
                let entries = with(entries, "repeat"@, v10);
                entries
            }),
            "matched"@,
        ) == v8,
{
    verdict_name();
    lookup_empty("matched"@);
    let e0 = Seq::<(Seq<char>, Tree)>::empty();
    let e1 = with(e0, "actualOutcome"@, v0);
    lookup_with(e0, "actualOutcome"@, v0, "matched"@);
    let e2 = with(e1, "attempt"@, v1);
    lookup_with(e1, "attempt"@, v1, "matched"@);
    let e3 = with(e2, "durationMatched"@, v2);
    lookup_with(e2, "durationMatched"@, v2, "matched"@);
    let e4 = with(e3, "durationMillis"@, v3);
    lookup_with(e3, "durationMillis"@, v3, "matched"@);
    let e5 = with(e4, "error"@, v4);
    lookup_with(e4, "error"@, v4, "matched"@);
    let e6 = with(e5, "expectedMaxDurationMillis"@, v5);
    lookup_with(e5, "expectedMaxDurationMillis"@, v5, "matched"@);
    let e7 = with(e6, "expectedOutcome"@, v6);
    lookup_with(e6, "expectedOutcome"@, v6, "matched"@);
    let e8 = with(e7, "id"@, v7);
    lookup_with(e7, "id"@, v7, "matched"@);
    let e9 = with(e8, "matched"@, v8);
    lookup_with(e8, "matched"@, v8, "matched"@);
    let e10 = with(e9, "path"@, v9);
    lookup_with(e9, "path"@, v9, "matched"@);
    let e11 = with(e10, "repeat"@, v10);
    lookup_with(e10, "repeat"@, v10, "matched"@);
}

/// The verdict is found in the fields of a result.
proof fn judged_fields(
    v0: Option<Tree>,
    v1: Option<Tree>,
    v2: Option<Tree>,
    v3: Option<Tree>,
    v4: Option<Tree>,
    v5: Option<Tree>,
    v6: Option<Tree>,
    v7: Option<Tree>,
    v8: Option<Tree>,
    v9: Option<Tree>,
    v10: Option<Tree>,
    v11: Option<Tree>,
    v12: Option<Tree>,
    v13: Option<Tree>,
    v14: Option<Tree>,
    v15: Option<Tree>,
    v16: Option<Tree>,
)
    ensures
        lookup(
            ({
                let entries: Seq<(Seq<char>, Tree)> = Seq::empty();
                let entries = with(entries, "actualFailureKind"@, v0);
                let entries = with(entries, "actualOutcome"@, v1);
                let entries = with(entries, "attempt"@, v2);
                let entries = with(entries, "durationMatched"@, v3);
                let entries = with(entries, "durationMillis"@, v4);
                let entries = with(entries, "eventCount"@, v5);
                let entries = with(entries, "evidencePrune"@, v6);
                let entries = with(entries, "expectedFailureKind"@, v7);
                let entries = with(entries, "expectedLogMatched"@, v8);
                let entries = with(entries, "expectedMaxDurationMillis"@, v9);
                let entries = with(entries, "expectedOutcome"@, v10);
                let entries = with(entries, "failureSummary"@, v11);
                let entries = with(entries, "id"@, v12);
                let entries = with(entries, "matched"@, v13);
                let entries = with(entries, "path"@, v14);
                let entries = with(entries, "repeat"@, v15);
                let entries = with(entries, "runId"@, v16);
                entries
            }),
            "matched"@,
        ) == v13,
{
    verdict_name();
    lookup_empty("matched"@);
    let e0 = Seq::<(Seq<char>, Tree)>::empty();
    let e1 = with(e0, "actualFailureKind"@, v0);
    lookup_with(e0, "actualFailureKind"@, v0, "matched"@);
    let e2 = with(e1, "actualOutcome"@, v1);
    lookup_with(e1, "actualOutcome"@, v1, "matched"@);
    let e3 = with(e2, "attempt"@, v2);
    lookup_with(e2, "attempt"@, v2, "matched"@);
    let e4 = with(e3, "durationMatched"@, v3);
    lookup_with(e3, "durationMatched"@, v3, "matched"@);
    let e5 = with(e4, "durationMillis"@, v4);
    lookup_with(e4, "durationMillis"@, v4, "matched"@);
    let e6 = with(e5, "eventCount"@, v5);
    lookup_with(e5, "eventCount"@, v5, "matched"@);
    let e7 = with(e6, "evidencePrune"@, v6);
    lookup_with(e6, "evidencePrune"@, v6, "matched"@);
    let e8 = with(e7, "expectedFailureKind"@, v7);
    lookup_with(e7, "expectedFailureKind"@, v7, "matched"@);
    let e9 = with(e8, "expectedLogMatched"@, v8);
    lookup_with(e8, "expectedLogMatched"@, v8, "matched"@);
    let e10 = with(e9, "expectedMaxDurationMillis"@, v9);
    lookup_with(e9, "expectedMaxDurationMillis"@, v9, "matched"@);
    let e11 = with(e10, "expectedOutcome"@, v10);
    lookup_with(e10, "expectedOutcome"@, v10, "matched"@);
    let e12 = with(e11, "failureSummary"@, v11);
    lookup_with(e11, "failureSummary"@, v11, "matched"@);
    let e13 = with(e12, "id"@, v12);
    lookup_with(e12, "id"@, v12, "matched"@);
    let e14 = with(e13, "matched"@, v13);
    lookup_with(e13, "matched"@, v13, "matched"@);
    let e15 = with(e14, "path"@, v14);
    lookup_with(e14, "path"@, v14, "matched"@);
    let e16 = with(e15, "repeat"@, v15);
    lookup_with(e15, "repeat"@, v15, "matched"@);
    let e17 = with(e16, "runId"@, v16);
    lookup_with(e16, "runId"@, v16, "matched"@);
}

/// A result says whether it was as expected.
proof fn unloaded_says(d: DrillEntryView, path: Seq<char>, outcome: Seq<char>, error: Seq<char>)
    ensures
        !says_matched(unloaded_result(d, path, outcome, error)),
{
    reveal(unloaded_result);
    unloaded_fields(
        Some(Tree::Text(outcome)),
        Some(Tree::Text(error)),
        Some(Tree::Text(expected_name(d.expected_outcome))),
        Some(Tree::Text(d.id)),
        Some(Tree::Bool(false)),
        Some(Tree::Text(path)),
    );
}

proof fn failed_says(
    d: DrillEntryView,
    path: Seq<char>,
    attempt: u32,
    millis: u64,
    outcome: Seq<char>,
    matched: bool,
    error: Seq<char>,
)
    ensures
        says_matched(failed_result(d, path, attempt, millis, outcome, matched, error)) == matched,
{
    reveal(failed_result);
    failed_fields(
        Some(Tree::Text(outcome)),
        Some(unsigned(attempt as u64)),
        Some(Tree::Bool(duration_expected(d, millis as nat))),
        Some(unsigned(millis)),
        Some(Tree::Text(error)),
        Some(null_or_u64(d.expected_max_duration_millis)),
        Some(Tree::Text(expected_name(d.expected_outcome))),
        Some(Tree::Text(d.id)),
        Some(Tree::Bool(matched)),
        Some(Tree::Text(path)),
        Some(unsigned(repeats(d) as u64)),
    );
}

proof fn judged_says(
    d: DrillEntryView,
    path: Seq<char>,
    attempt: u32,
    millis: u64,
    report: ReportView,
    prune: Option<EvidencePruneReport>,
)
    ensures
        says_matched(judged_result(d, path, attempt, millis, report, prune)) == report_expected(
            d,
            report.outcome,
            report.events,
            millis as nat,
        ),
{
    reveal(judged_result);
    judged_fields(
        Some(null_or_failure_kind(last_failure_kind(report.events))),
        Some(Tree::Text(outcome_name(report.outcome))),
        Some(unsigned(attempt as u64)),
        Some(Tree::Bool(duration_expected(d, millis as nat))),
        Some(unsigned(millis)),
        Some(unsigned(report.events.len() as u64)),
        Some(prune_tree(prune)),
        Some(null_or_failure_kind(d.expected_failure_kind)),
        Some(Tree::Bool(log_expected(d, report.events))),
        Some(null_or_u64(d.expected_max_duration_millis)),
        Some(Tree::Text(expected_name(d.expected_outcome))),
        Some(failure_summary(report.outcome, report.events)),
        Some(Tree::Text(d.id)),
        Some(Tree::Bool(report_expected(d, report.outcome, report.events, millis as nat))),
        Some(Tree::Text(path)),
        Some(unsigned(repeats(d) as u64)),
        Some(Tree::Text(report.run_id)),
    );
}

/// The verdict on a manifest is the verdict on all its results.
pub open spec fn verdict_holds(s: DrillRunView) -> bool {
    s.matched <==> forall|i: int| 0 <= i < s.results.len() ==> says_matched(#[trigger] s.results[i])
}

proof fn verdict_after(results: Seq<Tree>, matched: bool, result: Tree)
    requires
        matched <==> forall|i: int| 0 <= i < results.len() ==> says_matched(#[trigger] results[i]),
    ensures
        (matched && says_matched(result)) <==> forall|i: int|
            0 <= i < results.push(result).len() ==> says_matched(
                #[trigger] results.push(result)[i],
            ),
{
    let more = results.push(result);
    if matched && says_matched(result) {
        assert forall|i: int| 0 <= i < more.len() implies says_matched(#[trigger] more[i]) by {
            if i < results.len() {
                assert(more[i] == results[i]);
            }
        }
    } else if !says_matched(result) {
        assert(more[results.len() as int] == result);
    } else {
        let i = choose|i: int| 0 <= i < results.len() && !says_matched(#[trigger] results[i]);
        assert(more[i] == results[i]);
    }
}

/// A result that says what it was found to be keeps the verdict.
proof fn verdict_after_result(
    s: DrillRunView,
    path: Seq<char>,
    definition: AutomationDefinitionView,
    result: Tree,
    matched: bool,
)
    requires
        verdict_holds(s),
        says_matched(result) == matched,
    ensures
        verdict_holds(next_drill(s, result, matched)),
        verdict_holds(next_attempt(s, path, definition, result, matched)),
{
    verdict_after(s.results, s.matched, result);
    let t = next_drill(s, result, matched);
    assert(t.results == s.results.push(result));
    assert(t.matched == (s.matched && matched));
    let u = next_attempt(s, path, definition, result, matched);
    assert(u.results == s.results.push(result));
    assert(u.matched == (s.matched && matched));
}

proof fn verdict_after_refusal(
    s: DrillRunView,
    path: Seq<char>,
    definition: AutomationDefinitionView,
    error: Seq<char>,
    millis: u64,
)
    requires
        verdict_holds(s),
    ensures
        verdict_holds(refused_attempt(s, path, definition, error, millis)),
{
    let d = s.manifest.drills[s.drill as int];
    let matched = refusal_expected(d, error, millis as nat);
    failed_says(d, path, s.attempt, millis, "executorError"@, matched, error);
    verdict_after_result(
        s,
        path,
        definition,
        failed_result(d, path, s.attempt, millis, "executorError"@, matched, error),
        matched,
    );
}

proof fn verdict_after_judgement(
    s: DrillRunView,
    path: Seq<char>,
    definition: AutomationDefinitionView,
    report: ReportView,
    millis: u64,
    prune: Option<EvidencePruneReport>,
)
    requires
        verdict_holds(s),
    ensures
        verdict_holds(judged_attempt(s, path, definition, report, millis, prune)),
{
    let d = s.manifest.drills[s.drill as int];
    judged_says(d, path, s.attempt, millis, report, prune);
    verdict_after_result(
        s,
        path,
        definition,
        judged_result(d, path, s.attempt, millis, report, prune),
        report_expected(d, report.outcome, report.events, millis as nat),
    );
}

proof fn verdict_after_spoiling(
    s: DrillRunView,
    path: Seq<char>,
    definition: AutomationDefinitionView,
    millis: u64,
    outcome: Seq<char>,
    error: Seq<char>,
)
    requires
        verdict_holds(s),
    ensures
        verdict_holds(
            next_attempt(
                s,
                path,
                definition,
                failed_result(
                    s.manifest.drills[s.drill as int],
                    path,
                    s.attempt,
                    millis,
                    outcome,
                    false,
                    error,
                ),
                false,
            ),
        ),
{
    let d = s.manifest.drills[s.drill as int];
    failed_says(d, path, s.attempt, millis, outcome, false, error);
    verdict_after_result(
        s,
        path,
        definition,
        failed_result(d, path, s.attempt, millis, outcome, false, error),
        false,
    );
}

proof fn verdict_after_reading(
    s: DrillRunView,
    path: Seq<char>,
    outcome: Seq<char>,
    error: Seq<char>,
)
    requires
        verdict_holds(s),
    ensures
        verdict_holds(
            next_drill(
                s,
                unloaded_result(s.manifest.drills[s.drill as int], path, outcome, error),
                false,
            ),
        ),
{
    let d = s.manifest.drills[s.drill as int];
    unloaded_says(d, path, outcome, error);
    let result = unloaded_result(d, path, outcome, error);
    verdict_after(s.results, s.matched, result);
    let t = next_drill(s, result, false);
    assert(t.results == s.results.push(result));
    assert(!t.matched);
}

proof fn verdict_begins(manifest: DrillManifestView, platform: Platform)
    ensures
        verdict_holds(first_drill(manifest, platform)),
{
}

/// A manifest is found to be as expected exactly where each of its results was: this holds at the
/// beginning, and every answer of the host keeps it.
pub proof fn verdict_is_that_of_all_results(s: DrillRunView, news: DrillNewsView)
    ensures
        verdict_holds(first_drill(s.manifest, s.platform)),
        verdict_holds(s) ==> verdict_holds(drill_next(s, news)),
{
    verdict_begins(s.manifest, s.platform);
    if verdict_holds(s) {
        let t = drill_next(s, news);
        match (s.stage, news) {
            (StageView::Reading, DrillNewsView::Unreadable { path, error }) => {
                verdict_after_reading(s, path, "loadFailed"@, error);
            },
            (StageView::Reading, DrillNewsView::Text { path, input }) => {
                match definition_in_text(input) {
                    Ok(definition) => {
                        assert(t.results == s.results && t.matched == s.matched);
                    },
                    Err(e) => {
                        verdict_after_reading(s, path, "invalid"@, parse_failure_text(e));
                    },
                }
            },
            (
                StageView::Checking { path, definition, config },
                DrillNewsView::Checked { refusal, millis },
            ) => {
                match refusal {
                    Some(error) => {
                        verdict_after_refusal(s, path, definition, error, millis);
                    },
                    None => {
                        assert(t.results == s.results && t.matched == s.matched);
                    },
                }
            },
            (
                StageView::Pruning { path, definition, config },
                DrillNewsView::PruneFailed { error, millis },
            ) => {
                verdict_after_spoiling(
                    s,
                    path,
                    definition,
                    millis,
                    "invalid"@,
                    "failed to prune evidence directory: "@ + error,
                );
            },
            (
                StageView::Running { path, definition, config, prune },
                DrillNewsView::Ran { result, millis },
            ) => {
                match result {
                    Err(error) => {
                        verdict_after_refusal(s, path, definition, error, millis);
                    },
                    Ok(report) => {
                        if config.evidence_directory is Some {
                            assert(t.results == s.results && t.matched == s.matched);
                        } else {
                            verdict_after_judgement(s, path, definition, report, millis, prune);
                        }
                    },
                }
            },
            (
                StageView::Bundling { path, definition, report, millis, prune },
                DrillNewsView::BundleFailed { error },
            ) => {
                verdict_after_spoiling(
                    s,
                    path,
                    definition,
                    millis,
                    outcome_name(report.outcome),
                    "failed to write evidence bundle: "@ + error,
                );
            },
            (
                StageView::Bundling { path, definition, report, millis, prune },
                DrillNewsView::BundleWritten,
            ) => {
                verdict_after_judgement(s, path, definition, report, millis, prune);
            },
            _ => {
                assert(t.results == s.results && t.matched == s.matched);
            },
        }
    }
}

/// Whether the host answers what it was asked.
pub open spec fn answers(s: DrillRunView, news: DrillNewsView) -> bool {
    match s.stage {
        StageView::Reading => news is Unreadable || news is Text,
        StageView::Starting { path, definition } => news is Begun,
        StageView::Checking { path, definition, config } => news is Checked,
        StageView::Pruning { path, definition, config } => news is PruneFailed || news is Pruned,
        StageView::Running { path, definition, config, prune } => news is Ran,
        StageView::Bundling { path, definition, report, millis, prune } => news is BundleFailed
            || news is BundleWritten,
        StageView::Done => false,
    }
}

/// How far an attempt has come.
pub open spec fn stage_rank(stage: StageView) -> nat {
    match stage {
        StageView::Reading => 0,
        StageView::Starting { path, definition } => 1,
        StageView::Checking { path, definition, config } => 2,
        StageView::Pruning { path, definition, config } => 3,
        StageView::Running { path, definition, config, prune } => 4,
        StageView::Bundling { path, definition, report, millis, prune } => 5,
        StageView::Done => 6,
    }
}

/// Whether `b` is further than `a`: at a later drill, or at a later attempt at the same drill, or
/// at a later stage of the same attempt.
pub open spec fn further(a: DrillRunView, b: DrillRunView) -> bool {
    ||| a.drill < b.drill
    ||| a.drill == b.drill && a.attempt < b.attempt
    ||| a.drill == b.drill && a.attempt == b.attempt && stage_rank(a.stage) < stage_rank(b.stage)
}

/// Every answer brings the drills further, and whatever ends an attempt adds one result to those
/// that are there already. So the drills end, and each attempt has its result.
pub proof fn answers_make_progress(s: DrillRunView, news: DrillNewsView)
    requires
        drill_run_wf(s),
        answers(s, news),
    ensures
        ({
            let t = drill_next(s, news);
            &&& drill_run_wf(t)
            &&& further(s, t)
            &&& t.manifest == s.manifest
            &&& if t.drill == s.drill && t.attempt == s.attempt {
                t.results == s.results
            } else {
                &&& t.results.len() == s.results.len() + 1
                &&& t.results.drop_last() == s.results
            }
        }),
{
    let t = drill_next(s, news);
    if !(t.drill == s.drill && t.attempt == s.attempt) {
        assert(t.results.drop_last() =~= s.results);
    }
}

/// A definition is run only after a preflight that found nothing in the way, and, where earlier
/// evidence was to be removed, only after it was.
pub proof fn runs_follow_a_clean_preflight(s: DrillRunView, news: DrillNewsView)
    requires
        s.stage !is Running,
        drill_next(s, news).stage is Running,
    ensures
        s.stage is Checking || s.stage is Pruning,
        s.stage is Checking ==> (news matches DrillNewsView::Checked { refusal: None, millis })
            && !(s.manifest.drills[s.drill as int].prune_evidence_before_run
            && s.stage->Checking_config.evidence_directory is Some),
        s.stage is Pruning ==> news is Pruned,
{
}

/// Evidence is removed only where the drill says so and the preflight found nothing in the way.
pub proof fn prunes_only_when_asked(s: DrillRunView, news: DrillNewsView)
    requires
        s.stage !is Pruning,
        drill_next(s, news).stage is Pruning,
    ensures
        s.manifest.drills[s.drill as int].prune_evidence_before_run,
        s.stage is Checking,
        news matches DrillNewsView::Checked { refusal: None, millis },
{
}

} // verus!
