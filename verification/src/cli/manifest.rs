//! Drill manifests: which definitions to run, and what is to come of it.
use vstd::prelude::*;
use crate::cli::profiles::{profile_named, Approvals, AutomationPolicyProfile};
use crate::codec::readers::{
    def_bool_at, opt_text_at, read_def_bool_at, read_opt_text_at, read_req_text_at, req_text_at,
};
use crate::codec::records::{opt_failure_kind_at, read_opt_failure_kind_at};
use crate::cli::repeated::{names_twice, repeats_a_key};
use crate::executor::RunOutcome;
use crate::fields::{
    decode_each, decode_each_step, decode_u32, decode_u64, keys_among, keys_in, optional, required,
    u32_of, u64_of,
};
use crate::run::FailureKind;
use crate::text::{opt_text, same_text};
use crate::value::{
    array_tree, entry_trees, find_entry, json_of_text, object_tree, parse_json, trees, Json, Tree,
};
use crate::views::{opt_view, views};

verus! {

/// What is to come of a drill.
#[derive(Debug, Clone, Copy, PartialEq, Eq, Structural)]
pub enum DrillExpectedOutcome {
    Succeeded,
    Failed,
    /// The run is not to begin.
    ExecutorError,
}

pub open spec fn expected_name(v: DrillExpectedOutcome) -> Seq<char> {
    match v {
        DrillExpectedOutcome::Succeeded => "succeeded"@,
        DrillExpectedOutcome::Failed => "failed"@,
        DrillExpectedOutcome::ExecutorError => "executorError"@,
    }
}

pub open spec fn outcome_of(tree: Tree) -> Option<DrillExpectedOutcome> {
    match tree {
        Tree::Text(name) => if name == "succeeded"@ {
            Some(DrillExpectedOutcome::Succeeded)
        } else if name == "failed"@ {
            Some(DrillExpectedOutcome::Failed)
        } else if name == "executorError"@ {
            Some(DrillExpectedOutcome::ExecutorError)
        } else {
            None
        },
        _ => None,
    }
}

fn decode_outcome(value: &Json) -> (r: Option<DrillExpectedOutcome>)
    ensures
        r == outcome_of(value@),
{
    match value {
        Json::String(name) => {
            let name = name.as_str();
            if same_text(name, "succeeded") {
                Some(DrillExpectedOutcome::Succeeded)
            } else if same_text(name, "failed") {
                Some(DrillExpectedOutcome::Failed)
            } else if same_text(name, "executorError") {
                Some(DrillExpectedOutcome::ExecutorError)
            } else {
                None
            }
        },
        _ => None,
    }
}

/// Whether a run ended as expected. Nothing that ended was expected not to begin.
pub open spec fn outcome_expected(v: DrillExpectedOutcome, outcome: RunOutcome) -> bool {
    ||| v == DrillExpectedOutcome::Succeeded && outcome == RunOutcome::Succeeded
    ||| v == DrillExpectedOutcome::Failed && outcome == RunOutcome::Failed
}

impl DrillExpectedOutcome {
    /// The name by which manifests and results call it.
    pub fn as_str(self) -> (r: &'static str)
        ensures
            r@ == expected_name(self),
    {
        match self {
            DrillExpectedOutcome::Succeeded => "succeeded",
            DrillExpectedOutcome::Failed => "failed",
            DrillExpectedOutcome::ExecutorError => "executorError",
        }
    }

    /// Whether a run ended as expected.
    pub fn matches(self, outcome: RunOutcome) -> (r: bool)
        ensures
            r == outcome_expected(self, outcome),
    {
        match (self, outcome) {
            (DrillExpectedOutcome::Succeeded, RunOutcome::Succeeded) => true,
            (DrillExpectedOutcome::Failed, RunOutcome::Failed) => true,
            _ => false,
        }
    }
}

/// Outcomes are read back by the names that they are written with.
pub proof fn expected_outcomes_are_read_back(v: DrillExpectedOutcome)
    ensures
        outcome_of(Tree::Text(expected_name(v))) == Some(v),
{
    reveal_strlit("succeeded");
    reveal_strlit("failed");
    reveal_strlit("executorError");
    assert("succeeded"@.len() == 9);
    assert("failed"@.len() == 6);
    assert("executorError"@.len() == 13);
}

/// A definition to run, what the run is allowed, and what is to come of it.
#[derive(Debug)]
pub struct DrillEntry {
    pub id: String,
    pub path: String,
    pub expected_outcome: DrillExpectedOutcome,
    pub policy_profile: Option<AutomationPolicyProfile>,
    pub allow_coordinate_targets: bool,
    pub allow_path_only_selectors: bool,
    pub allow_value_capture: bool,
    pub capture_step_evidence: bool,
    pub allow_screenshot_capture: bool,
    pub allow_image_targets: bool,
    pub evidence_max_artifact_bytes: Option<u64>,
    pub prune_evidence_before_run: bool,
    pub expected_failure_kind: Option<FailureKind>,
    pub expected_error_contains: Option<String>,
    pub expected_log_contains: Option<String>,
    pub expected_max_duration_millis: Option<u64>,
    /// How often it is run; once where nothing is said.
    pub repeat: Option<u32>,
}

/// What a [`DrillEntry`] stands for.
pub struct DrillEntryView {
    pub id: Seq<char>,
    pub path: Seq<char>,
    pub expected_outcome: DrillExpectedOutcome,
    pub policy_profile: Option<AutomationPolicyProfile>,
    pub allow_coordinate_targets: bool,
    pub allow_path_only_selectors: bool,
    pub allow_value_capture: bool,
    pub capture_step_evidence: bool,
    pub allow_screenshot_capture: bool,
    pub allow_image_targets: bool,
    pub evidence_max_artifact_bytes: Option<u64>,
    pub prune_evidence_before_run: bool,
    pub expected_failure_kind: Option<FailureKind>,
    pub expected_error_contains: Option<Seq<char>>,
    pub expected_log_contains: Option<Seq<char>>,
    pub expected_max_duration_millis: Option<u64>,
    pub repeat: Option<u32>,
}

impl View for DrillEntry {
    type V = DrillEntryView;

    open spec fn view(&self) -> DrillEntryView {
        DrillEntryView {
            id: self.id@,
            path: self.path@,
            expected_outcome: self.expected_outcome,
            policy_profile: self.policy_profile,
            allow_coordinate_targets: self.allow_coordinate_targets,
            allow_path_only_selectors: self.allow_path_only_selectors,
            allow_value_capture: self.allow_value_capture,
            capture_step_evidence: self.capture_step_evidence,
            allow_screenshot_capture: self.allow_screenshot_capture,
            allow_image_targets: self.allow_image_targets,
            evidence_max_artifact_bytes: self.evidence_max_artifact_bytes,
            prune_evidence_before_run: self.prune_evidence_before_run,
            expected_failure_kind: self.expected_failure_kind,
            expected_error_contains: opt_text(self.expected_error_contains),
            expected_log_contains: opt_text(self.expected_log_contains),
            expected_max_duration_millis: self.expected_max_duration_millis,
            repeat: self.repeat,
        }
    }
}

/// The approvals that a drill gives one by one.
pub open spec fn drill_approvals(d: DrillEntryView) -> Approvals {
    Approvals {
        allow_coordinate_targets: d.allow_coordinate_targets,
        allow_path_only_selectors: d.allow_path_only_selectors,
        allow_value_capture: d.allow_value_capture,
        capture_step_evidence: d.capture_step_evidence,
        allow_screenshot_capture: d.allow_screenshot_capture,
        allow_image_targets: d.allow_image_targets,
    }
}

impl DrillEntry {
    /// The approvals that the drill gives one by one.
    pub fn approvals(&self) -> (r: Approvals)
        ensures
            r == drill_approvals(self@),
    {
        Approvals {
            allow_coordinate_targets: self.allow_coordinate_targets,
            allow_path_only_selectors: self.allow_path_only_selectors,
            allow_value_capture: self.allow_value_capture,
            capture_step_evidence: self.capture_step_evidence,
            allow_screenshot_capture: self.allow_screenshot_capture,
            allow_image_targets: self.allow_image_targets,
        }
    }
}

/// Drills, and where their evidence goes.
#[derive(Debug)]
pub struct DrillManifest {
    pub id: String,
    pub evidence_dir: Option<String>,
    pub drills: Vec<DrillEntry>,
}

/// What a [`DrillManifest`] stands for.
pub struct DrillManifestView {
    pub id: Seq<char>,
    pub evidence_dir: Option<Seq<char>>,
    pub drills: Seq<DrillEntryView>,
}

impl View for DrillManifest {
    type V = DrillManifestView;

    open spec fn view(&self) -> DrillManifestView {
        DrillManifestView {
            id: self.id@,
            evidence_dir: opt_text(self.evidence_dir),
            drills: views(self.drills@),
        }
    }
}

pub open spec fn profile_of(tree: Tree) -> Option<AutomationPolicyProfile> {
    match tree {
        Tree::Text(name) => profile_named(name),
        _ => None,
    }
}

fn decode_profile(value: &Json) -> (r: Option<AutomationPolicyProfile>)
    ensures
        r == profile_of(value@),
{
    match value {
        Json::String(name) => AutomationPolicyProfile::from_cli(name.as_str()),
        _ => None,
    }
}

pub open spec fn opt_profile_at(entries: Seq<(Seq<char>, Tree)>, key: Seq<char>) -> Option<
    Option<AutomationPolicyProfile>,
> {
    optional(entries, key, |t: Tree| profile_of(t))
}

fn read_opt_profile_at(
    entries: &Vec<(String, Json)>,
    key: &str,
) -> (r: Option<Option<AutomationPolicyProfile>>)
    ensures
        r == opt_profile_at(entry_trees(entries@), key@),
{
    match find_entry(entries, key) {
        None => Some(None),
        Some(Json::Null) => Some(None),
        Some(value) => match decode_profile(value) {
            Some(x) => Some(Some(x)),
            None => None,
        },
    }
}

pub open spec fn opt_u64_at(entries: Seq<(Seq<char>, Tree)>, key: Seq<char>) -> Option<
    Option<u64>,
> {
    optional(entries, key, |t: Tree| u64_of(t))
}

fn read_opt_u64_at(entries: &Vec<(String, Json)>, key: &str) -> (r: Option<Option<u64>>)
    ensures
        r == opt_u64_at(entry_trees(entries@), key@),
{
    match find_entry(entries, key) {
        None => Some(None),
        Some(Json::Null) => Some(None),
        Some(value) => match decode_u64(value) {
            Some(x) => Some(Some(x)),
            None => None,
        },
    }
}

pub open spec fn opt_u32_at(entries: Seq<(Seq<char>, Tree)>, key: Seq<char>) -> Option<
    Option<u32>,
> {
    optional(entries, key, |t: Tree| u32_of(t))
}

fn read_opt_u32_at(entries: &Vec<(String, Json)>, key: &str) -> (r: Option<Option<u32>>)
    ensures
        r == opt_u32_at(entry_trees(entries@), key@),
{
    match find_entry(entries, key) {
        None => Some(None),
        Some(Json::Null) => Some(None),
        Some(value) => match decode_u32(value) {
            Some(x) => Some(Some(x)),
            None => None,
        },
    }
}

pub open spec fn req_outcome_at(entries: Seq<(Seq<char>, Tree)>, key: Seq<char>) -> Option<
    DrillExpectedOutcome,
> {
    required(entries, key, |t: Tree| outcome_of(t))
}

fn read_req_outcome_at(entries: &Vec<(String, Json)>, key: &str) -> (r: Option<
    DrillExpectedOutcome,
>)
    ensures
        r == req_outcome_at(entry_trees(entries@), key@),
{
    match find_entry(entries, key) {
        None => None,
        Some(value) => decode_outcome(value),
    }
}

pub open spec fn drill_keys() -> Seq<&'static str> {
    seq![
        "allowCoordinateTargets",
        "allowImageTargets",
        "allowPathOnlySelectors",
        "allowScreenshotCapture",
        "allowValueCapture",
        "captureStepEvidence",
        "evidenceMaxArtifactBytes",
        "expectedErrorContains",
        "expectedFailureKind",
        "expectedLogContains",
        "expectedMaxDurationMillis",
        "expectedOutcome",
        "id",
        "path",
        "policyProfile",
        "pruneEvidenceBeforeRun",
        "repeat",
    ]
}

/// How a drill is read. What is not known cannot be read.
pub open spec fn drill_of(tree: Tree) -> Option<DrillEntryView> {
    match tree {
        Tree::Object(entries) => {
            let allow_coordinate_targets = def_bool_at(entries, "allowCoordinateTargets"@);
            let allow_image_targets = def_bool_at(entries, "allowImageTargets"@);
            let allow_path_only_selectors = def_bool_at(entries, "allowPathOnlySelectors"@);
            let allow_screenshot_capture = def_bool_at(entries, "allowScreenshotCapture"@);
            let allow_value_capture = def_bool_at(entries, "allowValueCapture"@);
            let capture_step_evidence = def_bool_at(entries, "captureStepEvidence"@);
            let evidence_max_artifact_bytes = opt_u64_at(entries, "evidenceMaxArtifactBytes"@);
            let expected_error_contains = opt_text_at(entries, "expectedErrorContains"@);
            let expected_failure_kind = opt_failure_kind_at(entries, "expectedFailureKind"@);
            let expected_log_contains = opt_text_at(entries, "expectedLogContains"@);
            let expected_max_duration_millis = opt_u64_at(entries, "expectedMaxDurationMillis"@);
            let expected_outcome = req_outcome_at(entries, "expectedOutcome"@);
            let id = req_text_at(entries, "id"@);
            let path = req_text_at(entries, "path"@);
            let policy_profile = opt_profile_at(entries, "policyProfile"@);
            let prune_evidence_before_run = def_bool_at(entries, "pruneEvidenceBeforeRun"@);
            let repeat = opt_u32_at(entries, "repeat"@);
            if keys_in(entries, drill_keys())
                && allow_coordinate_targets is Some
                && allow_image_targets is Some
                && allow_path_only_selectors is Some
                && allow_screenshot_capture is Some
                && allow_value_capture is Some
                && capture_step_evidence is Some
                && evidence_max_artifact_bytes is Some
                && expected_error_contains is Some
                && expected_failure_kind is Some
                && expected_log_contains is Some
                && expected_max_duration_millis is Some
                && expected_outcome is Some
                && id is Some
                && path is Some
                && policy_profile is Some
                && prune_evidence_before_run is Some
                && repeat is Some {
                Some(
                    DrillEntryView {
                        allow_coordinate_targets: allow_coordinate_targets->0,
                        allow_image_targets: allow_image_targets->0,
                        allow_path_only_selectors: allow_path_only_selectors->0,
                        allow_screenshot_capture: allow_screenshot_capture->0,
                        allow_value_capture: allow_value_capture->0,
                        capture_step_evidence: capture_step_evidence->0,
                        evidence_max_artifact_bytes: evidence_max_artifact_bytes->0,
                        expected_error_contains: expected_error_contains->0,
                        expected_failure_kind: expected_failure_kind->0,
                        expected_log_contains: expected_log_contains->0,
                        expected_max_duration_millis: expected_max_duration_millis->0,
                        expected_outcome: expected_outcome->0,
                        id: id->0,
                        path: path->0,
                        policy_profile: policy_profile->0,
                        prune_evidence_before_run: prune_evidence_before_run->0,
                        repeat: repeat->0,
                    },
                )
            } else {
                None
            }
        },
        _ => None,
    }
}

pub fn decode_drill(value: &Json) -> (r: Option<DrillEntry>)
    ensures
        opt_view(r) == drill_of(value@),
{
    broadcast use object_tree;

    let entries = match value {
        Json::Object(entries) => entries,
        _ => {
            return None;
        },
    };
    let keys = [
        "allowCoordinateTargets",
        "allowImageTargets",
        "allowPathOnlySelectors",
        "allowScreenshotCapture",
        "allowValueCapture",
        "captureStepEvidence",
        "evidenceMaxArtifactBytes",
        "expectedErrorContains",
        "expectedFailureKind",
        "expectedLogContains",
        "expectedMaxDurationMillis",
        "expectedOutcome",
        "id",
        "path",
        "policyProfile",
        "pruneEvidenceBeforeRun",
        "repeat",
    ];
    assert(keys@ =~= drill_keys());
    if !keys_among(entries, &keys) {
        return None;
    }
    let allow_coordinate_targets = read_def_bool_at(entries, "allowCoordinateTargets")?;
    let allow_image_targets = read_def_bool_at(entries, "allowImageTargets")?;
    let allow_path_only_selectors = read_def_bool_at(entries, "allowPathOnlySelectors")?;
    let allow_screenshot_capture = read_def_bool_at(entries, "allowScreenshotCapture")?;
    let allow_value_capture = read_def_bool_at(entries, "allowValueCapture")?;
    let capture_step_evidence = read_def_bool_at(entries, "captureStepEvidence")?;
    let evidence_max_artifact_bytes = read_opt_u64_at(entries, "evidenceMaxArtifactBytes")?;
    let expected_error_contains = read_opt_text_at(entries, "expectedErrorContains")?;
    let expected_failure_kind = read_opt_failure_kind_at(entries, "expectedFailureKind")?;
    let expected_log_contains = read_opt_text_at(entries, "expectedLogContains")?;
    let expected_max_duration_millis = read_opt_u64_at(entries, "expectedMaxDurationMillis")?;
    let expected_outcome = read_req_outcome_at(entries, "expectedOutcome")?;
    let id = read_req_text_at(entries, "id")?;
    let path = read_req_text_at(entries, "path")?;
    let policy_profile = read_opt_profile_at(entries, "policyProfile")?;
    let prune_evidence_before_run = read_def_bool_at(entries, "pruneEvidenceBeforeRun")?;
    let repeat = read_opt_u32_at(entries, "repeat")?;
    Some(
        DrillEntry {
            allow_coordinate_targets,
            allow_image_targets,
            allow_path_only_selectors,
            allow_screenshot_capture,
            allow_value_capture,
            capture_step_evidence,
            evidence_max_artifact_bytes,
            expected_error_contains,
            expected_failure_kind,
            expected_log_contains,
            expected_max_duration_millis,
            expected_outcome,
            id,
            path,
            policy_profile,
            prune_evidence_before_run,
            repeat,
        },
    )
}

pub open spec fn drills_of(tree: Tree) -> Option<Seq<DrillEntryView>> {
    match tree {
        Tree::Array(items) => decode_each(items, |t: Tree| drill_of(t)),
        _ => None,
    }
}

fn decode_drills(value: &Json) -> (r: Option<Vec<DrillEntry>>)
    ensures
        match r {
            Some(items) => drills_of(value@) == Some(views(items@)),
            None => drills_of(value@) is None,
        },
{
    broadcast use array_tree;

    let items = match value {
        Json::Array(items) => items,
        _ => {
            return None;
        },
    };
    let ghost all = trees(items@);
    let ghost decode = |t: Tree| drill_of(t);
    let mut out: Vec<DrillEntry> = Vec::new();
    let mut i: usize = 0;
    assert(all.take(0) =~= Seq::empty());
    assert(views(out@) =~= Seq::empty());
    while i < items.len()
        invariant
            i <= items@.len(),
            all == trees(items@),
            value@ == Tree::Array(all),
            decode == (|t: Tree| drill_of(t)),
            decode_each(all.take(i as int), decode) == Some(views(out@)),
        decreases items@.len() - i,
    {
        let ghost front = views(out@);
        proof {
            decode_each_step(all, i as int, decode, front);
            assert(all[i as int] == items@[i as int]@);
        }
        match decode_drill(&items[i]) {
            Some(x) => {
                let ghost read = x@;
                out.push(x);
                assert(views(out@) =~= front.push(read));
            },
            None => {
                return None;
            },
        }
        i = i + 1;
    }
    assert(all.take(i as int) =~= all);
    Some(out)
}

pub open spec fn req_drills_at(entries: Seq<(Seq<char>, Tree)>, key: Seq<char>) -> Option<
    Seq<DrillEntryView>,
> {
    required(entries, key, |t: Tree| drills_of(t))
}

fn read_req_drills_at(entries: &Vec<(String, Json)>, key: &str) -> (r: Option<Vec<DrillEntry>>)
    ensures
        match r {
            Some(items) => req_drills_at(entry_trees(entries@), key@) == Some(views(items@)),
            None => req_drills_at(entry_trees(entries@), key@) is None,
        },
{
    match find_entry(entries, key) {
        None => None,
        Some(value) => decode_drills(value),
    }
}

pub open spec fn manifest_keys() -> Seq<&'static str> {
    seq!["drills", "evidenceDir", "id"]
}

/// How a manifest is read. What is not known cannot be read.
pub open spec fn manifest_of(tree: Tree) -> Option<DrillManifestView> {
    match tree {
        Tree::Object(entries) => {
            let drills = req_drills_at(entries, "drills"@);
            let evidence_dir = opt_text_at(entries, "evidenceDir"@);
            let id = req_text_at(entries, "id"@);
            if keys_in(entries, manifest_keys())
                && drills is Some
                && evidence_dir is Some
                && id is Some {
                Some(
                    DrillManifestView {
                        drills: drills->0,
                        evidence_dir: evidence_dir->0,
                        id: id->0,
                    },
                )
            } else {
                None
            }
        },
        _ => None,
    }
}

pub fn decode_manifest(value: &Json) -> (r: Option<DrillManifest>)
    ensures
        opt_view(r) == manifest_of(value@),
{
    broadcast use object_tree;

    let entries = match value {
        Json::Object(entries) => entries,
        _ => {
            return None;
        },
    };
    let keys = ["drills", "evidenceDir", "id"];
    assert(keys@ =~= manifest_keys());
    if !keys_among(entries, &keys) {
        return None;
    }
    let drills = read_req_drills_at(entries, "drills")?;
    let evidence_dir = read_opt_text_at(entries, "evidenceDir")?;
    let id = read_req_text_at(entries, "id")?;
    Some(DrillManifest { drills, evidence_dir, id })
}

/// Why a manifest could not be read.
#[derive(Debug, PartialEq, Eq)]
pub enum ManifestError {
    /// It is no JSON text.
    Json(String),
    /// An object in it names a key twice.
    RepeatedKey,
    /// It is no manifest.
    Shape,
}

impl ManifestError {
    /// The words for the user.
    pub fn message(&self) -> (r: String)
        ensures
            r@ == (match *self {
                ManifestError::Json(reason) => reason@,
                ManifestError::RepeatedKey => "the document names a key twice"@,
                ManifestError::Shape => "the document does not describe drills"@,
            }),
    {
        match self {
            ManifestError::Json(reason) => reason.clone(),
            ManifestError::RepeatedKey => "the document names a key twice".to_owned(),
            ManifestError::Shape => "the document does not describe drills".to_owned(),
        }
    }
}

/// Reads a manifest from JSON text.
pub fn parse_drill_manifest(input: &str) -> (r: Result<DrillManifest, ManifestError>)
    ensures
        match r {
            Ok(manifest) => {
                &&& !names_twice(input@, Seq::empty())
                &&& json_of_text(input@) matches Ok(tree) && manifest_of(tree) == Some(manifest@)
            },
            Err(ManifestError::Json(reason)) => json_of_text(input@) matches Err(message) && reason@
                == message,
            Err(ManifestError::RepeatedKey) => json_of_text(input@) is Ok && names_twice(
                input@,
                Seq::empty(),
            ),
            Err(ManifestError::Shape) => {
                &&& !names_twice(input@, Seq::empty())
                &&& json_of_text(input@) matches Ok(tree) && manifest_of(tree) is None
            },
        },
{
    match parse_json(input) {
        Ok(document) => {
            if repeats_a_key(input) {
                return Err(ManifestError::RepeatedKey);
            }
            match decode_manifest(&document) {
                Some(manifest) => Ok(manifest),
                None => Err(ManifestError::Shape),
            }
        },
        Err(message) => Err(ManifestError::Json(message)),
    }
}

} // verus!
