//! What a manifest of drills says, entry by entry.
use vstd::prelude::*;
use crate::cli::manifest::{
    drill_of, drills_of, manifest_of, opt_profile_at, opt_u32_at, opt_u64_at, parse_drill_manifest,
    req_outcome_at, DrillEntryView, DrillExpectedOutcome, DrillManifest, DrillManifestView,
    ManifestError,
};
use crate::cli::profiles::AutomationPolicyProfile;
use crate::codec::readers::{def_bool_at, opt_text_at, req_text_at};
use crate::codec::records::opt_failure_kind_at;
use crate::collections::lookup;
use crate::fields::{keys_in, named};
use crate::laws::documents::{each_is_read, keys_are, maybe_text, nothing, number, only, text};
use crate::laws::records::expected_word;
use crate::laws::reports::{failure_kind_is_read, failure_kind_word};
use crate::run::FailureKind;
use crate::value::{json_of_text, Tree};

verus! {

type Entries = Seq<(Seq<char>, Tree)>;

/// The names of a profile.
pub open spec fn profile_goes_by(p: AutomationPolicyProfile, name: Seq<char>) -> bool {
    match p {
        AutomationPolicyProfile::Strict => name == "strict"@,
        AutomationPolicyProfile::Evidence => name == "evidence"@,
        AutomationPolicyProfile::VisualFallback => name == "visual-fallback"@ || name
            == "visualFallback"@,
        AutomationPolicyProfile::UnsafeLab => name == "unsafe-lab"@ || name == "unsafeLab"@,
    }
}

pub open spec fn is_text(entries: Entries, key: Seq<char>) -> bool {
    lookup(entries, key) is Some && lookup(entries, key)->0 is Text
}

/// A truth value, or nothing where it is false.
#[verifier::opaque]
pub open spec fn flag(entries: Entries, key: Seq<char>, x: bool) -> bool {
    match lookup(entries, key) {
        Some(u) => u == Tree::Bool(x),
        None => !x,
    }
}

#[verifier::opaque]
pub open spec fn maybe_number(entries: Entries, key: Seq<char>, x: Option<u64>) -> bool {
    match x {
        Some(y) => number(entries, key, y as int),
        None => nothing(entries, key),
    }
}

#[verifier::opaque]
pub open spec fn maybe_small_number(entries: Entries, key: Seq<char>, x: Option<u32>) -> bool {
    match x {
        Some(y) => number(entries, key, y as int),
        None => nothing(entries, key),
    }
}

#[verifier::opaque]
pub open spec fn maybe_failure_kind(
    entries: Entries,
    key: Seq<char>,
    x: Option<FailureKind>,
) -> bool {
    match x {
        Some(y) => text(entries, key, failure_kind_word(y)),
        None => nothing(entries, key),
    }
}

#[verifier::opaque]
pub open spec fn maybe_profile(
    entries: Entries,
    key: Seq<char>,
    x: Option<AutomationPolicyProfile>,
) -> bool {
    match x {
        Some(y) => is_text(entries, key) && profile_goes_by(y, lookup(entries, key)->0->Text_0),
        None => nothing(entries, key),
    }
}

proof fn flag_is_read(entries: Entries, key: Seq<char>, x: bool)
    ensures
        def_bool_at(entries, key) == Some(x) <==> flag(entries, key, x),
{
    reveal(flag);
}

proof fn maybe_number_is_read(entries: Entries, key: Seq<char>, x: Option<u64>)
    ensures
        opt_u64_at(entries, key) == Some(x) <==> maybe_number(entries, key, x),
{
    reveal(maybe_number);
}

proof fn maybe_small_number_is_read(entries: Entries, key: Seq<char>, x: Option<u32>)
    ensures
        opt_u32_at(entries, key) == Some(x) <==> maybe_small_number(entries, key, x),
{
    reveal(maybe_small_number);
}

proof fn maybe_text_is_read(entries: Entries, key: Seq<char>, x: Option<Seq<char>>)
    ensures
        opt_text_at(entries, key) == Some(x) <==> maybe_text(entries, key, x),
{
}

proof fn text_is_read(entries: Entries, key: Seq<char>, x: Seq<char>)
    ensures
        req_text_at(entries, key) == Some(x) <==> text(entries, key, x),
{
}

proof fn maybe_failure_kind_is_read(entries: Entries, key: Seq<char>, x: Option<FailureKind>)
    ensures
        opt_failure_kind_at(entries, key) == Some(x) <==> maybe_failure_kind(entries, key, x),
{
    reveal(maybe_failure_kind);
    if lookup(entries, key) is Some && x is Some {
        failure_kind_is_read(lookup(entries, key)->0, x->0);
    }
}

proof fn maybe_profile_is_read(
    entries: Entries,
    key: Seq<char>,
    x: Option<AutomationPolicyProfile>,
)
    ensures
        opt_profile_at(entries, key) == Some(x) <==> maybe_profile(entries, key, x),
{
    reveal(maybe_profile);
    if x is Some {
        profiles_are_read(entries, key, x->0);
    }
}

proof fn profiles_are_read(entries: Entries, key: Seq<char>, p: AutomationPolicyProfile)
    ensures
        opt_profile_at(entries, key) == Some(Some(p)) <==> is_text(entries, key)
            && profile_goes_by(p, lookup(entries, key)->0->Text_0),
{
    reveal_strlit("strict");
    reveal_strlit("evidence");
    reveal_strlit("visual-fallback");
    reveal_strlit("visualFallback");
    reveal_strlit("unsafe-lab");
    reveal_strlit("unsafeLab");
    assert("strict"@.len() == 6 && "evidence"@.len() == 8 && "visual-fallback"@.len() == 15);
    assert("visualFallback"@.len() == 14 && "unsafe-lab"@.len() == 10 && "unsafeLab"@.len() == 9);
}

proof fn expected_outcomes_are_read(entries: Entries, x: DrillExpectedOutcome)
    ensures
        req_outcome_at(entries, "expectedOutcome"@) == Some(x) <==> text(
            entries,
            "expectedOutcome"@,
            expected_word(x),
        ),
{
    reveal_strlit("succeeded");
    reveal_strlit("failed");
    reveal_strlit("executorError");
    assert("succeeded"@.len() == 9 && "failed"@.len() == 6 && "executorError"@.len() == 13);
}

/// The entries of a drill.
pub open spec fn drill_says(t: Tree, x: DrillEntryView) -> bool {
    &&& t is Object
    &&& only(t->Object_0, set![
        "allowCoordinateTargets"@,
        "allowImageTargets"@,
        "allowPathOnlySelectors"@,
        "allowScreenshotCapture"@,
        "allowValueCapture"@,
        "captureStepEvidence"@,
        "evidenceMaxArtifactBytes"@,
        "expectedErrorContains"@,
        "expectedFailureKind"@,
        "expectedLogContains"@,
        "expectedMaxDurationMillis"@,
        "expectedOutcome"@,
        "id"@,
        "path"@,
        "policyProfile"@,
        "pruneEvidenceBeforeRun"@,
        "repeat"@,
    ])
    &&& flag(t->Object_0, "allowCoordinateTargets"@, x.allow_coordinate_targets)
    &&& flag(t->Object_0, "allowImageTargets"@, x.allow_image_targets)
    &&& flag(t->Object_0, "allowPathOnlySelectors"@, x.allow_path_only_selectors)
    &&& flag(t->Object_0, "allowScreenshotCapture"@, x.allow_screenshot_capture)
    &&& flag(t->Object_0, "allowValueCapture"@, x.allow_value_capture)
    &&& flag(t->Object_0, "captureStepEvidence"@, x.capture_step_evidence)
    &&& maybe_number(t->Object_0, "evidenceMaxArtifactBytes"@, x.evidence_max_artifact_bytes)
    &&& maybe_text(t->Object_0, "expectedErrorContains"@, x.expected_error_contains)
    &&& maybe_failure_kind(t->Object_0, "expectedFailureKind"@, x.expected_failure_kind)
    &&& maybe_text(t->Object_0, "expectedLogContains"@, x.expected_log_contains)
    &&& maybe_number(t->Object_0, "expectedMaxDurationMillis"@, x.expected_max_duration_millis)
    &&& text(t->Object_0, "expectedOutcome"@, expected_word(x.expected_outcome))
    &&& text(t->Object_0, "id"@, x.id)
    &&& text(t->Object_0, "path"@, x.path)
    &&& maybe_profile(t->Object_0, "policyProfile"@, x.policy_profile)
    &&& flag(t->Object_0, "pruneEvidenceBeforeRun"@, x.prune_evidence_before_run)
    &&& maybe_small_number(t->Object_0, "repeat"@, x.repeat)
}

proof fn drill_entries(entries: Entries)
    ensures
        keys_in(entries, crate::cli::manifest::drill_keys()) <==> only(entries, set![
            "allowCoordinateTargets"@,
            "allowImageTargets"@,
            "allowPathOnlySelectors"@,
            "allowScreenshotCapture"@,
            "allowValueCapture"@,
            "captureStepEvidence"@,
            "evidenceMaxArtifactBytes"@,
            "expectedErrorContains"@,
            "expectedFailureKind"@,
            "expectedLogContains"@,
            "expectedMaxDurationMillis"@,
            "expectedOutcome"@,
            "id"@,
            "path"@,
            "policyProfile"@,
            "pruneEvidenceBeforeRun"@,
            "repeat"@,
        ]),
{
    let names = crate::cli::manifest::drill_keys();
    let keys = set![
        "allowCoordinateTargets"@,
        "allowImageTargets"@,
        "allowPathOnlySelectors"@,
        "allowScreenshotCapture"@,
        "allowValueCapture"@,
        "captureStepEvidence"@,
        "evidenceMaxArtifactBytes"@,
        "expectedErrorContains"@,
        "expectedFailureKind"@,
        "expectedLogContains"@,
        "expectedMaxDurationMillis"@,
        "expectedOutcome"@,
        "id"@,
        "path"@,
        "policyProfile"@,
        "pruneEvidenceBeforeRun"@,
        "repeat"@,
    ];
    assert(names[0]@ == "allowCoordinateTargets"@);
    assert(names[1]@ == "allowImageTargets"@);
    assert(names[2]@ == "allowPathOnlySelectors"@);
    assert(names[3]@ == "allowScreenshotCapture"@);
    assert(names[4]@ == "allowValueCapture"@);
    assert(names[5]@ == "captureStepEvidence"@);
    assert(names[6]@ == "evidenceMaxArtifactBytes"@);
    assert(names[7]@ == "expectedErrorContains"@);
    assert(names[8]@ == "expectedFailureKind"@);
    assert(names[9]@ == "expectedLogContains"@);
    assert(names[10]@ == "expectedMaxDurationMillis"@);
    assert(names[11]@ == "expectedOutcome"@);
    assert(names[12]@ == "id"@);
    assert(names[13]@ == "path"@);
    assert(names[14]@ == "policyProfile"@);
    assert(names[15]@ == "pruneEvidenceBeforeRun"@);
    assert(names[16]@ == "repeat"@);
    assert forall|k: Seq<char>| #[trigger] named(names, k) <==> keys.contains(k) by {
        if named(names, k) {
            let i = choose|i: int| 0 <= i < names.len() && (#[trigger] names[i])@ == k;
            assert(keys.contains(names[i]@));
        }
    }
    keys_are(entries, names, keys);
}

/// A drill is read as what its entries say, and as nothing else.
#[verifier::rlimit(60)]
pub proof fn drill_is_read(t: Tree, x: DrillEntryView)
    ensures
        drill_of(t) == Some(x) <==> drill_says(t, x),
{
    if t is Object {
        let entries = t->Object_0;
        drill_entries(entries);
        flag_is_read(entries, "allowCoordinateTargets"@, x.allow_coordinate_targets);
        flag_is_read(entries, "allowImageTargets"@, x.allow_image_targets);
        flag_is_read(entries, "allowPathOnlySelectors"@, x.allow_path_only_selectors);
        flag_is_read(entries, "allowScreenshotCapture"@, x.allow_screenshot_capture);
        flag_is_read(entries, "allowValueCapture"@, x.allow_value_capture);
        flag_is_read(entries, "captureStepEvidence"@, x.capture_step_evidence);
        flag_is_read(entries, "pruneEvidenceBeforeRun"@, x.prune_evidence_before_run);
        maybe_number_is_read(entries, "evidenceMaxArtifactBytes"@, x.evidence_max_artifact_bytes);
        maybe_number_is_read(entries, "expectedMaxDurationMillis"@, x.expected_max_duration_millis);
        maybe_small_number_is_read(entries, "repeat"@, x.repeat);
        maybe_text_is_read(entries, "expectedErrorContains"@, x.expected_error_contains);
        maybe_text_is_read(entries, "expectedLogContains"@, x.expected_log_contains);
        maybe_failure_kind_is_read(entries, "expectedFailureKind"@, x.expected_failure_kind);
        maybe_profile_is_read(entries, "policyProfile"@, x.policy_profile);
        expected_outcomes_are_read(entries, x.expected_outcome);
        text_is_read(entries, "id"@, x.id);
        text_is_read(entries, "path"@, x.path);
    }
}

/// The drills of a manifest, in order.
pub open spec fn drills_say(t: Tree, x: Seq<DrillEntryView>) -> bool {
    t is Array && t->Array_0.len() == x.len() && forall|i: int|
        0 <= i < x.len() ==> drill_says(#[trigger] t->Array_0[i], x[i])
}

proof fn drills_are_read(t: Tree, x: Seq<DrillEntryView>)
    ensures
        drills_of(t) == Some(x) <==> drills_say(t, x),
{
    if t is Array {
        let items = t->Array_0;
        each_is_read(items, |u: Tree| drill_of(u), x);
        assert forall|i: int| 0 <= i < items.len() && items.len() == x.len() implies (drill_of(
            #[trigger] items[i],
        ) == Some(x[i]) <==> drill_says(items[i], x[i])) by {
            drill_is_read(items[i], x[i]);
        }
    }
}

/// The entries of a manifest.
pub open spec fn manifest_says(t: Tree, x: DrillManifestView) -> bool {
    &&& t is Object
    &&& only(t->Object_0, set!["drills"@, "evidenceDir"@, "id"@])
    &&& lookup(t->Object_0, "drills"@) is Some
            && drills_say(lookup(t->Object_0, "drills"@)->0, x.drills)
    &&& maybe_text(t->Object_0, "evidenceDir"@, x.evidence_dir)
    &&& text(t->Object_0, "id"@, x.id)
}

proof fn manifest_entries(entries: Entries)
    ensures
        keys_in(entries, crate::cli::manifest::manifest_keys()) <==> only(entries, set![
            "drills"@,
            "evidenceDir"@,
            "id"@,
        ]),
{
    let names = crate::cli::manifest::manifest_keys();
    let keys = set!["drills"@, "evidenceDir"@, "id"@];
    assert(names[0]@ == "drills"@);
    assert(names[1]@ == "evidenceDir"@);
    assert(names[2]@ == "id"@);
    assert forall|k: Seq<char>| #[trigger] named(names, k) <==> keys.contains(k) by {
        if named(names, k) {
            let i = choose|i: int| 0 <= i < names.len() && (#[trigger] names[i])@ == k;
            assert(keys.contains(names[i]@));
        }
    }
    keys_are(entries, names, keys);
}

/// A manifest is read as what its entries say, and as nothing else.
pub proof fn manifest_is_read(t: Tree, x: DrillManifestView)
    ensures
        manifest_of(t) == Some(x) <==> manifest_says(t, x),
{
    if t is Object {
        let entries = t->Object_0;
        manifest_entries(entries);
        if lookup(entries, "drills"@) is Some {
            drills_are_read(lookup(entries, "drills"@)->0, x.drills);
        }
    }
}

/// What is read from the text of a manifest is what its entries say.
pub proof fn parsed_manifests_say_what_is_written(
    input: &str,
    r: Result<DrillManifest, ManifestError>,
)
    requires
        call_ensures(parse_drill_manifest, (input,), r),
    ensures
        r is Ok ==> json_of_text(input@) is Ok && manifest_says(
            json_of_text(input@)->Ok_0,
            r->Ok_0@,
        ),
{
    if r is Ok {
        manifest_is_read(json_of_text(input@)->Ok_0, r->Ok_0@);
    }
}

} // verus!
