//! What evidence is taken of a step, and where it goes.
use vstd::prelude::*;
use crate::adapter::{phase_name, AdapterError, EvidencePhase};
use crate::definition::{
    Action, ActionView, Assertion, AssertionView, Platform, Target, TargetView, WaitCondition,
    WaitConditionView,
};
use crate::describe::{safe_artifact_component, safe_component};
use crate::macos::policy::{policy_denied, policy_denied_error};
use crate::run::{RunConfig, RunConfigView};
use crate::text::{concat3, decimal, format_u64, opt_text, owned, texts};
use crate::views::opt_view;

verus! {

/// The size that an artifact may have where the run sets no limit: 25 MiB.
pub const DEFAULT_EVIDENCE_MAX_ARTIFACT_BYTES: u64 = 26_214_400;

pub open spec fn size_limit(c: RunConfigView) -> u64 {
    match c.evidence_max_artifact_bytes {
        Some(limit) => limit,
        None => DEFAULT_EVIDENCE_MAX_ARTIFACT_BYTES,
    }
}

pub open spec fn too_large_text(size: u64, limit: u64) -> Seq<char> {
    "evidence artifact exceeded configured size limit ("@ + decimal(size as nat) + " > "@ + decimal(
        limit as nat,
    ) + " bytes)"@
}

/// Refuses an artifact that is larger than the run allows.
pub fn enforce_evidence_artifact_size(size: u64, config: &RunConfig) -> (r: Result<
    (),
    AdapterError,
>)
    ensures
        match r {
            Ok(_) => size <= size_limit(config@),
            Err(e) => size > size_limit(config@) && e@ == policy_denied(
                too_large_text(size, size_limit(config@)),
            ),
        },
{
    let limit: u64 = match config.evidence_max_artifact_bytes {
        Some(limit) => limit,
        None => DEFAULT_EVIDENCE_MAX_ARTIFACT_BYTES,
    };
    if size > limit {
        let mut message = owned("evidence artifact exceeded configured size limit (");
        message.append(format_u64(size).as_str());
        message.append(" > ");
        message.append(format_u64(limit).as_str());
        message.append(" bytes)");
        return Err(policy_denied_error(message));
    }
    Ok(())
}

/// The target that a condition is about.
pub open spec fn target_of_condition(c: WaitConditionView) -> Option<TargetView> {
    match c {
        WaitConditionView::WindowExists { target } => Some(target),
        WaitConditionView::WindowFocused { target } => Some(target),
        WaitConditionView::TargetExists { target } => Some(target),
        WaitConditionView::TargetNotExists { target } => Some(target),
        WaitConditionView::TargetFocused { target } => Some(target),
        WaitConditionView::TargetEnabled { target } => Some(target),
        WaitConditionView::TargetVisible { target } => Some(target),
        WaitConditionView::TargetActionable { target } => Some(target),
        WaitConditionView::TargetNameContains { target, text } => Some(target),
        WaitConditionView::TargetValueContains { target, text } => Some(target),
        WaitConditionView::ProcessRunning { target } => Some(target),
        WaitConditionView::Duration { duration } => None,
        WaitConditionView::FileExists { path } => None,
        WaitConditionView::CommandExits { command, args } => None,
    }
}

/// The target of which evidence of an action is taken. On Windows an opened file has none.
pub open spec fn target_of_action(platform: Platform, a: ActionView) -> Option<TargetView> {
    match a {
        ActionView::LaunchUrl { url, target } => target,
        ActionView::LaunchApp { app, target } => target,
        ActionView::TypeText { text, target } => target,
        ActionView::PressKey { keys, target } => target,
        ActionView::Scroll { delta_x, delta_y, target } => target,
        ActionView::OpenFile { path, target } => if platform == Platform::MacOs {
            target
        } else {
            None
        },
        ActionView::FocusWindow { target } => Some(target),
        ActionView::ClickTarget { target } => Some(target),
        ActionView::WaitFor { condition } => target_of_condition(condition),
        ActionView::Assert { assertion } => match assertion {
            AssertionView::TargetExists { target } => Some(target),
            AssertionView::Condition { condition } => target_of_condition(condition),
        },
        ActionView::RunCommand { command, args } => None,
    }
}

pub open spec fn found_target(r: Option<&Target>) -> Option<TargetView> {
    match r {
        Some(t) => Some(t@),
        None => None,
    }
}

pub fn condition_target(condition: &WaitCondition) -> (r: Option<&Target>)
    ensures
        found_target(r) == target_of_condition(condition@),
{
    match condition {
        WaitCondition::WindowExists { target }
        | WaitCondition::WindowFocused { target }
        | WaitCondition::TargetExists { target }
        | WaitCondition::TargetNotExists { target }
        | WaitCondition::TargetFocused { target }
        | WaitCondition::TargetEnabled { target }
        | WaitCondition::TargetVisible { target }
        | WaitCondition::TargetActionable { target }
        | WaitCondition::ProcessRunning { target } => Some(target),
        WaitCondition::TargetNameContains { target, .. } => Some(target),
        WaitCondition::TargetValueContains { target, .. } => Some(target),
        WaitCondition::Duration { .. }
        | WaitCondition::FileExists { .. }
        | WaitCondition::CommandExits { .. } => None,
    }
}

pub fn evidence_target(platform: Platform, action: &Action) -> (r: Option<&Target>)
    ensures
        found_target(r) == target_of_action(platform, action@),
{
    match action {
        Action::LaunchUrl { target, .. }
        | Action::LaunchApp { target, .. }
        | Action::TypeText { target, .. }
        | Action::PressKey { target, .. }
        | Action::Scroll { target, .. } => target.as_ref(),
        Action::OpenFile { target, .. } => if platform == Platform::MacOs {
            target.as_ref()
        } else {
            None
        },
        Action::FocusWindow { target } | Action::ClickTarget { target } => Some(target),
        Action::WaitFor { condition } => condition_target(condition),
        Action::Assert { assertion } => match assertion {
            Assertion::TargetExists { target } => Some(target),
            Assertion::Condition { condition } => condition_target(condition),
        },
        Action::RunCommand { .. } => None,
    }
}

/// How deep a window is looked at for evidence.
pub const EVIDENCE_MAX_DEPTH: u32 = 3;

/// At how many elements of a window is looked for evidence.
pub const EVIDENCE_MAX_NODES: usize = 300;

/// What is to be taken, and under which names.
#[derive(Debug, PartialEq)]
pub struct EvidencePlan {
    pub target: Target,
    /// The folders below the evidence directory, each inside the one before it.
    pub folders: Vec<String>,
    /// How deep, and at how many elements, the window is looked at.
    pub max_depth: u32,
    pub max_nodes: usize,
    /// The file for the elements of the window.
    pub tree_file: String,
    pub tree_label: String,
    /// The file for a picture of the window, where pictures may be taken.
    pub screenshot_file: Option<String>,
    pub include_values: bool,
}

/// What an [`EvidencePlan`] stands for.
pub struct EvidencePlanView {
    pub target: TargetView,
    pub folders: Seq<Seq<char>>,
    pub max_depth: u32,
    pub max_nodes: usize,
    pub tree_file: Seq<char>,
    pub tree_label: Seq<char>,
    pub screenshot_file: Option<Seq<char>>,
    pub include_values: bool,
}

impl View for EvidencePlan {
    type V = EvidencePlanView;

    open spec fn view(&self) -> EvidencePlanView {
        EvidencePlanView {
            target: self.target@,
            folders: texts(self.folders@),
            max_depth: self.max_depth,
            max_nodes: self.max_nodes,
            tree_file: self.tree_file@,
            tree_label: self.tree_label@,
            screenshot_file: opt_text(self.screenshot_file),
            include_values: self.include_values,
        }
    }
}

/// What the names of the files of a step begin with.
pub open spec fn file_stem(
    phase: EvidencePhase,
    run_id: Seq<char>,
    automation_id: Seq<char>,
    step_id: Seq<char>,
) -> Seq<char> {
    safe_component(automation_id) + "-"@ + safe_component(run_id) + "-"@ + step_id + "-"@
        + phase_name(phase)
}

/// Whether a target says of which window evidence is to be taken.
pub open spec fn names_window(platform: Platform, t: TargetView) -> bool {
    t.window_title is Some || t.title_contains is Some || (platform == Platform::MacOs
        && t.app_name is Some)
}

/// What evidence of a step is taken, if any: only where the run asks for it and says where it
/// goes, and only of a window.
pub open spec fn planned(
    platform: Platform,
    phase: EvidencePhase,
    a: ActionView,
    c: RunConfigView,
    run_id: Seq<char>,
    automation_id: Seq<char>,
    step_id: Seq<char>,
) -> Option<EvidencePlanView> {
    let stem = file_stem(phase, run_id, automation_id, step_id);
    if !c.capture_step_evidence || c.evidence_directory is None {
        None
    } else {
        match target_of_action(platform, a) {
            None => None,
            Some(t) => if names_window(platform, t) {
                Some(
                    EvidencePlanView {
                        target: t,
                        folders: seq!["steps"@, step_id],
                        max_depth: EVIDENCE_MAX_DEPTH,
                        max_nodes: EVIDENCE_MAX_NODES,
                        tree_file: stem + "-accessibility.json"@,
                        tree_label: phase_name(phase) + " accessibility tree: "@ + step_id,
                        screenshot_file: if c.allow_screenshot_capture {
                            Some(
                                stem + if platform == Platform::MacOs {
                                    "-window.png"@
                                } else {
                                    "-window.bmp"@
                                },
                            )
                        } else {
                            None
                        },
                        include_values: c.allow_value_capture,
                    },
                )
            } else {
                None
            },
        }
    }
}

fn make_file_stem(phase: EvidencePhase, run_id: &str, automation_id: &str, step_id: &str) -> (r: String)
    ensures
        r@ == file_stem(phase, run_id@, automation_id@, step_id@),
{
    let mut stem = safe_artifact_component(automation_id);
    stem.append("-");
    stem.append(safe_artifact_component(run_id).as_str());
    stem.append("-");
    stem.append(step_id);
    stem.append("-");
    stem.append(phase.as_str());
    stem
}

/// Plans what evidence of a step is taken. `refused` is the error for an action that the policy
/// does not admit, of which no evidence is taken either.
pub fn plan_evidence(
    platform: Platform,
    phase: EvidencePhase,
    action: &Action,
    config: &RunConfig,
    refused: Result<(), AdapterError>,
    run_id: &str,
    automation_id: &str,
    step_id: &str,
) -> (r: Result<Option<EvidencePlan>, AdapterError>)
    ensures
        match refused {
            Err(e) => if config@.capture_step_evidence {
                r == Err::<Option<EvidencePlan>, AdapterError>(e)
            } else {
                r matches Ok(None)
            },
            Ok(_) => r matches Ok(plan) && opt_view(plan) == planned(
                platform,
                phase,
                action@,
                config@,
                run_id@,
                automation_id@,
                step_id@,
            ),
        },
{
    if !config.capture_step_evidence {
        return Ok(None);
    }
    match refused {
        Ok(_) => {},
        Err(e) => {
            return Err(e);
        },
    }
    if config.evidence_directory.is_none() {
        return Ok(None);
    }
    let target = match evidence_target(platform, action) {
        Some(target) => target,
        None => {
            return Ok(None);
        },
    };
    let mac = platform == Platform::MacOs;
    if !(target.window_title.is_some() || target.title_contains.is_some() || (mac
        && target.app_name.is_some())) {
        return Ok(None);
    }
    let stem = make_file_stem(phase, run_id, automation_id, step_id);
    let mut tree_file = stem.clone();
    tree_file.append("-accessibility.json");
    let screenshot_file = if config.allow_screenshot_capture {
        let mut file = stem;
        if mac {
            file.append("-window.png");
        } else {
            file.append("-window.bmp");
        }
        Some(file)
    } else {
        None
    };
    let tree_label = concat3(phase.as_str(), " accessibility tree: ", step_id);
    let folders: Vec<String> = vec!["steps".to_owned(), step_id.to_owned()];
    assert(texts(folders@) =~= seq!["steps"@, step_id@]);
    Ok(
        Some(
            EvidencePlan {
                target: target.clone(),
                folders,
                max_depth: EVIDENCE_MAX_DEPTH,
                max_nodes: EVIDENCE_MAX_NODES,
                tree_file,
                tree_label,
                screenshot_file,
                include_values: config.allow_value_capture,
            },
        ),
    )
}

/// No picture is planned without the approval for pictures, and no values without the approval for
/// values; nothing at all is planned where the run asks for no evidence.
pub proof fn evidence_respects_approvals(
    platform: Platform,
    phase: EvidencePhase,
    a: ActionView,
    c: RunConfigView,
    run_id: Seq<char>,
    automation_id: Seq<char>,
    step_id: Seq<char>,
)
    ensures
        ({
            let p = planned(platform, phase, a, c, run_id, automation_id, step_id);
            &&& !c.capture_step_evidence ==> p is None
            &&& p matches Some(plan) ==> (plan.screenshot_file is Some <==> c.allow_screenshot_capture)
            &&& p matches Some(plan) ==> plan.include_values == c.allow_value_capture
        }),
{
}

} // verus!
