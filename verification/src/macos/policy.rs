//! What the macOS adapter refuses to do. `trusted` tells whether the process has been granted
//! Accessibility permission.
use vstd::prelude::*;
use crate::adapter::{plain_error, AdapterError, AdapterErrorView};
use crate::definition::{
    Action, ActionView, Assertion, AssertionView, Target, TargetView, WaitCondition,
    WaitConditionView,
};
use crate::run::{
    FailureKind, PreflightDiagnostic, PreflightDiagnosticView, PreflightSeverity, RunConfig,
    RunConfigView, RunErrorKind,
};
use crate::text::{contains, contains_text};
use crate::validate::no_selectors;
use crate::views::views;
use crate::windows::policy::{
    acted_on, asked_about, first_reason, named_target, path_only, reads_value, reason_text,
};

verus! {

/// Image targets need two approvals.
pub open spec fn image_target_reason(t: TargetView, c: RunConfigView) -> Option<Seq<char>> {
    if t.image is None {
        None
    } else if !c.allow_image_targets {
        Some("image targets require explicit allowImageTargets approval"@)
    } else if !c.allow_screenshot_capture {
        Some("image targets require explicit allowScreenshotCapture approval"@)
    } else {
        None
    }
}

pub open spec fn window_target_reason(t: TargetView) -> Option<Seq<char>> {
    if t.url is Some || t.file_path is Some {
        Some(
            "macOS window selectors currently support appName, processName, windowTitle, and titleContains"@,
        )
    } else {
        None
    }
}

pub open spec fn coordinate_target_reason(t: TargetView, c: RunConfigView) -> Option<Seq<char>> {
    if !c.allow_coordinate_targets {
        Some("coordinate targets require explicit allowCoordinateTargets approval"@)
    } else if t.window_title is Some || t.title_contains is Some || t.app_name is Some
        || t.process_name is Some || t.url is Some || t.file_path is Some || t.accessibility is Some
        || t.image is Some {
        Some("macOS coordinate clicks currently support only absolute screen coordinates"@)
    } else {
        None
    }
}

pub open spec fn window_target_reason_with_config(t: TargetView, c: RunConfigView) -> Option<
    Seq<char>,
> {
    if t.image is Some {
        image_target_reason(t, c)
    } else if t.coordinates is Some {
        coordinate_target_reason(t, c)
    } else {
        window_target_reason(t)
    }
}

pub open spec fn launch_target_reason(t: TargetView, c: RunConfigView) -> Option<Seq<char>> {
    if t.image is Some {
        image_target_reason(t, c)
    } else if t.coordinates is Some {
        Some("launch targets do not support coordinate selectors"@)
    } else {
        window_target_reason_with_config(t, c)
    }
}

pub open spec fn focus_window_target_reason(t: TargetView, c: RunConfigView, trusted: bool) -> Option<
    Seq<char>,
> {
    if !trusted {
        Some("macOS Accessibility permission is required for window focus automation"@)
    } else {
        window_target_reason_with_config(t, c)
    }
}

pub open spec fn semantic_target_reason(t: TargetView) -> Option<Seq<char>> {
    if t.accessibility is None {
        Some("semantic targets require an accessibility selector"@)
    } else if t.window_title is None && t.title_contains is None && t.app_name is None
        && t.process_name is None {
        Some("semantic targets require a window/app selector"@)
    } else {
        window_target_reason(t)
    }
}

pub open spec fn semantic_target_reason_with_config(
    t: TargetView,
    c: RunConfigView,
    trusted: bool,
) -> Option<Seq<char>> {
    first_reason(
        image_target_reason(t, c),
        if path_only(t) && !c.allow_path_only_selectors {
            Some(
                "path-only accessibility selectors require explicit allowPathOnlySelectors approval"@,
            )
        } else if !trusted {
            Some("macOS Accessibility permission is required for semantic automation"@)
        } else {
            semantic_target_reason(t)
        },
    )
}

pub open spec fn process_target_reason(t: TargetView) -> Option<Seq<char>> {
    if t.window_title is Some || t.title_contains is Some || t.url is Some || t.file_path is Some
        || t.accessibility is Some || t.image is Some || t.coordinates is Some || !no_selectors(
        t.platform_selectors,
    ) {
        Some("macOS process queries currently support only processName or appName selectors"@)
    } else if t.process_name is None && t.app_name is None {
        Some("macOS process queries require a processName or appName selector"@)
    } else {
        None
    }
}

/// Why an action on an element, a picture or a point is refused.
pub open spec fn input_target_reason(t: TargetView, c: RunConfigView, trusted: bool) -> Option<
    Seq<char>,
> {
    if t.image is Some {
        image_target_reason(t, c)
    } else if t.coordinates is Some {
        coordinate_target_reason(t, c)
    } else {
        semantic_target_reason_with_config(t, c, trusted)
    }
}

/// Why a query about an element or a picture is refused.
pub open spec fn query_target_reason(t: TargetView, c: RunConfigView, trusted: bool) -> Option<
    Seq<char>,
> {
    if t.image is Some {
        image_target_reason(t, c)
    } else {
        semantic_target_reason_with_config(t, c, trusted)
    }
}

pub open spec fn wait_reason(condition: WaitConditionView, c: RunConfigView, trusted: bool) -> Option<
    Seq<char>,
> {
    match condition {
        WaitConditionView::WindowExists { target } => window_target_reason_with_config(target, c),
        WaitConditionView::WindowFocused { target } => window_target_reason_with_config(target, c),
        WaitConditionView::ProcessRunning { target } => process_target_reason(target),
        WaitConditionView::TargetExists { target } => query_target_reason(target, c, trusted),
        WaitConditionView::TargetFocused { target } => query_target_reason(target, c, trusted),
        WaitConditionView::TargetEnabled { target } => query_target_reason(target, c, trusted),
        WaitConditionView::TargetVisible { target } => query_target_reason(target, c, trusted),
        WaitConditionView::TargetActionable { target } => query_target_reason(target, c, trusted),
        WaitConditionView::TargetNotExists { target } => query_target_reason(target, c, trusted),
        WaitConditionView::TargetNameContains { target, text } => query_target_reason(
            target,
            c,
            trusted,
        ),
        WaitConditionView::TargetValueContains { target, text } => if !c.allow_value_capture {
            Some("runtime value reads require explicit allowValueCapture approval"@)
        } else {
            semantic_target_reason_with_config(target, c, trusted)
        },
        WaitConditionView::Duration { duration } => None,
        WaitConditionView::FileExists { path } => None,
        WaitConditionView::CommandExits { command, args } => None,
    }
}

/// Why the adapter refuses an action, if it does.
pub open spec fn action_reason(a: ActionView, c: RunConfigView, trusted: bool) -> Option<
    Seq<char>,
> {
    match a {
        ActionView::LaunchUrl { url, target: Some(t) } => launch_target_reason(t, c),
        ActionView::LaunchApp { app, target: Some(t) } => launch_target_reason(t, c),
        ActionView::OpenFile { path, target: Some(t) } => launch_target_reason(t, c),
        ActionView::FocusWindow { target } => focus_window_target_reason(target, c, trusted),
        ActionView::TypeText { text, target: Some(t) } => input_target_reason(t, c, trusted),
        ActionView::PressKey { keys, target: Some(t) } => input_target_reason(t, c, trusted),
        ActionView::Scroll { delta_x, delta_y, target: Some(t) } => input_target_reason(
            t,
            c,
            trusted,
        ),
        ActionView::ClickTarget { target } => input_target_reason(target, c, trusted),
        ActionView::WaitFor { condition } => wait_reason(condition, c, trusted),
        ActionView::Assert { assertion } => match assertion {
            AssertionView::TargetExists { target } => if target.image is Some {
                image_target_reason(target, c)
            } else if target.accessibility is Some {
                semantic_target_reason_with_config(target, c, trusted)
            } else {
                window_target_reason_with_config(target, c)
            },
            AssertionView::Condition { condition } => wait_reason(condition, c, trusted),
        },
        _ => None,
    }
}

/// Whether a condition asks about an element.
pub open spec fn asks_element(condition: WaitConditionView) -> bool {
    !(condition is WindowExists || condition is WindowFocused || condition is ProcessRunning)
}

/// The element, picture or point that an action is done to or asks about.
pub open spec fn element_target(a: ActionView) -> Option<TargetView> {
    match a {
        ActionView::WaitFor { condition } => if asks_element(condition) {
            asked_about(condition)
        } else {
            None
        },
        ActionView::Assert { assertion } => match assertion {
            AssertionView::TargetExists { target } => if target.accessibility is Some {
                Some(target)
            } else {
                None
            },
            AssertionView::Condition { condition } => if asks_element(condition) {
                asked_about(condition)
            } else {
                None
            },
        },
        _ => acted_on(a),
    }
}

/// Without the approvals no picture is looked for, no point is acted on, no element is reached by
/// its path alone and no value is read; without Accessibility permission nothing is done to or
/// asked about elements, and no window is focused.
pub proof fn policy_gates(a: ActionView, c: RunConfigView, trusted: bool)
    ensures
        acted_on(a) matches Some(t) && t.coordinates is Some && t.image is None
            && !c.allow_coordinate_targets ==> action_reason(a, c, trusted) is Some,
        named_target(a) matches Some(t) && t.image is Some && !(c.allow_image_targets
            && c.allow_screenshot_capture) ==> action_reason(a, c, trusted) is Some,
        element_target(a) matches Some(t) && t.image is None && path_only(t)
            && !c.allow_path_only_selectors ==> action_reason(a, c, trusted) is Some,
        element_target(a) matches Some(t) && t.coordinates is None && t.image is None && !trusted
            ==> action_reason(a, c, trusted) is Some,
        a is FocusWindow && !trusted ==> action_reason(a, c, trusted) is Some,
        reads_value(a) && !c.allow_value_capture ==> action_reason(a, c, trusted) is Some,
{
}

pub fn unsupported_image_target_reason(target: &Target, config: &RunConfig) -> (r: Option<
    &'static str,
>)
    ensures
        reason_text(r) == image_target_reason(target@, config@),
{
    if target.image.is_none() {
        None
    } else if !config.allow_image_targets {
        Some("image targets require explicit allowImageTargets approval")
    } else if !config.allow_screenshot_capture {
        Some("image targets require explicit allowScreenshotCapture approval")
    } else {
        None
    }
}

pub fn unsupported_window_target_reason(target: &Target) -> (r: Option<&'static str>)
    ensures
        reason_text(r) == window_target_reason(target@),
{
    if target.url.is_some() || target.file_path.is_some() {
        Some(
            "macOS window selectors currently support appName, processName, windowTitle, and titleContains",
        )
    } else {
        None
    }
}

pub fn unsupported_coordinate_target_reason(target: &Target, config: &RunConfig) -> (r: Option<
    &'static str,
>)
    ensures
        reason_text(r) == coordinate_target_reason(target@, config@),
{
    if !config.allow_coordinate_targets {
        return Some("coordinate targets require explicit allowCoordinateTargets approval");
    }
    if target.window_title.is_some() || target.title_contains.is_some() || target.app_name.is_some()
        || target.process_name.is_some() || target.url.is_some() || target.file_path.is_some()
        || target.accessibility.is_some() || target.image.is_some() {
        return Some("macOS coordinate clicks currently support only absolute screen coordinates");
    }
    None
}

pub fn unsupported_window_target_reason_with_config(target: &Target, config: &RunConfig) -> (r: Option<
    &'static str,
>)
    ensures
        reason_text(r) == window_target_reason_with_config(target@, config@),
{
    if target.image.is_some() {
        unsupported_image_target_reason(target, config)
    } else if target.coordinates.is_some() {
        unsupported_coordinate_target_reason(target, config)
    } else {
        unsupported_window_target_reason(target)
    }
}

pub fn unsupported_launch_target_reason(target: &Target, config: &RunConfig) -> (r: Option<
    &'static str,
>)
    ensures
        reason_text(r) == launch_target_reason(target@, config@),
{
    if target.image.is_some() {
        unsupported_image_target_reason(target, config)
    } else if target.coordinates.is_some() {
        Some("launch targets do not support coordinate selectors")
    } else {
        unsupported_window_target_reason_with_config(target, config)
    }
}

pub fn unsupported_focus_window_target_reason(target: &Target, config: &RunConfig, trusted: bool) -> (r:
    Option<&'static str>)
    ensures
        reason_text(r) == focus_window_target_reason(target@, config@, trusted),
{
    if !trusted {
        Some("macOS Accessibility permission is required for window focus automation")
    } else {
        unsupported_window_target_reason_with_config(target, config)
    }
}

pub fn unsupported_semantic_target_reason(target: &Target) -> (r: Option<&'static str>)
    ensures
        reason_text(r) == semantic_target_reason(target@),
{
    if target.accessibility.is_none() {
        return Some("semantic targets require an accessibility selector");
    }
    if target.window_title.is_none() && target.title_contains.is_none() && target.app_name.is_none()
        && target.process_name.is_none() {
        return Some("semantic targets require a window/app selector");
    }
    unsupported_window_target_reason(target)
}

fn is_path_only(target: &Target) -> (r: bool)
    ensures
        r == path_only(target@),
{
    match &target.accessibility {
        Some(a) => a.path.is_some() && a.id.is_none() && a.name.is_none()
            && a.control_type.is_none(),
        None => false,
    }
}

pub fn unsupported_semantic_target_reason_with_config(
    target: &Target,
    config: &RunConfig,
    trusted: bool,
) -> (r: Option<&'static str>)
    ensures
        reason_text(r) == semantic_target_reason_with_config(target@, config@, trusted),
{
    if let Some(reason) = unsupported_image_target_reason(target, config) {
        return Some(reason);
    }
    if is_path_only(target) && !config.allow_path_only_selectors {
        return Some(
            "path-only accessibility selectors require explicit allowPathOnlySelectors approval",
        );
    }
    if !trusted {
        return Some("macOS Accessibility permission is required for semantic automation");
    }
    unsupported_semantic_target_reason(target)
}

/// The process that a query is about: the one of the given name, else that of the application.
pub fn process_name(target: &Target) -> (r: Result<&str, AdapterError>)
    ensures
        match r {
            Ok(name) => process_target_reason(target@) is None && (target@.process_name == Some(
                name@,
            ) || (target@.process_name is None && target@.app_name == Some(name@))),
            Err(e) => process_target_reason(target@) matches Some(reason) && e@ == refusal(reason),
        },
{
    match reject_unsupported_target(unsupported_process_target_reason(target)) {
        Ok(_) => {},
        Err(e) => {
            return Err(e);
        },
    }
    match (&target.process_name, &target.app_name) {
        (Some(name), _) => Ok(name.as_str()),
        (None, Some(name)) => Ok(name.as_str()),
        (None, None) => Err(
            AdapterError::unsupported(
                "macOS processRunning requires processName or appName".to_owned(),
            ),
        ),
    }
}

pub fn unsupported_process_target_reason(target: &Target) -> (r: Option<&'static str>)
    ensures
        reason_text(r) == process_target_reason(target@),
{
    if target.window_title.is_some() || target.title_contains.is_some() || target.url.is_some()
        || target.file_path.is_some() || target.accessibility.is_some() || target.image.is_some()
        || target.coordinates.is_some() || !target.platform_selectors.is_empty() {
        return Some(
            "macOS process queries currently support only processName or appName selectors",
        );
    }
    if target.process_name.is_none() && target.app_name.is_none() {
        return Some("macOS process queries require a processName or appName selector");
    }
    None
}

pub fn unsupported_input_target_reason(target: &Target, config: &RunConfig, trusted: bool) -> (r: Option<
    &'static str,
>)
    ensures
        reason_text(r) == input_target_reason(target@, config@, trusted),
{
    if target.image.is_some() {
        unsupported_image_target_reason(target, config)
    } else if target.coordinates.is_some() {
        unsupported_coordinate_target_reason(target, config)
    } else {
        unsupported_semantic_target_reason_with_config(target, config, trusted)
    }
}

fn unsupported_query_target_reason(target: &Target, config: &RunConfig, trusted: bool) -> (r: Option<
    &'static str,
>)
    ensures
        reason_text(r) == query_target_reason(target@, config@, trusted),
{
    if target.image.is_some() {
        unsupported_image_target_reason(target, config)
    } else {
        unsupported_semantic_target_reason_with_config(target, config, trusted)
    }
}

pub fn unsupported_wait_reason(condition: &WaitCondition, config: &RunConfig, trusted: bool) -> (r:
    Option<&'static str>)
    ensures
        reason_text(r) == wait_reason(condition@, config@, trusted),
{
    match condition {
        WaitCondition::WindowExists { target } | WaitCondition::WindowFocused { target } =>
            unsupported_window_target_reason_with_config(target, config),
        WaitCondition::ProcessRunning { target } => unsupported_process_target_reason(target),
        WaitCondition::TargetExists { target }
        | WaitCondition::TargetFocused { target }
        | WaitCondition::TargetEnabled { target }
        | WaitCondition::TargetVisible { target }
        | WaitCondition::TargetActionable { target }
        | WaitCondition::TargetNotExists { target } => unsupported_query_target_reason(
            target,
            config,
            trusted,
        ),
        WaitCondition::TargetNameContains { target, .. } => unsupported_query_target_reason(
            target,
            config,
            trusted,
        ),
        WaitCondition::TargetValueContains { target, .. } => {
            if !config.allow_value_capture {
                Some("runtime value reads require explicit allowValueCapture approval")
            } else {
                unsupported_semantic_target_reason_with_config(target, config, trusted)
            }
        },
        WaitCondition::Duration { .. }
        | WaitCondition::FileExists { .. }
        | WaitCondition::CommandExits { .. } => None,
    }
}

/// Why the adapter refuses an action, if it does.
pub fn unsupported_action_reason(action: &Action, config: &RunConfig, trusted: bool) -> (r: Option<
    &'static str,
>)
    ensures
        reason_text(r) == action_reason(action@, config@, trusted),
{
    match action {
        Action::LaunchUrl { target, .. }
        | Action::LaunchApp { target, .. }
        | Action::OpenFile { target, .. } => match target {
            Some(target) => unsupported_launch_target_reason(target, config),
            None => None,
        },
        Action::FocusWindow { target } => unsupported_focus_window_target_reason(
            target,
            config,
            trusted,
        ),
        Action::TypeText { target, .. }
        | Action::PressKey { target, .. }
        | Action::Scroll { target, .. } => match target {
            Some(target) => unsupported_input_target_reason(target, config, trusted),
            None => None,
        },
        Action::ClickTarget { target } => unsupported_input_target_reason(target, config, trusted),
        Action::WaitFor { condition } => unsupported_wait_reason(condition, config, trusted),
        Action::Assert { assertion } => match assertion {
            Assertion::TargetExists { target } => {
                if target.image.is_some() {
                    unsupported_image_target_reason(target, config)
                } else if target.accessibility.is_some() {
                    unsupported_semantic_target_reason_with_config(target, config, trusted)
                } else {
                    unsupported_window_target_reason_with_config(target, config)
                }
            },
            Assertion::Condition { condition } => unsupported_wait_reason(
                condition,
                config,
                trusted,
            ),
        },
        Action::RunCommand { .. } => None,
    }
}

/// The error for what is not approved.
pub open spec fn policy_denied(message: Seq<char>) -> AdapterErrorView {
    AdapterErrorView {
        message,
        kind: RunErrorKind::Adapter,
        diagnostics: Some("failureKind=policyDenied"@),
        failure_kind: Some(FailureKind::PolicyDenied),
    }
}

pub fn policy_denied_error(message: String) -> (r: AdapterError)
    ensures
        r@ == policy_denied(message@),
{
    AdapterError::new(message).with_failure_kind(FailureKind::PolicyDenied).with_source(
        "failureKind=policyDenied".to_owned(),
    )
}

/// Whether values of elements may be read in this run.
pub fn ensure_value_reads(config: &RunConfig) -> (r: Result<(), AdapterError>)
    ensures
        match r {
            Ok(_) => config@.allow_value_capture,
            Err(e) => !config@.allow_value_capture && e@ == policy_denied(
                "runtime value reads require explicit allowValueCapture approval"@,
            ),
        },
{
    if config.allow_value_capture {
        Ok(())
    } else {
        Err(
            policy_denied_error(
                "runtime value reads require explicit allowValueCapture approval".to_owned(),
            ),
        )
    }
}

/// The error for an action that is refused: one that an approval would admit is denied by policy,
/// any other is unsupported.
pub open spec fn refusal(reason: Seq<char>) -> AdapterErrorView {
    if contains_text(reason, "require explicit"@) {
        policy_denied(reason)
    } else {
        plain_error(RunErrorKind::Unsupported, reason)
    }
}

/// Turns a reason to refuse into an error.
pub fn reject_unsupported_target(reason: Option<&'static str>) -> (r: Result<(), AdapterError>)
    ensures
        match r {
            Ok(_) => reason is None,
            Err(e) => reason matches Some(text) && e@ == refusal(text@),
        },
{
    match reason {
        Some(text) => if contains(text, "require explicit") {
            Err(policy_denied_error(text.to_owned()))
        } else {
            Err(AdapterError::unsupported(text.to_owned()))
        },
        None => Ok(()),
    }
}

/// What is in the way of an action.
pub open spec fn preflight_of(a: ActionView, c: RunConfigView, trusted: bool) -> Seq<
    PreflightDiagnosticView,
> {
    match action_reason(a, c, trusted) {
        Some(reason) => seq![
            PreflightDiagnosticView {
                severity: PreflightSeverity::Error,
                code: if contains_text(reason, "Accessibility permission"@) {
                    "accessibility-permission-missing"@
                } else {
                    "capability-unavailable"@
                },
                message: reason,
                step_id: None,
            },
        ],
        None => Seq::empty(),
    }
}

/// What is in the way of an action.
pub fn preflight(action: &Action, config: &RunConfig, trusted: bool) -> (r: Vec<PreflightDiagnostic>)
    ensures
        views(r@) == preflight_of(action@, config@, trusted),
{
    let mut found: Vec<PreflightDiagnostic> = Vec::new();
    if let Some(reason) = unsupported_action_reason(action, config, trusted) {
        let code = if contains(reason, "Accessibility permission") {
            "accessibility-permission-missing"
        } else {
            "capability-unavailable"
        };
        found.push(
            PreflightDiagnostic {
                severity: PreflightSeverity::Error,
                code: code.to_owned(),
                message: reason.to_owned(),
                step_id: None,
            },
        );
    }
    assert(views(found@) =~= preflight_of(action@, config@, trusted));
    found
}

} // verus!
