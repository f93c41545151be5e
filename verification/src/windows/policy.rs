//! What the Windows adapter refuses to do.
use vstd::prelude::*;
use crate::adapter::{plain_error, AdapterError, AdapterErrorView};
use crate::definition::{
    Action, ActionView, Assertion, AssertionView, Target, TargetView, WaitCondition,
    WaitConditionView,
};
use crate::run::{
    FailureKind, PreflightDiagnostic, PreflightDiagnosticView, PreflightSeverity, RunConfig,
    RunConfigView, RunErrorKind,
};
use crate::validate::no_selectors;
use crate::views::views;

verus! {

/// What an optional text stands for.
pub open spec fn reason_text(reason: Option<&'static str>) -> Option<Seq<char>> {
    match reason {
        Some(text) => Some(text@),
        None => None,
    }
}

/// Image targets need two approvals.
pub open spec fn image_target_reason(t: TargetView, c: RunConfigView) -> Option<Seq<char>> {
    if t.image is None {
        None
    } else if !c.allow_image_targets {
        Some("image targets require explicit allowImageTargets approval"@)
    } else if !c.allow_screenshot_capture {
        Some("image target matching requires explicit allowScreenshotCapture approval"@)
    } else {
        None
    }
}

/// A window is found by exactly one of its title and a part of its title, and by nothing else.
pub open spec fn window_target_reason(t: TargetView) -> Option<Seq<char>> {
    if t.app_name is Some || t.process_name is Some || t.url is Some || t.file_path is Some
        || t.accessibility is Some || t.image is Some || t.coordinates is Some || !no_selectors(
        t.platform_selectors,
    ) {
        Some(
            "Windows window queries currently support only a windowTitle or titleContains selector"@,
        )
    } else if t.window_title is Some && t.title_contains is Some {
        Some("Windows window queries require exactly one of windowTitle or titleContains"@)
    } else if t.window_title is None && t.title_contains is None {
        Some("Windows window queries require windowTitle or titleContains"@)
    } else {
        None
    }
}

pub open spec fn first_reason(a: Option<Seq<char>>, b: Option<Seq<char>>) -> Option<Seq<char>> {
    if a is Some {
        a
    } else {
        b
    }
}

pub open spec fn window_target_reason_with_config(t: TargetView, c: RunConfigView) -> Option<
    Seq<char>,
> {
    first_reason(image_target_reason(t, c), window_target_reason(t))
}

pub open spec fn image_action_target_reason(t: TargetView, c: RunConfigView) -> Option<Seq<char>> {
    first_reason(
        image_target_reason(t, c),
        window_target_reason(TargetView { image: None, ..t }),
    )
}

/// Whether a target is found by nothing but the place of an element in its window.
pub open spec fn path_only(t: TargetView) -> bool {
    t.accessibility matches Some(a) && a.path is Some && a.id is None && a.name is None
        && a.control_type is None
}

pub open spec fn semantic_target_reason(t: TargetView, c: RunConfigView) -> Option<Seq<char>> {
    first_reason(
        image_target_reason(t, c),
        if t.image is Some {
            Some(
                "Windows semantic target operations do not support image selectors; use accessibility selectors or clickTarget image matching"@,
            )
        } else if t.accessibility is None {
            Some("semantic target operations require an accessibility selector"@)
        } else if path_only(t) && !c.allow_path_only_selectors {
            Some(
                "path-only accessibility selectors require explicit allowPathOnlySelectors approval"@,
            )
        } else {
            window_target_reason(TargetView { accessibility: None, ..t })
        },
    )
}

pub open spec fn coordinate_target_reason(t: TargetView, c: RunConfigView) -> Option<Seq<char>> {
    first_reason(
        image_target_reason(t, c),
        if !c.allow_coordinate_targets {
            Some("coordinate targets require explicit allowCoordinateTargets approval"@)
        } else if t.app_name is Some || t.process_name is Some || t.window_title is Some
            || t.title_contains is Some || t.url is Some || t.file_path is Some
            || t.accessibility is Some || t.image is Some || !no_selectors(t.platform_selectors) {
            Some("Windows coordinate clicks currently support only absolute screen coordinates"@)
        } else {
            None
        },
    )
}

/// Whether a target says anything beside a process name.
pub open spec fn more_than_process(t: TargetView) -> bool {
    t.app_name is Some || t.window_title is Some || t.title_contains is Some || t.url is Some
        || t.file_path is Some || t.accessibility is Some || t.image is Some || t.coordinates is Some
        || !no_selectors(t.platform_selectors)
}

pub open spec fn process_target_reason(t: TargetView) -> Option<Seq<char>> {
    if more_than_process(t) {
        Some("Windows process queries currently support only a processName selector"@)
    } else if t.process_name is None {
        Some("Windows process queries require a processName selector"@)
    } else {
        None
    }
}

/// A command runs only under the exact name that was approved.
pub open spec fn command_reason(command: Seq<char>, c: RunConfigView) -> Option<Seq<char>> {
    if c.approved_commands.contains(command) {
        None
    } else {
        Some("command is not approved for this run"@)
    }
}

pub open spec fn wait_reason(condition: WaitConditionView, c: RunConfigView) -> Option<Seq<char>> {
    match condition {
        WaitConditionView::WindowExists { target } => if target.accessibility is Some {
            semantic_target_reason(target, c)
        } else {
            window_target_reason(target)
        },
        WaitConditionView::WindowFocused { target } => if target.accessibility is Some {
            semantic_target_reason(target, c)
        } else {
            window_target_reason(target)
        },
        WaitConditionView::TargetExists { target } => if target.image is Some {
            image_action_target_reason(target, c)
        } else {
            semantic_target_reason(target, c)
        },
        WaitConditionView::TargetNotExists { target } => if target.image is Some {
            image_action_target_reason(target, c)
        } else {
            semantic_target_reason(target, c)
        },
        WaitConditionView::TargetFocused { target } => semantic_target_reason(target, c),
        WaitConditionView::TargetEnabled { target } => semantic_target_reason(target, c),
        WaitConditionView::TargetVisible { target } => semantic_target_reason(target, c),
        WaitConditionView::TargetActionable { target } => semantic_target_reason(target, c),
        WaitConditionView::TargetNameContains { target, text } => semantic_target_reason(target, c),
        WaitConditionView::TargetValueContains { target, text } => if !c.allow_value_capture {
            Some("targetValueContains requires explicit allowValueCapture approval"@)
        } else {
            semantic_target_reason(target, c)
        },
        WaitConditionView::ProcessRunning { target } => process_target_reason(target),
        WaitConditionView::CommandExits { command, args } => command_reason(command, c),
        WaitConditionView::Duration { duration } => None,
        WaitConditionView::FileExists { path } => None,
    }
}

pub open spec fn click_reason(target: TargetView, c: RunConfigView) -> Option<Seq<char>> {
    if target.coordinates is Some {
        coordinate_target_reason(target, c)
    } else if target.image is Some {
        image_action_target_reason(target, c)
    } else {
        semantic_target_reason(target, c)
    }
}

pub open spec fn opt_reason(
    target: Option<TargetView>,
    reason: spec_fn(TargetView) -> Option<Seq<char>>,
) -> Option<Seq<char>> {
    match target {
        Some(t) => reason(t),
        None => None,
    }
}

/// Why the adapter refuses an action, if it does.
pub open spec fn action_reason(a: ActionView, c: RunConfigView) -> Option<Seq<char>> {
    match a {
        ActionView::LaunchUrl { url, target } => opt_reason(
            target,
            |t: TargetView| window_target_reason_with_config(t, c),
        ),
        ActionView::LaunchApp { app, target } => opt_reason(
            target,
            |t: TargetView| window_target_reason_with_config(t, c),
        ),
        ActionView::OpenFile { path, target } => opt_reason(
            target,
            |t: TargetView| window_target_reason_with_config(t, c),
        ),
        ActionView::FocusWindow { target } => window_target_reason_with_config(target, c),
        ActionView::ClickTarget { target } => click_reason(target, c),
        ActionView::TypeText { text, target } => opt_reason(
            target,
            |t: TargetView| semantic_target_reason(t, c),
        ),
        ActionView::PressKey { keys, target } => opt_reason(
            target,
            |t: TargetView| semantic_target_reason(t, c),
        ),
        ActionView::Scroll { delta_x, delta_y, target } => opt_reason(
            target,
            |t: TargetView| semantic_target_reason(t, c),
        ),
        ActionView::RunCommand { command, args } => command_reason(command, c),
        ActionView::WaitFor { condition } => wait_reason(condition, c),
        ActionView::Assert { assertion } => match assertion {
            AssertionView::TargetExists { target } => if target.image is Some {
                image_action_target_reason(target, c)
            } else if target.accessibility is Some {
                semantic_target_reason(target, c)
            } else {
                window_target_reason_with_config(target, c)
            },
            AssertionView::Condition { condition } => wait_reason(condition, c),
        },
    }
}

/// The target that an action types into, presses keys in, scrolls or clicks.
pub open spec fn acted_on(a: ActionView) -> Option<TargetView> {
    match a {
        ActionView::TypeText { text, target } => target,
        ActionView::PressKey { keys, target } => target,
        ActionView::Scroll { delta_x, delta_y, target } => target,
        ActionView::ClickTarget { target } => Some(target),
        _ => None,
    }
}

/// The target that a condition asks about.
pub open spec fn asked_about(condition: WaitConditionView) -> Option<TargetView> {
    match condition {
        WaitConditionView::WindowExists { target } => Some(target),
        WaitConditionView::WindowFocused { target } => Some(target),
        WaitConditionView::ProcessRunning { target } => Some(target),
        WaitConditionView::TargetExists { target } => Some(target),
        WaitConditionView::TargetFocused { target } => Some(target),
        WaitConditionView::TargetEnabled { target } => Some(target),
        WaitConditionView::TargetVisible { target } => Some(target),
        WaitConditionView::TargetActionable { target } => Some(target),
        WaitConditionView::TargetNotExists { target } => Some(target),
        WaitConditionView::TargetNameContains { target, text } => Some(target),
        WaitConditionView::TargetValueContains { target, text } => Some(target),
        _ => None,
    }
}

/// The target that an action names.
pub open spec fn named_target(a: ActionView) -> Option<TargetView> {
    match a {
        ActionView::LaunchUrl { url, target } => target,
        ActionView::LaunchApp { app, target } => target,
        ActionView::OpenFile { path, target } => target,
        ActionView::FocusWindow { target } => Some(target),
        ActionView::WaitFor { condition } => asked_about(condition),
        ActionView::Assert { assertion } => match assertion {
            AssertionView::TargetExists { target } => Some(target),
            AssertionView::Condition { condition } => asked_about(condition),
        },
        _ => acted_on(a),
    }
}

/// Whether an action reads the value of an element.
pub open spec fn reads_value(a: ActionView) -> bool {
    match a {
        ActionView::WaitFor { condition } => condition is TargetValueContains,
        ActionView::Assert { assertion: AssertionView::Condition { condition } } => condition is TargetValueContains,
        _ => false,
    }
}

/// Without the approvals no action with a path-only, coordinate or image target is accepted, no
/// value is read, and no command is run.
pub proof fn policy_gates(a: ActionView, c: RunConfigView)
    ensures
        named_target(a) matches Some(t) && t.coordinates is Some && !c.allow_coordinate_targets
            ==> action_reason(a, c) is Some,
        named_target(a) matches Some(t) && t.image is Some && !(c.allow_image_targets
            && c.allow_screenshot_capture) ==> action_reason(a, c) is Some,
        named_target(a) matches Some(t) && path_only(t) && !c.allow_path_only_selectors
            ==> action_reason(a, c) is Some,
        a matches ActionView::RunCommand { command, args } && !c.approved_commands.contains(command)
            ==> action_reason(a, c) is Some,
        reads_value(a) && !c.allow_value_capture ==> action_reason(a, c) is Some,
{
}

pub fn unsupported_image_target_reason(target: &Target, config: &RunConfig) -> (r: Option<
    &'static str,
>)
    ensures
        reason_text(r) == image_target_reason(target@, config@),
{
    if target.image.is_none() {
        None
    } else if !config.allow_image_targets {
        Some("image targets require explicit allowImageTargets approval")
    } else if !config.allow_screenshot_capture {
        Some("image target matching requires explicit allowScreenshotCapture approval")
    } else {
        None
    }
}

pub fn unsupported_window_target_reason(target: &Target) -> (r: Option<&'static str>)
    ensures
        reason_text(r) == window_target_reason(target@),
{
    if target.app_name.is_some() || target.process_name.is_some() || target.url.is_some()
        || target.file_path.is_some() || target.accessibility.is_some() || target.image.is_some()
        || target.coordinates.is_some() || !target.platform_selectors.is_empty() {
        return Some(
            "Windows window queries currently support only a windowTitle or titleContains selector",
        );
    }
    if target.window_title.is_some() && target.title_contains.is_some() {
        return Some("Windows window queries require exactly one of windowTitle or titleContains");
    }
    if target.window_title.is_none() && target.title_contains.is_none() {
        return Some("Windows window queries require windowTitle or titleContains");
    }
    None
}

pub fn unsupported_window_target_reason_with_config(target: &Target, config: &RunConfig) -> (r: Option<
    &'static str,
>)
    ensures
        reason_text(r) == window_target_reason_with_config(target@, config@),
{
    match unsupported_image_target_reason(target, config) {
        Some(reason) => Some(reason),
        None => unsupported_window_target_reason(target),
    }
}

pub fn unsupported_launch_target_reason(target: &Target, config: &RunConfig) -> (r: Option<
    &'static str,
>)
    ensures
        reason_text(r) == window_target_reason_with_config(target@, config@),
{
    unsupported_window_target_reason_with_config(target, config)
}

pub fn unsupported_image_action_target_reason(target: &Target, config: &RunConfig) -> (r: Option<
    &'static str,
>)
    ensures
        reason_text(r) == image_action_target_reason(target@, config@),
{
    match unsupported_image_target_reason(target, config) {
        Some(reason) => Some(reason),
        None => {
            let mut window_target = target.clone();
            window_target.image = None;
            unsupported_window_target_reason(&window_target)
        },
    }
}

fn is_path_only(target: &Target) -> (r: bool)
    ensures
        r == path_only(target@),
{
    match &target.accessibility {
        Some(a) => a.path.is_some() && a.id.is_none() && a.name.is_none()
            && a.control_type.is_none(),
        None => false,
    }
}

pub fn unsupported_semantic_target_reason_with_config(target: &Target, config: &RunConfig) -> (r:
    Option<&'static str>)
    ensures
        reason_text(r) == semantic_target_reason(target@, config@),
{
    if let Some(reason) = unsupported_image_target_reason(target, config) {
        return Some(reason);
    }
    if target.image.is_some() {
        return Some(
            "Windows semantic target operations do not support image selectors; use accessibility selectors or clickTarget image matching",
        );
    }
    if target.accessibility.is_none() {
        return Some("semantic target operations require an accessibility selector");
    }
    if is_path_only(target) && !config.allow_path_only_selectors {
        return Some(
            "path-only accessibility selectors require explicit allowPathOnlySelectors approval",
        );
    }
    let mut window_target = target.clone();
    window_target.accessibility = None;
    unsupported_window_target_reason(&window_target)
}

pub fn unsupported_coordinate_target_reason(target: &Target, config: &RunConfig) -> (r: Option<
    &'static str,
>)
    ensures
        reason_text(r) == coordinate_target_reason(target@, config@),
{
    if let Some(reason) = unsupported_image_target_reason(target, config) {
        return Some(reason);
    }
    if !config.allow_coordinate_targets {
        return Some("coordinate targets require explicit allowCoordinateTargets approval");
    }
    if target.app_name.is_some() || target.process_name.is_some() || target.window_title.is_some()
        || target.title_contains.is_some() || target.url.is_some() || target.file_path.is_some()
        || target.accessibility.is_some() || target.image.is_some()
        || !target.platform_selectors.is_empty() {
        return Some(
            "Windows coordinate clicks currently support only absolute screen coordinates",
        );
    }
    None
}

/// The process that a query is about.
pub fn process_name(target: &Target) -> (r: Result<&str, AdapterError>)
    ensures
        match r {
            Ok(name) => process_target_reason(target@) is None && target@.process_name == Some(
                name@,
            ),
            Err(e) => process_target_reason(target@) matches Some(reason) && e@ == plain_error(
                RunErrorKind::Unsupported,
                reason,
            ),
        },
{
    if target.app_name.is_some() || target.window_title.is_some() || target.title_contains.is_some()
        || target.url.is_some() || target.file_path.is_some() || target.accessibility.is_some()
        || target.image.is_some() || target.coordinates.is_some()
        || !target.platform_selectors.is_empty() {
        return Err(
            AdapterError::unsupported(
                "Windows process queries currently support only a processName selector".to_owned(),
            ),
        );
    }
    match &target.process_name {
        Some(name) => Ok(name.as_str()),
        None => Err(
            AdapterError::unsupported(
                "Windows process queries require a processName selector".to_owned(),
            ),
        ),
    }
}

pub fn unsupported_process_target_reason(target: &Target) -> (r: Option<&'static str>)
    ensures
        reason_text(r) == process_target_reason(target@),
{
    if target.app_name.is_some() || target.window_title.is_some() || target.title_contains.is_some()
        || target.url.is_some() || target.file_path.is_some() || target.accessibility.is_some()
        || target.image.is_some() || target.coordinates.is_some()
        || !target.platform_selectors.is_empty() {
        return Some("Windows process queries currently support only a processName selector");
    }
    if target.process_name.is_none() {
        return Some("Windows process queries require a processName selector");
    }
    None
}

pub fn unsupported_command_reason(command: &str, config: &RunConfig) -> (r: Option<&'static str>)
    ensures
        reason_text(r) == command_reason(command@, config@),
{
    if config.approved_commands.contains(command) {
        None
    } else {
        Some("command is not approved for this run")
    }
}

pub fn unsupported_wait_reason(condition: &WaitCondition, config: &RunConfig) -> (r: Option<
    &'static str,
>)
    ensures
        reason_text(r) == wait_reason(condition@, config@),
{
    match condition {
        WaitCondition::WindowExists { target } | WaitCondition::WindowFocused { target } => {
            if target.accessibility.is_some() {
                unsupported_semantic_target_reason_with_config(target, config)
            } else {
                unsupported_window_target_reason(target)
            }
        },
        WaitCondition::TargetExists { target } | WaitCondition::TargetNotExists { target } => {
            if target.image.is_some() {
                unsupported_image_action_target_reason(target, config)
            } else {
                unsupported_semantic_target_reason_with_config(target, config)
            }
        },
        WaitCondition::TargetFocused { target }
        | WaitCondition::TargetEnabled { target }
        | WaitCondition::TargetVisible { target }
        | WaitCondition::TargetActionable { target } =>
            unsupported_semantic_target_reason_with_config(target, config),
        WaitCondition::TargetNameContains { target, .. } =>
            unsupported_semantic_target_reason_with_config(target, config),
        WaitCondition::TargetValueContains { target, .. } => {
            if !config.allow_value_capture {
                Some("targetValueContains requires explicit allowValueCapture approval")
            } else {
                unsupported_semantic_target_reason_with_config(target, config)
            }
        },
        WaitCondition::ProcessRunning { target } => unsupported_process_target_reason(target),
        WaitCondition::CommandExits { command, .. } => unsupported_command_reason(
            command.as_str(),
            config,
        ),
        WaitCondition::Duration { .. } | WaitCondition::FileExists { .. } => None,
    }
}

/// Why the adapter refuses an action, if it does.
pub fn unsupported_action_reason(action: &Action, config: &RunConfig) -> (r: Option<&'static str>)
    ensures
        reason_text(r) == action_reason(action@, config@),
{
    match action {
        Action::LaunchUrl { target, .. }
        | Action::LaunchApp { target, .. }
        | Action::OpenFile { target, .. } => match target {
            Some(target) => unsupported_launch_target_reason(target, config),
            None => None,
        },
        Action::FocusWindow { target } => unsupported_window_target_reason_with_config(
            target,
            config,
        ),
        Action::ClickTarget { target } => {
            if target.coordinates.is_some() {
                unsupported_coordinate_target_reason(target, config)
            } else if target.image.is_some() {
                unsupported_image_action_target_reason(target, config)
            } else {
                unsupported_semantic_target_reason_with_config(target, config)
            }
        },
        Action::TypeText { target, .. }
        | Action::PressKey { target, .. }
        | Action::Scroll { target, .. } => match target {
            Some(target) => unsupported_semantic_target_reason_with_config(target, config),
            None => None,
        },
        Action::RunCommand { command, .. } => unsupported_command_reason(command.as_str(), config),
        Action::WaitFor { condition } => unsupported_wait_reason(condition, config),
        Action::Assert { assertion } => match assertion {
            Assertion::TargetExists { target } => {
                if target.image.is_some() {
                    unsupported_image_action_target_reason(target, config)
                } else if target.accessibility.is_some() {
                    unsupported_semantic_target_reason_with_config(target, config)
                } else {
                    unsupported_window_target_reason_with_config(target, config)
                }
            },
            Assertion::Condition { condition } => unsupported_wait_reason(condition, config),
        },
    }
}

/// The error for an action that is refused.
pub open spec fn refusal(reason: Seq<char>) -> AdapterErrorView {
    AdapterErrorView {
        message: reason,
        kind: RunErrorKind::Unsupported,
        diagnostics: None,
        failure_kind: Some(FailureKind::PolicyDenied),
    }
}

/// Turns a reason to refuse into an error.
pub fn reject_unsupported_target(reason: Option<&'static str>) -> (r: Result<(), AdapterError>)
    ensures
        match r {
            Ok(_) => reason is None,
            Err(e) => reason matches Some(text) && e@ == refusal(text@),
        },
{
    match reason {
        Some(text) => Err(
            AdapterError::unsupported(text.to_owned()).with_failure_kind(FailureKind::PolicyDenied),
        ),
        None => Ok(()),
    }
}

/// What is in the way of an action.
pub open spec fn preflight_of(a: ActionView, c: RunConfigView) -> Seq<PreflightDiagnosticView> {
    match action_reason(a, c) {
        Some(reason) => seq![
            PreflightDiagnosticView {
                severity: PreflightSeverity::Error,
                code: "capability-unavailable"@,
                message: reason,
                step_id: None,
            },
        ],
        None => Seq::empty(),
    }
}

/// What is in the way of an action.
pub fn preflight(action: &Action, config: &RunConfig) -> (r: Vec<PreflightDiagnostic>)
    ensures
        views(r@) == preflight_of(action@, config@),
{
    let mut found: Vec<PreflightDiagnostic> = Vec::new();
    if let Some(reason) = unsupported_action_reason(action, config) {
        found.push(
            PreflightDiagnostic {
                severity: PreflightSeverity::Error,
                code: "capability-unavailable".to_owned(),
                message: reason.to_owned(),
                step_id: None,
            },
        );
    }
    assert(views(found@) =~= preflight_of(action@, config@));
    found
}

/// Why a picture may not be looked for, if it may not.
pub open spec fn picture_guard(t: TargetView, c: RunConfigView) -> Option<AdapterErrorView> {
    if t.image is None {
        None
    } else {
        match image_action_target_reason(t, c) {
            Some(reason) => Some(refusal(reason)),
            None => None,
        }
    }
}

/// Why nothing is asked for a condition: a command that is not approved, or a picture that may not be looked for.
pub open spec fn wait_guard(condition: WaitConditionView, c: RunConfigView) -> Option<
    AdapterErrorView,
> {
    match condition {
        WaitConditionView::CommandExits { command, args } => match command_reason(command, c) {
            Some(reason) => Some(plain_error(RunErrorKind::Unsupported, reason)),
            None => None,
        },
        WaitConditionView::TargetExists { target } => picture_guard(target, c),
        WaitConditionView::TargetNotExists { target } => picture_guard(target, c),
        _ => None,
    }
}

/// Why nothing is asked for an assertion.
pub open spec fn assertion_guard(assertion: AssertionView, c: RunConfigView) -> Option<
    AdapterErrorView,
> {
    match assertion {
        AssertionView::TargetExists { target } => picture_guard(target, c),
        AssertionView::Condition { condition } => wait_guard(condition, c),
    }
}

pub fn guard_picture(target: &Target, config: &RunConfig) -> (r: Result<(), AdapterError>)
    ensures
        match r {
            Ok(_) => picture_guard(target@, config@) is None,
            Err(e) => picture_guard(target@, config@) == Some(e@),
        },
{
    if target.image.is_none() {
        return Ok(());
    }
    reject_unsupported_target(unsupported_image_action_target_reason(target, config))
}

pub fn guard_wait(condition: &WaitCondition, config: &RunConfig) -> (r: Result<(), AdapterError>)
    ensures
        match r {
            Ok(_) => wait_guard(condition@, config@) is None,
            Err(e) => wait_guard(condition@, config@) == Some(e@),
        },
{
    match condition {
        WaitCondition::CommandExits { command, .. } => match unsupported_command_reason(
            command.as_str(),
            config,
        ) {
            Some(reason) => Err(AdapterError::unsupported(reason.to_owned())),
            None => Ok(()),
        },
        WaitCondition::TargetExists { target } | WaitCondition::TargetNotExists { target } => {
            guard_picture(target, config)
        },
        _ => Ok(()),
    }
}

/// A command that is not approved is never asked for, neither in a wait nor in an assertion.
pub proof fn unapproved_commands_are_not_asked(
    command: Seq<char>,
    args: Seq<Seq<char>>,
    c: RunConfigView,
)
    requires
        !c.approved_commands.contains(command),
    ensures
        ({
            let condition = WaitConditionView::CommandExits { command, args };
            let error = plain_error(RunErrorKind::Unsupported, "command is not approved for this run"@);
            &&& wait_guard(condition, c) == Some(error)
            &&& assertion_guard((AssertionView::Condition { condition }), c) == Some(error)
        }),
{
}

/// Without the approvals no picture is looked for, whatever asks for it.
pub proof fn pictures_are_not_looked_for(target: TargetView, c: RunConfigView)
    requires
        target.image is Some,
        !(c.allow_image_targets && c.allow_screenshot_capture),
    ensures
        wait_guard((WaitConditionView::TargetExists { target }), c) is Some,
        wait_guard((WaitConditionView::TargetNotExists { target }), c) is Some,
        assertion_guard((AssertionView::TargetExists { target }), c) is Some,
{
}

} // verus!
