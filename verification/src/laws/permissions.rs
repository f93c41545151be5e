//! What the adapters allow, and what they do for an action.
use vstd::prelude::*;
use crate::{macos, windows};
use crate::adapter::AdapterError;
use crate::definition::{
    Action, ActionView, AssertionView, Target, TargetView, WaitCondition, WaitConditionView,
};
use crate::run::{FailureKind, RunConfig, RunConfigView};

verus! {

/// A target names no application, process, address or file, no point, and nothing for one platform.
pub open spec fn nothing_else(t: TargetView) -> bool {
    &&& t.app_name is None && t.process_name is None
    &&& t.url is None && t.file_path is None
    &&& t.coordinates is None
    &&& no_platform(t)
}

pub open spec fn no_platform(t: TargetView) -> bool {
    t.platform_selectors.windows is None && t.platform_selectors.mac_os is None
        && t.platform_selectors.linux is None
}

/// A target gives the title of its window, or a part of it, and not both.
pub open spec fn one_title(t: TargetView) -> bool {
    (t.window_title is Some) != (t.title_contains is Some)
}

/// A target gives nothing of an element but its place.
pub open spec fn by_place_only(t: TargetView) -> bool {
    t.accessibility is Some && t.accessibility->0.path is Some && t.accessibility->0.id is None
        && t.accessibility->0.name is None && t.accessibility->0.control_type is None
}

/// A window, as the Windows adapter takes it.
pub open spec fn window_on_windows(t: TargetView) -> bool {
    nothing_else(t) && one_title(t) && t.accessibility is None && t.image is None
}

/// A picture in a window, as the Windows adapter takes it: both approvals are needed.
pub open spec fn picture_on_windows(t: TargetView, c: RunConfigView) -> bool {
    t.image is Some && c.allow_image_targets && c.allow_screenshot_capture && nothing_else(t)
        && one_title(t) && t.accessibility is None
}

/// An element in a window, as the Windows adapter takes it.
pub open spec fn element_on_windows(t: TargetView, c: RunConfigView) -> bool {
    t.accessibility is Some && t.image is None && nothing_else(t) && one_title(t) && (by_place_only(
        t,
    ) ==> c.allow_path_only_selectors)
}

/// A point on the screen, as the Windows adapter takes it.
pub open spec fn point_on_windows(t: TargetView, c: RunConfigView) -> bool {
    t.coordinates is Some && c.allow_coordinate_targets && t.app_name is None
        && t.process_name is None && t.url is None && t.file_path is None && no_platform(t)
        && t.window_title is None && t.title_contains is None && t.accessibility is None
        && t.image is None
}

pub open spec fn waited_for_on_windows(w: WaitConditionView, c: RunConfigView) -> bool {
    match w {
        WaitConditionView::Duration { .. } => true,
        WaitConditionView::FileExists { .. } => true,
        WaitConditionView::WindowExists { target } => window_on_windows(target)
            || element_on_windows(target, c),
        WaitConditionView::WindowFocused { target } => window_on_windows(target)
            || element_on_windows(target, c),
        WaitConditionView::TargetExists { target } => picture_on_windows(target, c)
            || element_on_windows(target, c),
        WaitConditionView::TargetNotExists { target } => picture_on_windows(target, c)
            || element_on_windows(target, c),
        WaitConditionView::TargetFocused { target } => element_on_windows(target, c),
        WaitConditionView::TargetEnabled { target } => element_on_windows(target, c),
        WaitConditionView::TargetVisible { target } => element_on_windows(target, c),
        WaitConditionView::TargetActionable { target } => element_on_windows(target, c),
        WaitConditionView::TargetNameContains { target, .. } => element_on_windows(target, c),
        WaitConditionView::TargetValueContains { target, .. } => c.allow_value_capture
            && element_on_windows(target, c),
        WaitConditionView::ProcessRunning { target } => target.process_name is Some
            && target.app_name is None && target.url is None && target.file_path is None
            && target.coordinates is None && no_platform(target) && target.window_title is None
            && target.title_contains is None && target.accessibility is None
            && target.image is None,
        WaitConditionView::CommandExits { command, .. } => c.approved_commands.contains(command),
    }
}

/// What the Windows adapter takes on.
pub open spec fn allowed_on_windows(a: ActionView, c: RunConfigView) -> bool {
    match a {
        ActionView::LaunchUrl { target, .. } => target is Some ==> window_on_windows(target->0),
        ActionView::LaunchApp { target, .. } => target is Some ==> window_on_windows(target->0),
        ActionView::OpenFile { target, .. } => target is Some ==> window_on_windows(target->0),
        ActionView::FocusWindow { target } => window_on_windows(target),
        ActionView::TypeText { target, .. } => target is Some ==> element_on_windows(
            target->0,
            c,
        ),
        ActionView::PressKey { target, .. } => target is Some ==> element_on_windows(
            target->0,
            c,
        ),
        ActionView::Scroll { target, .. } => target is Some ==> element_on_windows(target->0, c),
        ActionView::ClickTarget { target } => point_on_windows(target, c) || picture_on_windows(
            target,
            c,
        ) || element_on_windows(target, c),
        ActionView::RunCommand { command, .. } => c.approved_commands.contains(command),
        ActionView::WaitFor { condition } => waited_for_on_windows(condition, c),
        ActionView::Assert { assertion: AssertionView::Condition { condition } } =>
            waited_for_on_windows(condition, c),
        ActionView::Assert { assertion: AssertionView::TargetExists { target } } =>
            picture_on_windows(target, c) || element_on_windows(target, c) || window_on_windows(
            target,
        ),
    }
}

/// The Windows adapter has a reason against an action exactly where the action is none that it
/// takes on with the approvals of the run.
pub proof fn windows_takes_on_what_is_allowed(
    action: &Action,
    config: &RunConfig,
    r: Option<&'static str>,
)
    requires
        call_ensures(windows::policy::unsupported_action_reason, (action, config), r),
    ensures
        r is None <==> allowed_on_windows(action@, config@),
{
}

/// Whether a task is what an action asks for, on Windows.
pub open spec fn does_on_windows(a: ActionView, task: windows::tasks::TaskView) -> bool {
    match (a, task) {
        (
            ActionView::LaunchUrl { url, .. },
            windows::tasks::TaskView::Open { what },
        ) => what == url,
        (
            ActionView::LaunchApp { app, .. },
            windows::tasks::TaskView::Open { what },
        ) => what == app,
        (
            ActionView::OpenFile { path, .. },
            windows::tasks::TaskView::OpenFile { path: opened },
        ) => opened == path,
        (
            ActionView::FocusWindow { target },
            windows::tasks::TaskView::FocusWindow { target: focused },
        ) => focused == target,
        (
            ActionView::TypeText { text, target: None },
            windows::tasks::TaskView::TypeText { text: typed },
        ) => typed == text,
        (
            ActionView::TypeText { text, target: Some(t) },
            windows::tasks::TaskView::SetText { text: typed, target: into },
        ) => typed == text && into == t,
        (
            ActionView::PressKey { keys, target },
            windows::tasks::TaskView::PressKeys { keys: pressed, target: into },
        ) => pressed == keys && into == target,
        (
            ActionView::Scroll { delta_y, target, .. },
            windows::tasks::TaskView::Scroll { delta_y: turned, target: into },
        ) => turned == delta_y && into == target,
        (
            ActionView::ClickTarget { target },
            windows::tasks::TaskView::ClickPoint { x, y },
        ) => target.coordinates is Some && target.coordinates->0.x == x && target.coordinates->0.y
            == y,
        (
            ActionView::ClickTarget { target },
            windows::tasks::TaskView::ClickImage { target: clicked },
        ) => target.image is Some && target.coordinates is None && clicked == target,
        (
            ActionView::ClickTarget { target },
            windows::tasks::TaskView::Invoke { target: clicked },
        ) => target.image is None && target.coordinates is None && clicked == target,
        (
            ActionView::RunCommand { command, args },
            windows::tasks::TaskView::RunCommand { command: run, args: with },
        ) => run == command && with == args,
        _ => false,
    }
}

/// The Windows adapter does what an allowed action asks for, and nothing for one that is not
/// allowed or that is a question.
pub proof fn windows_does_what_is_asked(
    action: &Action,
    config: &RunConfig,
    r: Result<windows::tasks::Task, AdapterError>,
)
    requires
        call_ensures(windows::tasks::plan_task, (action, config), r),
    ensures
        r is Ok <==> allowed_on_windows(action@, config@) && !(action is WaitFor || action
            is Assert),
        r is Ok ==> does_on_windows(action@, r->Ok_0@),
        r is Err && !(action is WaitFor || action is Assert || action is RunCommand)
            ==> r->Err_0@.failure_kind == Some(FailureKind::PolicyDenied),
{
}

/// A launched program is waited for where its window is named; any other action is what it is
/// without waiting.
pub proof fn windows_waits_for_named_windows(
    action: &Action,
    config: &RunConfig,
    r: Result<windows::tasks::Task, AdapterError>,
)
    requires
        call_ensures(windows::tasks::plan_task_with_control, (action, config), r),
    ensures
        r is Ok <==> allowed_on_windows(action@, config@) && !(action is WaitFor || action
            is Assert),
        r is Ok ==> match action@ {
            ActionView::LaunchUrl { url, target: Some(t) } => r->Ok_0@
                == (windows::tasks::TaskView::OpenAndWait { what: url, target: t }),
            ActionView::LaunchApp { app, target: Some(t) } => r->Ok_0@
                == (windows::tasks::TaskView::OpenAndWait { what: app, target: t }),
            _ => does_on_windows(action@, r->Ok_0@),
        },
{
}

/// A window, as the macOS adapter takes it.
pub open spec fn window_on_macos(t: TargetView) -> bool {
    t.image is None && t.coordinates is None && t.url is None && t.file_path is None
}

/// A picture, as the macOS adapter takes it: both approvals are needed.
pub open spec fn picture_on_macos(t: TargetView, c: RunConfigView) -> bool {
    t.image is Some && c.allow_image_targets && c.allow_screenshot_capture
}

/// A point on the screen, as the macOS adapter takes it.
pub open spec fn point_on_macos(t: TargetView, c: RunConfigView) -> bool {
    t.image is None && t.coordinates is Some && c.allow_coordinate_targets && t.app_name is None
        && t.process_name is None && t.url is None && t.file_path is None && t.window_title is None
        && t.title_contains is None && t.accessibility is None
}

/// What the macOS adapter finds an element by: a selector and its window or application. It has to
/// be trusted with the elements of others.
pub open spec fn element_on_macos(t: TargetView, c: RunConfigView, trusted: bool) -> bool {
    trusted && t.accessibility is Some && t.url is None && t.file_path is None && (by_place_only(
        t,
    ) ==> c.allow_path_only_selectors) && (t.window_title is Some || t.title_contains is Some
        || t.app_name is Some || t.process_name is Some)
}

/// What an action on macOS may be done to: a picture, a point, or an element, whichever the target
/// gives, in this order.
pub open spec fn place_on_macos(t: TargetView, c: RunConfigView, trusted: bool) -> bool {
    if t.image is Some {
        picture_on_macos(t, c)
    } else if t.coordinates is Some {
        point_on_macos(t, c)
    } else {
        element_on_macos(t, c, trusted)
    }
}

/// What a question on macOS may be about: a picture or an element.
pub open spec fn asked_on_macos(t: TargetView, c: RunConfigView, trusted: bool) -> bool {
    if t.image is Some {
        picture_on_macos(t, c)
    } else {
        element_on_macos(t, c, trusted)
    }
}

/// Where a window on macOS may be looked for.
pub open spec fn window_place_on_macos(t: TargetView, c: RunConfigView) -> bool {
    window_on_macos(t) || picture_on_macos(t, c) || point_on_macos(t, c)
}

pub open spec fn waited_for_on_macos(
    w: WaitConditionView,
    c: RunConfigView,
    trusted: bool,
) -> bool {
    match w {
        WaitConditionView::Duration { .. } => true,
        WaitConditionView::FileExists { .. } => true,
        WaitConditionView::CommandExits { .. } => true,
        WaitConditionView::WindowExists { target } => window_place_on_macos(target, c),
        WaitConditionView::WindowFocused { target } => window_place_on_macos(target, c),
        WaitConditionView::TargetExists { target } => asked_on_macos(target, c, trusted),
        WaitConditionView::TargetNotExists { target } => asked_on_macos(target, c, trusted),
        WaitConditionView::TargetFocused { target } => asked_on_macos(target, c, trusted),
        WaitConditionView::TargetEnabled { target } => asked_on_macos(target, c, trusted),
        WaitConditionView::TargetVisible { target } => asked_on_macos(target, c, trusted),
        WaitConditionView::TargetActionable { target } => asked_on_macos(target, c, trusted),
        WaitConditionView::TargetNameContains { target, .. } => asked_on_macos(
            target,
            c,
            trusted,
        ),
        WaitConditionView::TargetValueContains { target, .. } => c.allow_value_capture
            && element_on_macos(target, c, trusted) && (target.image is Some
            ==> c.allow_image_targets && c.allow_screenshot_capture),
        WaitConditionView::ProcessRunning { target } => (target.process_name is Some
            || target.app_name is Some) && target.url is None && target.file_path is None
            && target.coordinates is None && no_platform(target) && target.window_title is None
            && target.title_contains is None && target.accessibility is None
            && target.image is None,
    }
}

/// What the macOS adapter takes on, as far as can be told before it acts.
pub open spec fn allowed_on_macos(a: ActionView, c: RunConfigView, trusted: bool) -> bool {
    match a {
        ActionView::LaunchUrl { target, .. } => target is Some ==> window_on_macos(target->0)
            || picture_on_macos(target->0, c),
        ActionView::LaunchApp { target, .. } => target is Some ==> window_on_macos(target->0)
            || picture_on_macos(target->0, c),
        ActionView::OpenFile { target, .. } => target is Some ==> window_on_macos(target->0)
            || picture_on_macos(target->0, c),
        ActionView::FocusWindow { target } => trusted && window_place_on_macos(target, c),
        ActionView::TypeText { target, .. } => target is Some ==> place_on_macos(
            target->0,
            c,
            trusted,
        ),
        ActionView::PressKey { target, .. } => target is Some ==> place_on_macos(
            target->0,
            c,
            trusted,
        ),
        ActionView::Scroll { target, .. } => target is Some ==> place_on_macos(
            target->0,
            c,
            trusted,
        ),
        ActionView::ClickTarget { target } => place_on_macos(target, c, trusted),
        ActionView::RunCommand { .. } => true,
        ActionView::WaitFor { condition } => waited_for_on_macos(condition, c, trusted),
        ActionView::Assert { assertion: AssertionView::Condition { condition } } =>
            waited_for_on_macos(condition, c, trusted),
        ActionView::Assert { assertion: AssertionView::TargetExists { target } } => if target.image
            is Some {
            picture_on_macos(target, c)
        } else if target.accessibility is Some {
            element_on_macos(target, c, trusted)
        } else {
            window_place_on_macos(target, c)
        },
    }
}

/// The macOS adapter has a reason against an action exactly where the action is none that it takes
/// on with the approvals of the run and the trust that it was given.
pub proof fn macos_takes_on_what_is_allowed(
    action: &Action,
    config: &RunConfig,
    trusted: bool,
    r: Option<&'static str>,
)
    requires
        call_ensures(macos::policy::unsupported_action_reason, (action, config, trusted), r),
    ensures
        r is None <==> allowed_on_macos(action@, config@, trusted),
{
}

/// Whether a task is what an action asks for, on macOS.
pub open spec fn does_on_macos(a: ActionView, task: macos::tasks::TaskView) -> bool {
    match (a, task) {
        (
            ActionView::LaunchUrl { url, .. },
            macos::tasks::TaskView::Open { arguments },
        ) => arguments == seq![url],
        (
            ActionView::LaunchApp { app, .. },
            macos::tasks::TaskView::Open { arguments },
        ) => arguments == seq!["-a"@, app],
        (
            ActionView::OpenFile { path, .. },
            macos::tasks::TaskView::Open { arguments },
        ) => arguments == seq![path],
        (
            ActionView::FocusWindow { target },
            macos::tasks::TaskView::FocusWindow { target: focused },
        ) => focused == target,
        (
            ActionView::TypeText { text, target: None },
            macos::tasks::TaskView::TypeText { text: typed },
        ) => typed == text,
        (
            ActionView::TypeText { text, target: Some(t) },
            macos::tasks::TaskView::SetText { text: typed, target: into },
        ) => typed == text && into == t,
        (
            ActionView::PressKey { keys, target },
            macos::tasks::TaskView::PressKeys { keys: pressed, target: into },
        ) => pressed == keys && into == target,
        (
            ActionView::Scroll { delta_y, target: None, .. },
            macos::tasks::TaskView::Scroll { delta_y: turned },
        ) => turned == delta_y,
        (
            ActionView::Scroll { delta_y, target: Some(t), .. },
            macos::tasks::TaskView::ScrollTarget { delta_y: turned, target: into },
        ) => turned == delta_y && into == t,
        (
            ActionView::ClickTarget { target },
            macos::tasks::TaskView::ClickPoint { x, y },
        ) => target.coordinates is Some && target.coordinates->0.x == x && target.coordinates->0.y
            == y,
        (
            ActionView::ClickTarget { target },
            macos::tasks::TaskView::ClickImage { target: clicked },
        ) => target.image is Some && target.coordinates is None && clicked == target,
        (
            ActionView::ClickTarget { target },
            macos::tasks::TaskView::Invoke { target: clicked },
        ) => target.image is None && target.coordinates is None && clicked == target,
        (
            ActionView::RunCommand { command, args },
            macos::tasks::TaskView::RunCommand { command: run, args: with },
        ) => run == command && with == args,
        _ => false,
    }
}

/// What the macOS adapter does for an action is what the action asks for. It types, presses keys
/// and scrolls in elements only, and runs the commands that were approved.
pub proof fn macos_does_what_is_asked(
    action: &Action,
    config: &RunConfig,
    trusted: bool,
    r: Result<macos::tasks::Task, AdapterError>,
)
    requires
        call_ensures(macos::tasks::plan_task, (action, config, trusted), r),
    ensures
        r is Ok ==> does_on_macos(action@, r->Ok_0@),
        r is Ok ==> allowed_on_macos(action@, config@, trusted),
        action is WaitFor || action is Assert ==> r is Err,
        action@ matches ActionView::RunCommand { command, args } ==> (r is Ok
            <==> config@.approved_commands.contains(command)),
        action is LaunchUrl || action is LaunchApp || action is OpenFile || action is FocusWindow
            ==> (r is Ok <==> allowed_on_macos(action@, config@, trusted)),
        action@ matches ActionView::ClickTarget { target } ==> (r is Ok <==> place_on_macos(
            target,
            config@,
            trusted,
        ) && (target.coordinates is None || target.image is None)),
        action@ matches ActionView::TypeText { target: Some(t), .. } ==> (r is Ok
            <==> place_on_macos(t, config@, trusted) && element_on_macos(t, config@, trusted)),
        action@ matches ActionView::PressKey { target: Some(t), .. } ==> (r is Ok
            <==> place_on_macos(t, config@, trusted) && element_on_macos(t, config@, trusted)),
        action@ matches ActionView::Scroll { target: Some(t), .. } ==> (r is Ok <==> place_on_macos(
            t,
            config@,
            trusted,
        ) && element_on_macos(t, config@, trusted)),
        action@ matches ActionView::TypeText { target: None, .. } ==> r is Ok,
        action@ matches ActionView::PressKey { target: None, .. } ==> r is Ok,
        action@ matches ActionView::Scroll { target: None, .. } ==> r is Ok,
{
}

/// What is opened on macOS is waited for where its window is named.
pub proof fn macos_waits_for_named_windows(
    action: &Action,
    config: &RunConfig,
    trusted: bool,
    r: Result<macos::tasks::Task, AdapterError>,
)
    requires
        call_ensures(macos::tasks::plan_task_with_control, (action, config, trusted), r),
        r is Ok,
    ensures
        match action@ {
            ActionView::LaunchUrl { url, target: Some(t) } => r->Ok_0@
                == (macos::tasks::TaskView::OpenAndWait { arguments: seq![url], target: t }),
            ActionView::LaunchApp { app, target: Some(t) } => r->Ok_0@
                == (macos::tasks::TaskView::OpenAndWait { arguments: seq!["-a"@, app], target: t }),
            ActionView::OpenFile { path, target: Some(t) } => r->Ok_0@
                == (macos::tasks::TaskView::OpenAndWait { arguments: seq![path], target: t }),
            _ => does_on_macos(action@, r->Ok_0@),
        },
{
}

/// Before anything is asked for a condition: its command has to be approved, its picture may be
/// looked for only with both approvals, and on macOS its value may be read only with approval.
pub proof fn questions_need_their_approvals(
    condition: &WaitCondition,
    config: &RunConfig,
    trusted: bool,
    on_windows: Result<(), AdapterError>,
    on_macos: Result<(), AdapterError>,
)
    requires
        call_ensures(windows::policy::guard_wait, (condition, config), on_windows),
        call_ensures(macos::tasks::guard_wait, (condition, config), on_macos),
    ensures
        match condition@ {
            WaitConditionView::CommandExits { command, .. } => (on_windows is Ok
                <==> config@.approved_commands.contains(command)) && (on_macos is Ok
                <==> config@.approved_commands.contains(command)),
            WaitConditionView::TargetExists { target } => (on_windows is Ok <==> target.image
                is None || picture_on_windows(target, config@)) && (on_macos is Ok
                <==> target.image is None || picture_on_macos(target, config@)),
            WaitConditionView::TargetNotExists { target } => (on_windows is Ok <==> target.image
                is None || picture_on_windows(target, config@)) && (on_macos is Ok
                <==> target.image is None || picture_on_macos(target, config@)),
            WaitConditionView::TargetValueContains { .. } => on_windows is Ok && (on_macos is Ok
                <==> config@.allow_value_capture),
            _ => on_windows is Ok && on_macos is Ok,
        },
{
}

/// Whether a reason is put in these words.
pub open spec fn worded(reason: Option<&'static str>, words: Seq<char>) -> bool {
    reason is Some && reason->0@ == words
}

/// What needs an approval that was not given is refused in the words that name the approval.
pub proof fn refusals_name_the_approval(
    target: &Target,
    command: &str,
    config: &RunConfig,
    image: (Option<&'static str>, Option<&'static str>),
    point: (Option<&'static str>, Option<&'static str>),
    element: (Option<&'static str>, Option<&'static str>),
    run: Option<&'static str>,
    trusted: bool,
)
    requires
        call_ensures(
            windows::policy::unsupported_image_target_reason,
            (target, config),
            image.0,
        ),
        call_ensures(macos::policy::unsupported_image_target_reason, (target, config), image.1),
        call_ensures(
            windows::policy::unsupported_coordinate_target_reason,
            (target, config),
            point.0,
        ),
        call_ensures(
            macos::policy::unsupported_coordinate_target_reason,
            (target, config),
            point.1,
        ),
        call_ensures(
            windows::policy::unsupported_semantic_target_reason_with_config,
            (target, config),
            element.0,
        ),
        call_ensures(
            macos::policy::unsupported_semantic_target_reason_with_config,
            (target, config, trusted),
            element.1,
        ),
        call_ensures(windows::policy::unsupported_command_reason, (command, config), run),
    ensures
        target@.image is None ==> image.0 is None && image.1 is None,
        target@.image is Some && !config.allow_image_targets ==> worded(
            image.0,
            "image targets require explicit allowImageTargets approval"@,
        ) && worded(image.1, "image targets require explicit allowImageTargets approval"@),
        target@.image is Some && config.allow_image_targets && !config.allow_screenshot_capture
            ==> worded(
            image.0,
            "image target matching requires explicit allowScreenshotCapture approval"@,
        ) && worded(image.1, "image targets require explicit allowScreenshotCapture approval"@),
        target@.image is None && !config.allow_coordinate_targets ==> worded(
            point.0,
            "coordinate targets require explicit allowCoordinateTargets approval"@,
        ) && worded(
            point.1,
            "coordinate targets require explicit allowCoordinateTargets approval"@,
        ),
        target@.image is None && by_place_only(target@) && !config.allow_path_only_selectors
            ==> worded(
            element.0,
            "path-only accessibility selectors require explicit allowPathOnlySelectors approval"@,
        ) && worded(
            element.1,
            "path-only accessibility selectors require explicit allowPathOnlySelectors approval"@,
        ),
        target@.image is None && !by_place_only(target@) && !trusted ==> worded(
            element.1,
            "macOS Accessibility permission is required for semantic automation"@,
        ),
        config@.approved_commands.contains(command@) ==> run is None,
        !config@.approved_commands.contains(command@) ==> worded(
            run,
            "command is not approved for this run"@,
        ),
{
}

} // verus!
