//! What the macOS adapter has the system do for an action.
use vstd::prelude::*;
use crate::accessibility::AdapterCapabilities;
use crate::adapter::{plain_error, transient, transient_error, AdapterError, AdapterErrorView};
use crate::definition::{
    Action, ActionView, AssertionView, Platform, Target, TargetView, WaitCondition,
    WaitConditionView,
};
use crate::macos::policy::{
    coordinate_target_reason, ensure_value_reads, focus_window_target_reason, image_target_reason,
    input_target_reason, launch_target_reason, policy_denied, policy_denied_error, refusal,
    reject_unsupported_target, semantic_target_reason_with_config,
    unsupported_coordinate_target_reason, unsupported_focus_window_target_reason,
    unsupported_image_target_reason, unsupported_input_target_reason,
    unsupported_launch_target_reason, unsupported_semantic_target_reason_with_config,
};
use crate::platform::{empty_target, kind_of};
use crate::run::{FailureKind, RunConfig, RunConfigView, RunErrorKind};
use crate::text::{concat, concat3, concat4, copy_opt_text, copy_texts, owned, texts};
use crate::views::opt_view;
use crate::windows::policy::{first_reason, reason_text};

verus! {

/// What the adapter can do, given whether it has Accessibility permission.
pub fn capabilities(trusted: bool) -> (r: AdapterCapabilities)
    ensures
        r == (AdapterCapabilities {
            platform: Platform::MacOs,
            supports_launch: true,
            supports_focus: true,
            supports_input: true,
            supports_semantic_targets: trusted,
            supports_coordinate_targets: true,
            supports_window_queries: true,
            supports_process_queries: true,
            supports_accessibility_tree: trusted,
        }),
{
    AdapterCapabilities {
        platform: Platform::MacOs,
        supports_launch: true,
        supports_focus: true,
        supports_input: true,
        supports_semantic_targets: trusted,
        supports_coordinate_targets: true,
        supports_window_queries: true,
        supports_process_queries: true,
        supports_accessibility_tree: trusted,
    }
}

/// Refuses what needs Accessibility permission where there is none.
pub fn ensure_accessibility_permission(trusted: bool) -> (r: Result<(), AdapterError>)
    ensures
        match r {
            Ok(_) => trusted,
            Err(e) => !trusted && e@ == (AdapterErrorView {
                message: "macOS Accessibility permission is required for semantic automation"@,
                kind: RunErrorKind::Adapter,
                diagnostics: Some("failureKind=capabilityUnavailable"@),
                failure_kind: Some(FailureKind::CapabilityUnavailable),
            }),
        },
{
    if trusted {
        Ok(())
    } else {
        Err(
            AdapterError::new(
                "macOS Accessibility permission is required for semantic automation".to_owned(),
            ).with_failure_kind(FailureKind::CapabilityUnavailable).with_source(
                "failureKind=capabilityUnavailable".to_owned(),
            ),
        )
    }
}

/// What the system is to do.
#[derive(Debug, PartialEq)]
pub enum Task {
    /// Run `open` with these arguments.
    Open { arguments: Vec<String> },
    /// Run `open` with these arguments, and wait until the window is there.
    OpenAndWait { arguments: Vec<String>, target: Target },
    FocusWindow { target: Target },
    TypeText { text: String },
    SetText { target: Target, text: String },
    PressKeys { keys: String, target: Option<Target> },
    /// Turn the wheel.
    Scroll { delta_y: i32 },
    /// Scroll an element.
    ScrollTarget { target: Target, delta_y: i32 },
    ClickPoint { x: i32, y: i32 },
    ClickImage { target: Target },
    Invoke { target: Target },
    RunCommand { command: String, args: Vec<String> },
}

/// What a [`Task`] stands for.
pub enum TaskView {
    Open { arguments: Seq<Seq<char>> },
    OpenAndWait { arguments: Seq<Seq<char>>, target: TargetView },
    FocusWindow { target: TargetView },
    TypeText { text: Seq<char> },
    SetText { target: TargetView, text: Seq<char> },
    PressKeys { keys: Seq<char>, target: Option<TargetView> },
    Scroll { delta_y: i32 },
    ScrollTarget { target: TargetView, delta_y: i32 },
    ClickPoint { x: i32, y: i32 },
    ClickImage { target: TargetView },
    Invoke { target: TargetView },
    RunCommand { command: Seq<char>, args: Seq<Seq<char>> },
}

impl View for Task {
    type V = TaskView;

    open spec fn view(&self) -> TaskView {
        match *self {
            Task::Open { arguments } => TaskView::Open { arguments: texts(arguments@) },
            Task::OpenAndWait { arguments, target } => TaskView::OpenAndWait {
                arguments: texts(arguments@),
                target: target@,
            },
            Task::FocusWindow { target } => TaskView::FocusWindow { target: target@ },
            Task::TypeText { text } => TaskView::TypeText { text: text@ },
            Task::SetText { target, text } => TaskView::SetText { target: target@, text: text@ },
            Task::PressKeys { keys, target } => TaskView::PressKeys {
                keys: keys@,
                target: opt_view(target),
            },
            Task::Scroll { delta_y } => TaskView::Scroll { delta_y },
            Task::ScrollTarget { target, delta_y } => TaskView::ScrollTarget {
                target: target@,
                delta_y,
            },
            Task::ClickPoint { x, y } => TaskView::ClickPoint { x, y },
            Task::ClickImage { target } => TaskView::ClickImage { target: target@ },
            Task::Invoke { target } => TaskView::Invoke { target: target@ },
            Task::RunCommand { command, args } => TaskView::RunCommand {
                command: command@,
                args: texts(args@),
            },
        }
    }
}

pub open spec fn unless_refused(reason: Option<Seq<char>>, task: TaskView) -> Result<
    TaskView,
    AdapterErrorView,
> {
    match reason {
        Some(text) => Err(refusal(text)),
        None => Ok(task),
    }
}

/// What a click comes to: on a point, on a picture, or on an element.
pub open spec fn click_task(t: TargetView, c: RunConfigView, trusted: bool) -> Result<
    TaskView,
    AdapterErrorView,
> {
    if t.coordinates is Some {
        unless_refused(
            coordinate_target_reason(t, c),
            TaskView::ClickPoint { x: t.coordinates->0.x, y: t.coordinates->0.y },
        )
    } else if t.image is Some {
        unless_refused(image_target_reason(t, c), TaskView::ClickImage { target: t })
    } else {
        unless_refused(
            semantic_target_reason_with_config(t, c, trusted),
            TaskView::Invoke { target: t },
        )
    }
}

/// How a program, a URL or a file is opened.
pub open spec fn open_arguments(a: ActionView) -> Option<Seq<Seq<char>>> {
    match a {
        ActionView::LaunchUrl { url, target } => Some(seq![url]),
        ActionView::LaunchApp { app, target } => Some(seq!["-a"@, app]),
        ActionView::OpenFile { path, target } => Some(seq![path]),
        _ => None,
    }
}

pub open spec fn open_target(a: ActionView) -> Option<TargetView> {
    match a {
        ActionView::LaunchUrl { url, target } => target,
        ActionView::LaunchApp { app, target } => target,
        ActionView::OpenFile { path, target } => target,
        _ => None,
    }
}

/// The error for a command that is not approved.
pub open spec fn unapproved(command: Seq<char>) -> AdapterErrorView {
    policy_denied("command `"@ + command + "` is not approved for this run"@)
}

fn unapproved_error(command: &str) -> (r: AdapterError)
    ensures
        r@ == unapproved(command@),
{
    policy_denied_error(concat3("command `", command, "` is not approved for this run"))
}

/// Why nothing is done to an element: for what stands in the way of the target, whatever it names,
/// or of reaching an element.
pub open spec fn element_reason(t: TargetView, c: RunConfigView, trusted: bool) -> Option<
    Seq<char>,
> {
    first_reason(
        input_target_reason(t, c, trusted),
        semantic_target_reason_with_config(t, c, trusted),
    )
}

pub fn unsupported_element_reason(target: &Target, config: &RunConfig, trusted: bool) -> (r: Option<
    &'static str,
>)
    ensures
        reason_text(r) == element_reason(target@, config@, trusted),
{
    match unsupported_input_target_reason(target, config, trusted) {
        Some(reason) => Some(reason),
        None => unsupported_semantic_target_reason_with_config(target, config, trusted),
    }
}

/// What the system is to do for an action. Every policy check comes before anything is done.
pub open spec fn task_of(a: ActionView, c: RunConfigView, trusted: bool) -> Result<
    TaskView,
    AdapterErrorView,
> {
    match a {
        ActionView::FocusWindow { target } => unless_refused(
            focus_window_target_reason(target, c, trusted),
            TaskView::FocusWindow { target },
        ),
        ActionView::TypeText { text, target } => match target {
            None => Ok(TaskView::TypeText { text }),
            Some(t) => unless_refused(
                element_reason(t, c, trusted),
                TaskView::SetText { target: t, text },
            ),
        },
        ActionView::PressKey { keys, target } => match target {
            None => Ok(TaskView::PressKeys { keys, target }),
            Some(t) => unless_refused(
                element_reason(t, c, trusted),
                TaskView::PressKeys { keys, target },
            ),
        },
        ActionView::Scroll { delta_x, delta_y, target } => match target {
            None => Ok(TaskView::Scroll { delta_y }),
            Some(t) => unless_refused(
                element_reason(t, c, trusted),
                TaskView::ScrollTarget { target: t, delta_y },
            ),
        },
        ActionView::ClickTarget { target } => click_task(target, c, trusted),
        ActionView::RunCommand { command, args } => if c.approved_commands.contains(command) {
            Ok(TaskView::RunCommand { command, args })
        } else {
            Err(unapproved(command))
        },
        ActionView::WaitFor { condition } => Err(not_supported(a)),
        ActionView::Assert { assertion } => Err(not_supported(a)),
        _ => match open_target(a) {
            None => Ok(TaskView::Open { arguments: open_arguments(a)->0 }),
            Some(t) => unless_refused(
                launch_target_reason(t, c),
                TaskView::Open { arguments: open_arguments(a)->0 },
            ),
        },
    }
}

pub open spec fn not_supported(a: ActionView) -> AdapterErrorView {
    plain_error(RunErrorKind::Unsupported, "macOS adapter does not yet support "@ + kind_of(a))
}

/// The same for an action that may take long: a launched program is waited for where its window is
/// named.
pub open spec fn task_with_control_of(a: ActionView, c: RunConfigView, trusted: bool) -> Result<
    TaskView,
    AdapterErrorView,
> {
    match (open_arguments(a), open_target(a)) {
        (Some(arguments), Some(t)) => unless_refused(
            launch_target_reason(t, c),
            TaskView::OpenAndWait { arguments, target: t },
        ),
        _ => task_of(a, c, trusted),
    }
}

pub open spec fn task_result(r: Result<Task, AdapterError>) -> Result<TaskView, AdapterErrorView> {
    match r {
        Ok(task) => Ok(task@),
        Err(e) => Err(e@),
    }
}

fn checked(reason: Option<&'static str>, task: Task) -> (r: Result<Task, AdapterError>)
    ensures
        task_result(r) == unless_refused(reason_text(reason), task@),
{
    match reject_unsupported_target(reason) {
        Ok(_) => Ok(task),
        Err(e) => Err(e),
    }
}

fn one_argument(text: &String) -> (r: Vec<String>)
    ensures
        texts(r@) == seq![text@],
{
    let mut r: Vec<String> = Vec::new();
    r.push(text.clone());
    assert(texts(r@) =~= seq![text@]);
    r
}

fn app_arguments(app: &String) -> (r: Vec<String>)
    ensures
        texts(r@) == seq!["-a"@, app@],
{
    let mut r: Vec<String> = Vec::new();
    r.push(owned("-a"));
    r.push(app.clone());
    assert(texts(r@) =~= seq!["-a"@, app@]);
    r
}

fn plan_open(arguments: Vec<String>, target: &Option<Target>, config: &RunConfig, wait: bool) -> (r: Result<
    Task,
    AdapterError,
>)
    ensures
        task_result(r) == (match opt_view(*target) {
            None => Ok(TaskView::Open { arguments: texts(arguments@) }),
            Some(t) => unless_refused(
                launch_target_reason(t, config@),
                if wait {
                    TaskView::OpenAndWait { arguments: texts(arguments@), target: t }
                } else {
                    TaskView::Open { arguments: texts(arguments@) }
                },
            ),
        }),
{
    match target {
        None => Ok(Task::Open { arguments }),
        Some(t) => {
            let task = if wait {
                Task::OpenAndWait { arguments, target: t.clone() }
            } else {
                Task::Open { arguments }
            };
            checked(unsupported_launch_target_reason(t, config), task)
        },
    }
}

fn plan_click(target: &Target, config: &RunConfig, trusted: bool) -> (r: Result<Task, AdapterError>)
    ensures
        task_result(r) == click_task(target@, config@, trusted),
{
    if let Some(point) = target.coordinates {
        return checked(
            unsupported_coordinate_target_reason(target, config),
            Task::ClickPoint { x: point.x, y: point.y },
        );
    }
    if target.image.is_some() {
        return checked(
            unsupported_image_target_reason(target, config),
            Task::ClickImage { target: target.clone() },
        );
    }
    checked(
        unsupported_semantic_target_reason_with_config(target, config, trusted),
        Task::Invoke { target: target.clone() },
    )
}

/// Decides what the system is to do for an action.
pub fn plan_task(action: &Action, config: &RunConfig, trusted: bool) -> (r: Result<
    Task,
    AdapterError,
>)
    ensures
        task_result(r) == task_of(action@, config@, trusted),
{
    match action {
        Action::LaunchUrl { url, target } => plan_open(one_argument(url), target, config, false),
        Action::LaunchApp { app, target } => plan_open(app_arguments(app), target, config, false),
        Action::OpenFile { path, target } => plan_open(one_argument(path), target, config, false),
        Action::FocusWindow { target } => checked(
            unsupported_focus_window_target_reason(target, config, trusted),
            Task::FocusWindow { target: target.clone() },
        ),
        Action::TypeText { text, target } => match target {
            None => Ok(Task::TypeText { text: text.clone() }),
            Some(t) => checked(
                unsupported_element_reason(t, config, trusted),
                Task::SetText { target: t.clone(), text: text.clone() },
            ),
        },
        Action::PressKey { keys, target } => match target {
            None => Ok(Task::PressKeys { keys: keys.clone(), target: None }),
            Some(t) => checked(
                unsupported_element_reason(t, config, trusted),
                Task::PressKeys { keys: keys.clone(), target: Some(t.clone()) },
            ),
        },
        Action::Scroll { delta_y, target, .. } => match target {
            None => Ok(Task::Scroll { delta_y: *delta_y }),
            Some(t) => checked(
                unsupported_element_reason(t, config, trusted),
                Task::ScrollTarget { target: t.clone(), delta_y: *delta_y },
            ),
        },
        Action::ClickTarget { target } => plan_click(target, config, trusted),
        Action::RunCommand { command, args } => if config.approved_commands.contains(
            command.as_str(),
        ) {
            Ok(Task::RunCommand { command: command.clone(), args: copy_texts(args) })
        } else {
            Err(unapproved_error(command.as_str()))
        },
        Action::WaitFor { .. } | Action::Assert { .. } => Err(
            AdapterError::unsupported(concat("macOS adapter does not yet support ", action.kind())),
        ),
    }
}

/// Decides what the system is to do for an action that may take long.
pub fn plan_task_with_control(action: &Action, config: &RunConfig, trusted: bool) -> (r: Result<
    Task,
    AdapterError,
>)
    ensures
        task_result(r) == task_with_control_of(action@, config@, trusted),
{
    match action {
        Action::LaunchUrl { url, target } => plan_open(one_argument(url), target, config, true),
        Action::LaunchApp { app, target } => plan_open(app_arguments(app), target, config, true),
        Action::OpenFile { path, target } => plan_open(one_argument(path), target, config, true),
        _ => plan_task(action, config, trusted),
    }
}

/// An action that preflight refuses is not done either: it comes to an error before anything is
/// done.
pub proof fn refused_actions_do_nothing(a: ActionView, c: RunConfigView, trusted: bool)
    requires
        crate::macos::policy::action_reason(a, c, trusted) is Some,
    ensures
        task_of(a, c, trusted) is Err,
        task_with_control_of(a, c, trusted) is Err,
{
}

/// No command is run that was not approved.
pub proof fn unapproved_commands_do_not_run(
    command: Seq<char>,
    args: Seq<Seq<char>>,
    c: RunConfigView,
    trusted: bool,
)
    requires
        !c.approved_commands.contains(command),
    ensures
        task_of((ActionView::RunCommand { command, args }), c, trusted) == Err::<
            TaskView,
            AdapterErrorView,
        >(unapproved(command)),
        task_with_control_of((ActionView::RunCommand { command, args }), c, trusted) == Err::<
            TaskView,
            AdapterErrorView,
        >(unapproved(command)),
{
}

/// A target that says only what it says of windows.
pub fn window_only_target(target: &Target) -> (r: Target)
    ensures
        r@ == (TargetView {
            app_name: target@.app_name,
            process_name: target@.process_name,
            window_title: target@.window_title,
            title_contains: target@.title_contains,
            ..empty_target()
        }),
{
    Target {
        app_name: copy_opt_text(&target.app_name),
        process_name: copy_opt_text(&target.process_name),
        window_title: copy_opt_text(&target.window_title),
        title_contains: copy_opt_text(&target.title_contains),
        url: None,
        file_path: None,
        accessibility: None,
        image: None,
        coordinates: None,
        platform_selectors: crate::definition::PlatformSelectors::new(),
    }
}

/// What an approved command that has ended comes to; `status` is how the system shows its end.
pub fn judge_exit(success: bool, command: &str, status: &str) -> (r: Result<(), AdapterError>)
    ensures
        match r {
            Ok(_) => success,
            Err(e) => !success && e@ == transient(
                "approved command `"@ + command@ + "` exited with "@ + status@,
            ),
        },
{
    if success {
        Ok(())
    } else {
        Err(transient_error(concat4("approved command `", command, "` exited with ", status)))
    }
}

/// Whether a command that was run ended well: one that failed in passing did not.
pub fn command_succeeded(ran: Result<(), AdapterError>) -> (r: Result<bool, AdapterError>)
    ensures
        match ran {
            Ok(_) => r == Ok::<bool, AdapterError>(true),
            Err(e) => if e@.failure_kind == Some(FailureKind::Transient) {
                r == Ok::<bool, AdapterError>(false)
            } else {
                r == Err::<bool, AdapterError>(e)
            },
        },
{
    match ran {
        Ok(_) => Ok(true),
        Err(e) => if crate::windows::titles::has_failure_kind(&e, FailureKind::Transient) {
            Ok(false)
        } else {
            Err(e)
        },
    }
}

/// Why a picture may not be looked for, if it may not.
pub open spec fn picture_guard(t: TargetView, c: RunConfigView) -> Option<AdapterErrorView> {
    if t.image is None {
        None
    } else {
        match image_target_reason(t, c) {
            Some(reason) => Some(refusal(reason)),
            None => None,
        }
    }
}

/// Why nothing is asked for a condition: a command that is not approved, a value that may not be read, or a picture that
/// may not be looked for.
pub open spec fn wait_guard(condition: WaitConditionView, c: RunConfigView) -> Option<
    AdapterErrorView,
> {
    match condition {
        WaitConditionView::CommandExits { command, args } => if c.approved_commands.contains(
            command,
        ) {
            None
        } else {
            Some(unapproved(command))
        },
        WaitConditionView::TargetValueContains { target, text } => if c.allow_value_capture {
            None
        } else {
            Some(policy_denied("runtime value reads require explicit allowValueCapture approval"@))
        },
        WaitConditionView::TargetExists { target } => picture_guard(target, c),
        WaitConditionView::TargetNotExists { target } => picture_guard(target, c),
        _ => None,
    }
}

/// Why nothing is asked for an assertion.
pub open spec fn assertion_guard(assertion: AssertionView, c: RunConfigView) -> Option<
    AdapterErrorView,
> {
    match assertion {
        AssertionView::TargetExists { target } => picture_guard(target, c),
        AssertionView::Condition { condition } => wait_guard(condition, c),
    }
}

pub fn guard_picture(target: &Target, config: &RunConfig) -> (r: Result<(), AdapterError>)
    ensures
        match r {
            Ok(_) => picture_guard(target@, config@) is None,
            Err(e) => picture_guard(target@, config@) == Some(e@),
        },
{
    if target.image.is_none() {
        return Ok(());
    }
    reject_unsupported_target(unsupported_image_target_reason(target, config))
}

pub fn guard_wait(condition: &WaitCondition, config: &RunConfig) -> (r: Result<(), AdapterError>)
    ensures
        match r {
            Ok(_) => wait_guard(condition@, config@) is None,
            Err(e) => wait_guard(condition@, config@) == Some(e@),
        },
{
    match condition {
        WaitCondition::CommandExits { command, .. } => if config.approved_commands.contains(
            command.as_str(),
        ) {
            Ok(())
        } else {
            Err(unapproved_error(command.as_str()))
        },
        WaitCondition::TargetValueContains { .. } => ensure_value_reads(config),
        WaitCondition::TargetExists { target } | WaitCondition::TargetNotExists { target } => {
            guard_picture(target, config)
        },
        _ => Ok(()),
    }
}

/// A command that is not approved is never asked for, neither in a wait nor in an assertion.
pub proof fn unapproved_commands_are_not_asked(
    command: Seq<char>,
    args: Seq<Seq<char>>,
    c: RunConfigView,
)
    requires
        !c.approved_commands.contains(command),
    ensures
        ({
            let condition = WaitConditionView::CommandExits { command, args };
            let error = unapproved(command);
            &&& wait_guard(condition, c) == Some(error)
            &&& assertion_guard((AssertionView::Condition { condition }), c) == Some(error)
        }),
{
}

/// Without the approvals no picture is looked for, whatever asks for it.
pub proof fn pictures_are_not_looked_for(target: TargetView, c: RunConfigView)
    requires
        target.image is Some,
        !(c.allow_image_targets && c.allow_screenshot_capture),
    ensures
        wait_guard((WaitConditionView::TargetExists { target }), c) is Some,
        wait_guard((WaitConditionView::TargetNotExists { target }), c) is Some,
        assertion_guard((AssertionView::TargetExists { target }), c) is Some,
{
}

/// Without the approval no value of an element is asked for.
pub proof fn values_are_not_asked_for(target: TargetView, text: Seq<char>, c: RunConfigView)
    requires
        !c.allow_value_capture,
    ensures
        wait_guard((WaitConditionView::TargetValueContains { target, text }), c) is Some,
{
}

} // verus!
