//! What the Windows adapter has the system do for an action.
use vstd::prelude::*;
use crate::accessibility::AdapterCapabilities;
use crate::adapter::{plain_error, AdapterError, AdapterErrorView};
use crate::definition::{Action, ActionView, Platform, Target, TargetView};
use crate::platform::kind_of;
use crate::run::{RunConfig, RunConfigView, RunErrorKind};
use crate::text::{
    concat, copy_texts, eq_ignore_ascii_case, same_but_case, strip_prefix, texts, without_prefix,
};
use crate::windows::keys::ScrollAmount;
use crate::windows::policy::{
    command_reason, coordinate_target_reason, image_action_target_reason, refusal,
    reject_unsupported_target, semantic_target_reason, unsupported_command_reason,
    unsupported_coordinate_target_reason, unsupported_image_action_target_reason,
    unsupported_launch_target_reason, unsupported_semantic_target_reason_with_config,
    unsupported_window_target_reason_with_config, window_target_reason_with_config,
};

verus! {

/// What the adapter can do.
pub fn capabilities() -> (r: AdapterCapabilities)
    ensures
        r == (AdapterCapabilities {
            platform: Platform::Windows,
            supports_launch: true,
            supports_focus: true,
            supports_input: true,
            supports_semantic_targets: true,
            supports_coordinate_targets: true,
            supports_window_queries: true,
            supports_process_queries: true,
            supports_accessibility_tree: true,
        }),
{
    AdapterCapabilities {
        platform: Platform::Windows,
        supports_launch: true,
        supports_focus: true,
        supports_input: true,
        supports_semantic_targets: true,
        supports_coordinate_targets: true,
        supports_window_queries: true,
        supports_process_queries: true,
        supports_accessibility_tree: true,
    }
}

/// What the system is to do.
#[derive(Debug, PartialEq)]
pub enum Task {
    /// Open a URL or an application.
    Open { what: String },
    /// Open it, and wait until its window is there.
    OpenAndWait { what: String, target: Target },
    OpenFile { path: String },
    FocusWindow { target: Target },
    /// Type into whatever has the focus.
    TypeText { text: String },
    /// Set the text of an element.
    SetText { target: Target, text: String },
    /// Press keys, first giving an element the focus where one is named.
    PressKeys { keys: String, target: Option<Target> },
    /// Turn the wheel, first giving an element the focus where one is named.
    Scroll { delta_y: i32, target: Option<Target> },
    /// Move the scroll pattern of an element.
    ScrollElement { target: Target, horizontal: ScrollAmount, vertical: ScrollAmount },
    ClickPoint { x: i32, y: i32 },
    /// Find a picture in a window and click it.
    ClickImage { target: Target },
    /// Invoke an element.
    Invoke { target: Target },
    RunCommand { command: String, args: Vec<String> },
}

/// What a [`Task`] stands for.
pub enum TaskView {
    Open { what: Seq<char> },
    OpenAndWait { what: Seq<char>, target: TargetView },
    OpenFile { path: Seq<char> },
    FocusWindow { target: TargetView },
    TypeText { text: Seq<char> },
    SetText { target: TargetView, text: Seq<char> },
    PressKeys { keys: Seq<char>, target: Option<TargetView> },
    Scroll { delta_y: i32, target: Option<TargetView> },
    ScrollElement { target: TargetView, horizontal: ScrollAmount, vertical: ScrollAmount },
    ClickPoint { x: i32, y: i32 },
    ClickImage { target: TargetView },
    Invoke { target: TargetView },
    RunCommand { command: Seq<char>, args: Seq<Seq<char>> },
}

impl View for Task {
    type V = TaskView;

    open spec fn view(&self) -> TaskView {
        match *self {
            Task::Open { what } => TaskView::Open { what: what@ },
            Task::OpenAndWait { what, target } => TaskView::OpenAndWait {
                what: what@,
                target: target@,
            },
            Task::OpenFile { path } => TaskView::OpenFile { path: path@ },
            Task::FocusWindow { target } => TaskView::FocusWindow { target: target@ },
            Task::TypeText { text } => TaskView::TypeText { text: text@ },
            Task::SetText { target, text } => TaskView::SetText { target: target@, text: text@ },
            Task::PressKeys { keys, target } => TaskView::PressKeys {
                keys: keys@,
                target: match target {
                    Some(t) => Some(t@),
                    None => None,
                },
            },
            Task::Scroll { delta_y, target } => TaskView::Scroll {
                delta_y,
                target: match target {
                    Some(t) => Some(t@),
                    None => None,
                },
            },
            Task::ScrollElement { target, horizontal, vertical } => TaskView::ScrollElement {
                target: target@,
                horizontal,
                vertical,
            },
            Task::ClickPoint { x, y } => TaskView::ClickPoint { x, y },
            Task::ClickImage { target } => TaskView::ClickImage { target: target@ },
            Task::Invoke { target } => TaskView::Invoke { target: target@ },
            Task::RunCommand { command, args } => TaskView::RunCommand {
                command: command@,
                args: texts(args@),
            },
        }
    }
}

/// A task, unless there is a reason to refuse it.
pub open spec fn unless_refused(reason: Option<Seq<char>>, task: TaskView) -> Result<
    TaskView,
    AdapterErrorView,
> {
    match reason {
        Some(text) => Err(refusal(text)),
        None => Ok(task),
    }
}

/// What a click comes to: on a point, on a picture, or on an element.
pub open spec fn click_task(t: TargetView, c: RunConfigView) -> Result<TaskView, AdapterErrorView> {
    if t.coordinates is Some {
        unless_refused(
            coordinate_target_reason(t, c),
            TaskView::ClickPoint { x: t.coordinates->0.x, y: t.coordinates->0.y },
        )
    } else if t.image is Some {
        unless_refused(image_action_target_reason(t, c), TaskView::ClickImage { target: t })
    } else {
        unless_refused(semantic_target_reason(t, c), TaskView::Invoke { target: t })
    }
}

pub open spec fn launch_task(what: Seq<char>, target: Option<TargetView>, c: RunConfigView) -> Result<
    TaskView,
    AdapterErrorView,
> {
    match target {
        None => Ok(TaskView::Open { what }),
        Some(t) => unless_refused(
            window_target_reason_with_config(t, c),
            TaskView::Open { what },
        ),
    }
}

/// What the system is to do for an action. Every policy check comes before anything is done.
pub open spec fn task_of(a: ActionView, c: RunConfigView) -> Result<TaskView, AdapterErrorView> {
    match a {
        ActionView::LaunchUrl { url, target } => launch_task(url, target, c),
        ActionView::LaunchApp { app, target } => launch_task(app, target, c),
        ActionView::OpenFile { path, target } => match target {
            None => Ok(TaskView::OpenFile { path }),
            Some(t) => unless_refused(
                window_target_reason_with_config(t, c),
                TaskView::OpenFile { path },
            ),
        },
        ActionView::FocusWindow { target } => unless_refused(
            window_target_reason_with_config(target, c),
            TaskView::FocusWindow { target },
        ),
        ActionView::TypeText { text, target } => match target {
            None => Ok(TaskView::TypeText { text }),
            Some(t) => unless_refused(
                semantic_target_reason(t, c),
                TaskView::SetText { target: t, text },
            ),
        },
        ActionView::PressKey { keys, target } => match target {
            None => Ok(TaskView::PressKeys { keys, target: None }),
            Some(t) => unless_refused(
                semantic_target_reason(t, c),
                TaskView::PressKeys { keys, target },
            ),
        },
        ActionView::Scroll { delta_x, delta_y, target } => match target {
            None => Ok(TaskView::Scroll { delta_y, target: None }),
            Some(t) => unless_refused(
                semantic_target_reason(t, c),
                TaskView::Scroll { delta_y, target },
            ),
        },
        ActionView::ClickTarget { target } => click_task(target, c),
        ActionView::RunCommand { command, args } => match command_reason(command, c) {
            Some(reason) => Err(plain_error(RunErrorKind::Unsupported, reason)),
            None => Ok(TaskView::RunCommand { command, args }),
        },
        ActionView::WaitFor { condition } => Err(not_supported(a)),
        ActionView::Assert { assertion } => Err(not_supported(a)),
    }
}

pub open spec fn not_supported(a: ActionView) -> AdapterErrorView {
    plain_error(
        RunErrorKind::Unsupported,
        "Windows adapter does not yet support "@ + kind_of(a),
    )
}

/// The same for an action that may take long: a launched program is waited for where its window is
/// named.
pub open spec fn task_with_control_of(a: ActionView, c: RunConfigView) -> Result<
    TaskView,
    AdapterErrorView,
> {
    match a {
        ActionView::LaunchUrl { url, target: Some(t) } => unless_refused(
            window_target_reason_with_config(t, c),
            TaskView::OpenAndWait { what: url, target: t },
        ),
        ActionView::LaunchApp { app, target: Some(t) } => unless_refused(
            window_target_reason_with_config(t, c),
            TaskView::OpenAndWait { what: app, target: t },
        ),
        _ => task_of(a, c),
    }
}

pub open spec fn task_result(r: Result<Task, AdapterError>) -> Result<TaskView, AdapterErrorView> {
    match r {
        Ok(task) => Ok(task@),
        Err(e) => Err(e@),
    }
}

fn checked(reason: Option<&'static str>, task: Task) -> (r: Result<Task, AdapterError>)
    ensures
        task_result(r) == unless_refused(crate::windows::policy::reason_text(reason), task@),
{
    match reject_unsupported_target(reason) {
        Ok(_) => Ok(task),
        Err(e) => Err(e),
    }
}

fn plan_launch(what: &String, target: &Option<Target>, config: &RunConfig) -> (r: Result<
    Task,
    AdapterError,
>)
    ensures
        task_result(r) == launch_task(
            what@,
            match *target {
                Some(t) => Some(t@),
                None => None,
            },
            config@,
        ),
{
    let task = Task::Open { what: what.clone() };
    match target {
        None => Ok(task),
        Some(t) => checked(unsupported_launch_target_reason(t, config), task),
    }
}

fn plan_click(target: &Target, config: &RunConfig) -> (r: Result<Task, AdapterError>)
    ensures
        task_result(r) == click_task(target@, config@),
{
    if let Some(point) = target.coordinates {
        return checked(
            unsupported_coordinate_target_reason(target, config),
            Task::ClickPoint { x: point.x, y: point.y },
        );
    }
    if target.image.is_some() {
        return checked(
            unsupported_image_action_target_reason(target, config),
            Task::ClickImage { target: target.clone() },
        );
    }
    checked(
        unsupported_semantic_target_reason_with_config(target, config),
        Task::Invoke { target: target.clone() },
    )
}

/// Decides what the system is to do for an action.
pub fn plan_task(action: &Action, config: &RunConfig) -> (r: Result<Task, AdapterError>)
    ensures
        task_result(r) == task_of(action@, config@),
{
    match action {
        Action::LaunchUrl { url, target } => plan_launch(url, target, config),
        Action::LaunchApp { app, target } => plan_launch(app, target, config),
        Action::OpenFile { path, target } => {
            let task = Task::OpenFile { path: path.clone() };
            match target {
                None => Ok(task),
                Some(t) => checked(unsupported_launch_target_reason(t, config), task),
            }
        },
        Action::FocusWindow { target } => checked(
            unsupported_window_target_reason_with_config(target, config),
            Task::FocusWindow { target: target.clone() },
        ),
        Action::TypeText { text, target } => match target {
            None => Ok(Task::TypeText { text: text.clone() }),
            Some(t) => checked(
                unsupported_semantic_target_reason_with_config(t, config),
                Task::SetText { target: t.clone(), text: text.clone() },
            ),
        },
        Action::PressKey { keys, target } => match target {
            None => Ok(Task::PressKeys { keys: keys.clone(), target: None }),
            Some(t) => checked(
                unsupported_semantic_target_reason_with_config(t, config),
                Task::PressKeys { keys: keys.clone(), target: Some(t.clone()) },
            ),
        },
        Action::Scroll { delta_y, target, .. } => match target {
            None => Ok(Task::Scroll { delta_y: *delta_y, target: None }),
            Some(t) => checked(
                unsupported_semantic_target_reason_with_config(t, config),
                Task::Scroll { delta_y: *delta_y, target: Some(t.clone()) },
            ),
        },
        Action::ClickTarget { target } => plan_click(target, config),
        Action::RunCommand { command, args } => match unsupported_command_reason(
            command.as_str(),
            config,
        ) {
            Some(reason) => Err(AdapterError::unsupported(reason.to_owned())),
            None => Ok(Task::RunCommand { command: command.clone(), args: copy_texts(args) }),
        },
        Action::WaitFor { .. } | Action::Assert { .. } => Err(
            AdapterError::unsupported(
                concat("Windows adapter does not yet support ", action.kind()),
            ),
        ),
    }
}

/// Decides what the system is to do for an action that may take long.
pub fn plan_task_with_control(action: &Action, config: &RunConfig) -> (r: Result<
    Task,
    AdapterError,
>)
    ensures
        task_result(r) == task_with_control_of(action@, config@),
{
    match action {
        Action::LaunchUrl { url, target } => {
            if let Some(t) = target {
                return checked(
                    unsupported_launch_target_reason(t, config),
                    Task::OpenAndWait { what: url.clone(), target: t.clone() },
                );
            }
            plan_task(action, config)
        },
        Action::LaunchApp { app, target } => {
            if let Some(t) = target {
                return checked(
                    unsupported_launch_target_reason(t, config),
                    Task::OpenAndWait { what: app.clone(), target: t.clone() },
                );
            }
            plan_task(action, config)
        },
        _ => plan_task(action, config),
    }
}

/// An action that preflight refuses is not done either: it comes to an error before anything is
/// done.
pub proof fn refused_actions_do_nothing(a: ActionView, c: RunConfigView)
    requires
        crate::windows::policy::action_reason(a, c) is Some,
    ensures
        task_of(a, c) is Err,
        task_with_control_of(a, c) is Err,
{
}

/// Whether a process is among the running ones, whatever the case of its name.
pub fn process_listed(names: &Vec<String>, wanted: &str) -> (r: bool)
    ensures
        r == exists|i: int|
            0 <= i < names@.len() && same_but_case((#[trigger] names@[i])@, wanted@),
{
    let mut i: usize = 0;
    while i < names.len()
        invariant
            i <= names@.len(),
            forall|j: int| 0 <= j < i ==> !same_but_case((#[trigger] names@[j])@, wanted@),
        decreases names@.len() - i,
    {
        if eq_ignore_ascii_case(names[i].as_str(), wanted) {
            return true;
        }
        i = i + 1;
    }
    false
}

/// The path without the marker by which Windows keeps long paths apart.
pub fn strip_verbatim_path_prefix(path: &str) -> (r: String)
    ensures
        r@ == without_prefix(path@, "\\\\?\\"@),
{
    strip_prefix(path, "\\\\?\\")
}

/// What an approved command that has ended comes to.
pub fn judge_exit(success: bool) -> (r: Result<(), AdapterError>)
    ensures
        match r {
            Ok(_) => success,
            Err(e) => !success && e@ == plain_error(
                RunErrorKind::Adapter,
                "approved command exited unsuccessfully"@,
            ),
        },
{
    if success {
        Ok(())
    } else {
        Err(AdapterError::new("approved command exited unsuccessfully".to_owned()))
    }
}

/// The size of a window on the screen, if it has any.
pub fn screenshot_size(bounds: crate::accessibility::AccessibilityBounds) -> (r: Option<(i32, i32)>)
    ensures
        ({
            let width = bounds.right - bounds.left;
            let height = bounds.bottom - bounds.top;
            if 0 < width <= i32::MAX && 0 < height <= i32::MAX {
                r == Some((width as i32, height as i32))
            } else {
                r is None
            }
        }),
{
    let width: i64 = bounds.right as i64 - bounds.left as i64;
    let height: i64 = bounds.bottom as i64 - bounds.top as i64;
    if 0 < width && width <= 0x7FFF_FFFF && 0 < height && height <= 0x7FFF_FFFF {
        Some((width as i32, height as i32))
    } else {
        None
    }
}

} // verus!
