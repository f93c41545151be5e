//! The macOS adapter, as far as it decides. The host has the system do what is decided.
use vstd::prelude::*;
use crate::accessibility::{AccessibilityTree, AdapterCapabilities, SelectorRepairReport};
use crate::adapter::{plain_error, AdapterError, AdapterErrorView, EvidencePhase};
use crate::definition::{Action, Assertion, ImageTarget, Platform, Target, WaitCondition};
use crate::describe::QuoteStyle;
use crate::evidence::{plan_evidence, planned, EvidencePlan};
use crate::looking::{screenshot_artifact, screenshot_view};
use crate::macos::desktop::MacWindow;
use crate::macos::policy::{
    action_reason, coordinate_target_reason, image_target_reason, preflight, preflight_of, refusal,
    reject_unsupported_target, semantic_target_reason_with_config, unsupported_action_reason,
    unsupported_coordinate_target_reason, unsupported_image_target_reason,
    unsupported_semantic_target_reason_with_config, unsupported_window_target_reason,
    window_target_reason,
};
use crate::macos::tasks::{
    assertion_guard, capabilities, element_reason, ensure_accessibility_permission, guard_picture,
    guard_wait, picture_guard, plan_task, plan_task_with_control, task_of, task_result,
    task_with_control_of, unless_refused, unsupported_element_reason, wait_guard, Task, TaskView,
};
use crate::queries::{
    assertion_query, opt_query, plan_assertion_target, plan_query, plan_target_query, query_of,
    target_query, Query, QueryView,
};
use crate::run::{Artifact, FailureKind, PreflightDiagnostic, RunConfig, RunErrorKind};
use crate::selectors::{inspection_text, one_text, repair_selector, repaired, still_matches};
use crate::text::{decimal, format_u64, texts};
use crate::views::{opt_view, views};
use crate::windows::adapter::{inspect, tree_of, ShownWindow};

verus! {

/// The adapter for macOS.
#[derive(Debug)]
pub struct MacOsDesktopAdapter {
    /// Whether the process has been granted Accessibility permission.
    pub trusted: bool,
}

/// The error where Accessibility permission is missing.
pub open spec fn no_permission() -> AdapterErrorView {
    AdapterErrorView {
        message: "macOS Accessibility permission is required for semantic automation"@,
        kind: RunErrorKind::Adapter,
        diagnostics: Some("failureKind=capabilityUnavailable"@),
        failure_kind: Some(FailureKind::CapabilityUnavailable),
    }
}

impl MacOsDesktopAdapter {
    pub fn capabilities(trusted: bool) -> (r: AdapterCapabilities)
        ensures
            r == (AdapterCapabilities {
                platform: Platform::MacOs,
                supports_launch: true,
                supports_focus: true,
                supports_input: true,
                supports_semantic_targets: trusted,
                supports_coordinate_targets: true,
                supports_window_queries: true,
                supports_process_queries: true,
                supports_accessibility_tree: trusted,
            }),
    {
        capabilities(trusted)
    }

    /// Shows the elements of a window, without their values.
    pub fn inspect_window(
        &self,
        target: &Target,
        window: ShownWindow,
        max_depth: u32,
        max_nodes: usize,
    ) -> (r: Result<AccessibilityTree, AdapterError>)
        ensures
            match r {
                Ok(tree) => self.trusted && window_target_reason(target@) is None && tree_of(
                    Platform::MacOs,
                    QuoteStyle::Plain,
                    target@,
                    window,
                    max_depth,
                    max_nodes,
                    false,
                    tree,
                ),
                Err(e) => if !self.trusted {
                    e@ == no_permission()
                } else {
                    window_target_reason(target@) matches Some(reason) && e@ == refusal(reason)
                },
            },
    {
        self.inspect_window_with_options(target, window, max_depth, max_nodes, false)
    }

    /// Shows the elements of a window.
    pub fn inspect_window_with_options(
        &self,
        target: &Target,
        window: ShownWindow,
        max_depth: u32,
        max_nodes: usize,
        include_values: bool,
    ) -> (r: Result<AccessibilityTree, AdapterError>)
        ensures
            match r {
                Ok(tree) => self.trusted && window_target_reason(target@) is None && tree_of(
                    Platform::MacOs,
                    QuoteStyle::Plain,
                    target@,
                    window,
                    max_depth,
                    max_nodes,
                    include_values,
                    tree,
                ),
                Err(e) => if !self.trusted {
                    e@ == no_permission()
                } else {
                    window_target_reason(target@) matches Some(reason) && e@ == refusal(reason)
                },
            },
    {
        match ensure_accessibility_permission(self.trusted) {
            Ok(_) => {},
            Err(e) => {
                return Err(e);
            },
        }
        match reject_unsupported_target(unsupported_window_target_reason(target)) {
            Ok(_) => {},
            Err(e) => {
                return Err(e);
            },
        }
        Ok(
            inspect(
                Platform::MacOs,
                QuoteStyle::Plain,
                target,
                window,
                max_depth,
                max_nodes,
                include_values,
            ),
        )
    }

    /// Offers selectors that could take the place of one that may no longer work. `exists` is what
    /// came of searching for the element of the target.
    pub fn repair_selector(
        &self,
        target: &Target,
        tree: &AccessibilityTree,
        exists: &Result<bool, AdapterError>,
    ) -> (r: SelectorRepairReport)
        ensures
            r.original@ == target@,
            r.matched == still_matches(target@, *exists),
            views(r.candidates@) == repaired(Platform::MacOs, target@, tree.root@),
            texts(r.diagnostics@) == one_text(
                inspection_text(tree.window_title@, tree.max_depth, tree.max_nodes, tree.truncated),
            ),
    {
        repair_selector(Platform::MacOs, target, tree, exists)
    }

    /// What is in the way of an action.
    pub fn preflight(&self, action: &Action, config: &RunConfig) -> (r: Vec<PreflightDiagnostic>)
        ensures
            views(r@) == preflight_of(action@, config@, self.trusted),
    {
        preflight(action, config, self.trusted)
    }

    /// What the system is to do for an action.
    pub fn execute(&self, action: &Action, config: &RunConfig) -> (r: Result<Task, AdapterError>)
        ensures
            task_result(r) == task_of(action@, config@, self.trusted),
    {
        plan_task(action, config, self.trusted)
    }

    /// What the system is to do for an action that may take long.
    pub fn execute_with_control(&self, action: &Action, config: &RunConfig) -> (r: Result<
        Task,
        AdapterError,
    >)
        ensures
            task_result(r) == task_with_control_of(action@, config@, self.trusted),
    {
        plan_task_with_control(action, config, self.trusted)
    }

    /// What evidence is taken before or after a step.
    pub fn capture_step_evidence(
        &self,
        phase: EvidencePhase,
        action: &Action,
        config: &RunConfig,
        run_id: &str,
        automation_id: &str,
        step_id: &str,
    ) -> (r: Result<Option<EvidencePlan>, AdapterError>)
        ensures
            match r {
                Err(e) => config@.capture_step_evidence && (action_reason(
                    action@,
                    config@,
                    self.trusted,
                ) matches Some(reason) && e@ == refusal(reason)),
                Ok(plan) => (config@.capture_step_evidence ==> action_reason(
                    action@,
                    config@,
                    self.trusted,
                ) is None) && opt_view(plan) == planned(
                    Platform::MacOs,
                    phase,
                    action@,
                    config@,
                    run_id@,
                    automation_id@,
                    step_id@,
                ),
            },
    {
        let refused = reject_unsupported_target(
            unsupported_action_reason(action, config, self.trusted),
        );
        plan_evidence(
            Platform::MacOs,
            phase,
            action,
            config,
            refused,
            run_id,
            automation_id,
            step_id,
        )
    }

    /// What the system is to do to invoke a target: click a point, or invoke an element.
    pub fn invoke_target(&self, target: &Target, config: &RunConfig) -> (r: Result<
        Task,
        AdapterError,
    >)
        ensures
            task_result(r) == (match target@.coordinates {
                Some(point) => unless_refused(
                    coordinate_target_reason(target@, config@),
                    TaskView::ClickPoint { x: point.x, y: point.y },
                ),
                None => unless_refused(
                    semantic_target_reason_with_config(target@, config@, self.trusted),
                    TaskView::Invoke { target: target@ },
                ),
            }),
    {
        let reason = if target.coordinates.is_some() {
            unsupported_coordinate_target_reason(target, config)
        } else {
            unsupported_semantic_target_reason_with_config(target, config, self.trusted)
        };
        match reject_unsupported_target(reason) {
            Ok(_) => {},
            Err(e) => {
                return Err(e);
            },
        }
        match target.coordinates {
            Some(point) => Ok(Task::ClickPoint { x: point.x, y: point.y }),
            None => Ok(Task::Invoke { target: target.clone() }),
        }
    }

    /// What the system is to do to set the text of an element.
    pub fn set_target_text(&self, target: &Target, text: &str, config: &RunConfig) -> (r: Result<
        Task,
        AdapterError,
    >)
        ensures
            task_result(r) == unless_refused(
                element_reason(target@, config@, self.trusted),
                TaskView::SetText { target: target@, text: text@ },
            ),
    {
        let reason = unsupported_element_reason(target, config, self.trusted);
        match reject_unsupported_target(reason) {
            Ok(_) => {},
            Err(e) => {
                return Err(e);
            },
        }
        Ok(Task::SetText { target: target.clone(), text: text.to_owned() })
    }

    /// What is asked to learn whether a condition holds; a wait for some time asks nothing.
    pub fn evaluate_wait(&self, condition: &WaitCondition, config: &RunConfig) -> (r: Result<
        Option<Query>,
        AdapterError,
    >)
        ensures
            match r {
                Ok(query) => wait_guard(condition@, config@) is None && opt_query(query)
                    == query_of(condition@),
                Err(e) => wait_guard(condition@, config@) == Some(e@),
            },
    {
        match guard_wait(condition, config) {
            Ok(_) => Ok(plan_query(condition)),
            Err(e) => Err(e),
        }
    }

    /// What is asked to learn whether an assertion holds.
    pub fn evaluate_assertion(&self, assertion: &Assertion, config: &RunConfig) -> (r: Result<
        Option<Query>,
        AdapterError,
    >)
        ensures
            match r {
                Ok(query) => assertion_guard(assertion@, config@) is None && opt_query(query)
                    == assertion_query(assertion@),
                Err(e) => assertion_guard(assertion@, config@) == Some(e@),
            },
    {
        match assertion {
            Assertion::TargetExists { target } => match guard_picture(target, config) {
                Ok(_) => Ok(Some(plan_assertion_target(target))),
                Err(e) => Err(e),
            },
            Assertion::Condition { condition } => self.evaluate_wait(condition, config),
        }
    }

    /// What is asked to learn whether a target exists.
    pub fn target_exists(&self, target: &Target, config: &RunConfig) -> (r: Result<
        Query,
        AdapterError,
    >)
        ensures
            match r {
                Ok(query) => picture_guard(target@, config@) is None && query@ == target_query(
                    target@,
                ),
                Err(e) => picture_guard(target@, config@) == Some(e@),
            },
    {
        match guard_picture(target, config) {
            Ok(_) => Ok(plan_target_query(target)),
            Err(e) => Err(e),
        }
    }

    /// What is asked to learn whether a target has the focus.
    pub fn target_is_focused(&self, target: &Target) -> (r: Query)
        ensures
            r@ == (QueryView::ElementFocused { target: target@ }),
    {
        Query::ElementFocused { target: target.clone() }
    }

    /// What the system is to do to scroll an element.
    pub fn scroll_target(&self, target: &Target, delta_y: i32, config: &RunConfig) -> (r: Result<
        Task,
        AdapterError,
    >)
        ensures
            task_result(r) == unless_refused(
                element_reason(target@, config@, self.trusted),
                TaskView::ScrollTarget { target: target@, delta_y },
            ),
    {
        let reason = unsupported_element_reason(target, config, self.trusted);
        match reject_unsupported_target(reason) {
            Ok(_) => {},
            Err(e) => {
                return Err(e);
            },
        }
        Ok(Task::ScrollTarget { target: target.clone(), delta_y })
    }

    /// The image that is to be looked for in a window.
    pub fn image_to_find(&self, target: &Target, config: &RunConfig) -> (r: Result<
        ImageTarget,
        AdapterError,
    >)
        ensures
            match r {
                Ok(image) => image_target_reason(target@, config@) is None && target@.image == Some(
                    image@,
                ),
                Err(e) => match image_target_reason(target@, config@) {
                    Some(reason) => e@ == refusal(reason),
                    None => target@.image is None && e@ == plain_error(
                        RunErrorKind::Unsupported,
                        "visual matching requires an image target"@,
                    ),
                },
            },
    {
        match reject_unsupported_target(unsupported_image_target_reason(target, config)) {
            Ok(_) => {},
            Err(e) => {
                return Err(e);
            },
        }
        match &target.image {
            Some(image) => Ok(image.clone()),
            None => Err(
                AdapterError::unsupported("visual matching requires an image target".to_owned()),
            ),
        }
    }

    /// What `screencapture` is told to take a picture of the desktop, and what is reported of it.
    pub fn capture_screenshot(&self, path: &str) -> (r: (Vec<String>, Artifact))
        ensures
            texts(r.0@) == seq!["-x"@, path@],
            r.1@ == screenshot_view(Platform::MacOs, false, path@),
    {
        let args: Vec<String> = vec!["-x".to_owned(), path.to_owned()];
        assert(texts(args@) =~= seq!["-x"@, path@]);
        (args, screenshot_artifact(Platform::MacOs, false, path))
    }

    /// What `screencapture` is told to take a picture of a window, and what is reported of it.
    pub fn capture_window_screenshot(&self, window: &MacWindow, path: &str) -> (r: (
        Vec<String>,
        Artifact,
    ))
        ensures
            texts(r.0@) == seq!["-x"@, "-l"@, decimal(window.window_id as nat), path@],
            r.1@ == screenshot_view(Platform::MacOs, true, path@),
    {
        let id = format_u64(window.window_id as u64);
        let args: Vec<String> = vec!["-x".to_owned(), "-l".to_owned(), id, path.to_owned()];
        assert(texts(args@) =~= seq![
            "-x"@,
            "-l"@,
            decimal(window.window_id as nat),
            path@,
        ]);
        (args, screenshot_artifact(Platform::MacOs, true, path))
    }
}

} // verus!
