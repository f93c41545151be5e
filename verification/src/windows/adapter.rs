//! The Windows adapter, as far as it decides. The host has the system do what is decided.
use vstd::prelude::*;
use crate::accessibility::{
    AccessibilityBounds, AccessibilityTree, AdapterCapabilities, SelectorRepairReport,
    WindowIdentity,
};
use crate::adapter::{plain_error, AdapterError, AdapterErrorView, EvidencePhase};
use crate::bitmap::BmpImage;
use crate::bmp_file::{bmp_bytes, bmp_file_size, encode_bmp};
use crate::definition::{
    Action, Assertion, ImageTarget, Platform, Target, TargetView, WaitCondition,
};
use crate::describe::{window_summary, window_target_summary, QuoteStyle};
use crate::elements::{inspect_node, inspected, Element};
use crate::evidence::{
    enforce_evidence_artifact_size, plan_evidence, planned, size_limit, too_large_text,
    EvidencePlan,
};
use crate::looking::{screenshot_artifact, screenshot_view};
use crate::macos::policy::policy_denied;
use crate::queries::{
    assertion_query, opt_query, plan_assertion_target, plan_query, plan_target_query, query_of,
    target_query, Query, QueryView,
};
use crate::run::{Artifact, PreflightDiagnostic, RunConfig, RunErrorKind};
use crate::selectors::{inspection_text, one_text, repair_selector, repaired, still_matches};
use crate::text::texts;
use crate::views::{opt_view, views};
use crate::windows::keys::{amount_of, scroll_amount};
use crate::windows::policy::{
    action_reason, assertion_guard, coordinate_target_reason, guard_picture, guard_wait,
    image_action_target_reason, picture_guard, preflight, preflight_of, refusal,
    reject_unsupported_target, semantic_target_reason, unsupported_action_reason,
    unsupported_coordinate_target_reason, unsupported_image_action_target_reason,
    unsupported_semantic_target_reason_with_config, wait_guard,
};
use crate::windows::tasks::{
    capabilities, plan_task, plan_task_with_control, screenshot_size, task_of, task_result,
    task_with_control_of, unless_refused, Task, TaskView,
};

verus! {

/// The adapter for Windows.
#[derive(Debug)]
pub struct WindowsDesktopAdapter;

impl Default for WindowsDesktopAdapter {
    fn default() -> (r: Self) {
        WindowsDesktopAdapter
    }
}

/// A window of which the elements are shown.
#[derive(Debug, PartialEq)]
pub struct ShownWindow {
    pub title: String,
    pub identity: Option<WindowIdentity>,
    pub root: Element,
}

/// The most elements that an inspection looks at: at least one.
pub open spec fn node_limit(max_nodes: usize) -> usize {
    if max_nodes == 0 {
        1
    } else {
        max_nodes
    }
}

/// What an inspection of a window gives.
pub open spec fn tree_of(
    platform: Platform,
    style: QuoteStyle,
    t: TargetView,
    w: ShownWindow,
    max_depth: u32,
    max_nodes: usize,
    values: bool,
    tree: AccessibilityTree,
) -> bool {
    let done = inspected(
        platform,
        w.title@,
        w.root,
        Seq::empty(),
        max_depth as nat,
        values,
        node_limit(max_nodes) as nat,
    );
    &&& tree.platform == platform
    &&& tree.window_title@ == w.title@
    &&& opt_view(tree.window) == opt_view(w.identity)
    &&& tree.selector@ == window_summary(style, t)
    &&& tree.max_depth == max_depth
    &&& tree.max_nodes == node_limit(max_nodes)
    &&& tree.truncated == done.truncated
    &&& tree.root@ == done.node
}

/// Inspects a window.
pub fn inspect(
    platform: Platform,
    style: QuoteStyle,
    target: &Target,
    window: ShownWindow,
    max_depth: u32,
    max_nodes: usize,
    include_values: bool,
) -> (r: AccessibilityTree)
    ensures
        tree_of(platform, style, target@, window, max_depth, max_nodes, include_values, r),
{
    let limit: usize = if max_nodes == 0 {
        1
    } else {
        max_nodes
    };
    let mut left: usize = limit;
    let mut truncated = false;
    let top: Vec<u32> = Vec::new();
    assert(top@ =~= Seq::empty());
    let root = inspect_node(
        platform,
        window.title.as_str(),
        &window.root,
        &top,
        max_depth,
        include_values,
        &mut left,
        &mut truncated,
    );
    AccessibilityTree {
        platform,
        window_title: window.title,
        window: window.identity,
        selector: window_target_summary(style, target),
        max_depth,
        max_nodes: limit,
        truncated,
        root,
    }
}

impl WindowsDesktopAdapter {
    pub fn capabilities() -> (r: AdapterCapabilities)
        ensures
            r == (AdapterCapabilities {
                platform: Platform::Windows,
                supports_launch: true,
                supports_focus: true,
                supports_input: true,
                supports_semantic_targets: true,
                supports_coordinate_targets: true,
                supports_window_queries: true,
                supports_process_queries: true,
                supports_accessibility_tree: true,
            }),
    {
        capabilities()
    }

    /// Shows the elements of a window, without their values.
    pub fn inspect_window(
        &self,
        target: &Target,
        window: ShownWindow,
        max_depth: u32,
        max_nodes: usize,
    ) -> (r: AccessibilityTree)
        ensures
            tree_of(
                Platform::Windows,
                QuoteStyle::Literal,
                target@,
                window,
                max_depth,
                max_nodes,
                false,
                r,
            ),
    {
        self.inspect_window_with_options(target, window, max_depth, max_nodes, false)
    }

    /// Shows the elements of a window.
    pub fn inspect_window_with_options(
        &self,
        target: &Target,
        window: ShownWindow,
        max_depth: u32,
        max_nodes: usize,
        include_values: bool,
    ) -> (r: AccessibilityTree)
        ensures
            tree_of(
                Platform::Windows,
                QuoteStyle::Literal,
                target@,
                window,
                max_depth,
                max_nodes,
                include_values,
                r,
            ),
    {
        inspect(
            Platform::Windows,
            QuoteStyle::Literal,
            target,
            window,
            max_depth,
            max_nodes,
            include_values,
        )
    }

    /// Offers selectors that could take the place of one that may no longer work. `exists` is what
    /// came of searching for the element of the target.
    pub fn repair_selector(
        &self,
        target: &Target,
        tree: &AccessibilityTree,
        exists: &Result<bool, AdapterError>,
    ) -> (r: SelectorRepairReport)
        ensures
            r.original@ == target@,
            r.matched == still_matches(target@, *exists),
            views(r.candidates@) == repaired(Platform::Windows, target@, tree.root@),
            texts(r.diagnostics@) == one_text(
                inspection_text(tree.window_title@, tree.max_depth, tree.max_nodes, tree.truncated),
            ),
    {
        repair_selector(Platform::Windows, target, tree, exists)
    }

    /// What is in the way of an action.
    pub fn preflight(&self, action: &Action, config: &RunConfig) -> (r: Vec<PreflightDiagnostic>)
        ensures
            views(r@) == preflight_of(action@, config@),
    {
        preflight(action, config)
    }

    /// What the system is to do for an action.
    pub fn execute(&self, action: &Action, config: &RunConfig) -> (r: Result<Task, AdapterError>)
        ensures
            task_result(r) == task_of(action@, config@),
    {
        plan_task(action, config)
    }

    /// What the system is to do for an action that may take long.
    pub fn execute_with_control(&self, action: &Action, config: &RunConfig) -> (r: Result<
        Task,
        AdapterError,
    >)
        ensures
            task_result(r) == task_with_control_of(action@, config@),
    {
        plan_task_with_control(action, config)
    }

    /// What evidence is taken before or after a step.
    pub fn capture_step_evidence(
        &self,
        phase: EvidencePhase,
        action: &Action,
        config: &RunConfig,
        run_id: &str,
        automation_id: &str,
        step_id: &str,
    ) -> (r: Result<Option<EvidencePlan>, AdapterError>)
        ensures
            match r {
                Err(e) => config@.capture_step_evidence && (action_reason(
                    action@,
                    config@,
                ) matches Some(reason) && e@ == refusal(reason)),
                Ok(plan) => (config@.capture_step_evidence ==> action_reason(action@, config@) is None)
                    && opt_view(plan) == planned(
                    Platform::Windows,
                    phase,
                    action@,
                    config@,
                    run_id@,
                    automation_id@,
                    step_id@,
                ),
            },
    {
        let refused = reject_unsupported_target(unsupported_action_reason(action, config));
        plan_evidence(
            Platform::Windows,
            phase,
            action,
            config,
            refused,
            run_id,
            automation_id,
            step_id,
        )
    }

    /// What the system is to do to invoke a target: click a point, or invoke an element.
    pub fn invoke_target(&self, target: &Target, config: &RunConfig) -> (r: Result<
        Task,
        AdapterError,
    >)
        ensures
            task_result(r) == (match target@.coordinates {
                Some(point) => unless_refused(
                    coordinate_target_reason(target@, config@),
                    TaskView::ClickPoint { x: point.x, y: point.y },
                ),
                None => unless_refused(
                    semantic_target_reason(target@, config@),
                    TaskView::Invoke { target: target@ },
                ),
            }),
    {
        let reason = if target.coordinates.is_some() {
            unsupported_coordinate_target_reason(target, config)
        } else {
            unsupported_semantic_target_reason_with_config(target, config)
        };
        match reject_unsupported_target(reason) {
            Ok(_) => {},
            Err(e) => {
                return Err(e);
            },
        }
        match target.coordinates {
            Some(point) => Ok(Task::ClickPoint { x: point.x, y: point.y }),
            None => Ok(Task::Invoke { target: target.clone() }),
        }
    }

    /// What the system is to do to set the text of an element.
    pub fn set_target_text(&self, target: &Target, text: &str, config: &RunConfig) -> (r: Result<
        Task,
        AdapterError,
    >)
        ensures
            task_result(r) == unless_refused(
                semantic_target_reason(target@, config@),
                TaskView::SetText { target: target@, text: text@ },
            ),
    {
        let reason = unsupported_semantic_target_reason_with_config(target, config);
        match reject_unsupported_target(reason) {
            Ok(_) => {},
            Err(e) => {
                return Err(e);
            },
        }
        Ok(Task::SetText { target: target.clone(), text: text.to_owned() })
    }

    /// What is asked to learn whether a condition holds; a wait for some time asks nothing.
    pub fn evaluate_wait(&self, condition: &WaitCondition, config: &RunConfig) -> (r: Result<
        Option<Query>,
        AdapterError,
    >)
        ensures
            match r {
                Ok(query) => wait_guard(condition@, config@) is None && opt_query(query)
                    == query_of(condition@),
                Err(e) => wait_guard(condition@, config@) == Some(e@),
            },
    {
        match guard_wait(condition, config) {
            Ok(_) => Ok(plan_query(condition)),
            Err(e) => Err(e),
        }
    }

    /// What is asked to learn whether an assertion holds.
    pub fn evaluate_assertion(&self, assertion: &Assertion, config: &RunConfig) -> (r: Result<
        Option<Query>,
        AdapterError,
    >)
        ensures
            match r {
                Ok(query) => assertion_guard(assertion@, config@) is None && opt_query(query)
                    == assertion_query(assertion@),
                Err(e) => assertion_guard(assertion@, config@) == Some(e@),
            },
    {
        match assertion {
            Assertion::TargetExists { target } => match guard_picture(target, config) {
                Ok(_) => Ok(Some(plan_assertion_target(target))),
                Err(e) => Err(e),
            },
            Assertion::Condition { condition } => self.evaluate_wait(condition, config),
        }
    }

    /// What is asked to learn whether a target exists.
    pub fn target_exists(&self, target: &Target, config: &RunConfig) -> (r: Result<
        Query,
        AdapterError,
    >)
        ensures
            match r {
                Ok(query) => picture_guard(target@, config@) is None && query@ == target_query(
                    target@,
                ),
                Err(e) => picture_guard(target@, config@) == Some(e@),
            },
    {
        match guard_picture(target, config) {
            Ok(_) => Ok(plan_target_query(target)),
            Err(e) => Err(e),
        }
    }

    /// What is asked to learn whether a target has the focus.
    pub fn target_is_focused(&self, target: &Target) -> (r: Query)
        ensures
            r@ == (QueryView::ElementFocused { target: target@ }),
    {
        Query::ElementFocused { target: target.clone() }
    }

    /// What the system is to do to scroll an element.
    pub fn scroll_target(
        &self,
        target: &Target,
        delta_x: i32,
        delta_y: i32,
        config: &RunConfig,
    ) -> (r: Result<Task, AdapterError>)
        ensures
            task_result(r) == unless_refused(
                semantic_target_reason(target@, config@),
                TaskView::ScrollElement {
                    target: target@,
                    horizontal: amount_of(delta_x),
                    vertical: amount_of(delta_y),
                },
            ),
    {
        let reason = unsupported_semantic_target_reason_with_config(target, config);
        match reject_unsupported_target(reason) {
            Ok(_) => {},
            Err(e) => {
                return Err(e);
            },
        }
        Ok(
            Task::ScrollElement {
                target: target.clone(),
                horizontal: scroll_amount(delta_x),
                vertical: scroll_amount(delta_y),
            },
        )
    }

    /// The image that is to be looked for in a window.
    pub fn image_to_find(&self, target: &Target, config: &RunConfig) -> (r: Result<
        ImageTarget,
        AdapterError,
    >)
        ensures
            match r {
                Ok(image) => image_action_target_reason(target@, config@) is None
                    && target@.image == Some(image@),
                Err(e) => match image_action_target_reason(target@, config@) {
                    Some(reason) => e@ == refusal(reason),
                    None => target@.image is None && e@ == plain_error(
                        RunErrorKind::Unsupported,
                        "visual matching requires an image target"@,
                    ),
                },
            },
    {
        match reject_unsupported_target(unsupported_image_action_target_reason(target, config)) {
            Ok(_) => {},
            Err(e) => {
                return Err(e);
            },
        }
        match &target.image {
            Some(image) => Ok(image.clone()),
            None => Err(
                AdapterError::unsupported("visual matching requires an image target".to_owned()),
            ),
        }
    }

    /// The size of the picture that is taken of a window with the given bounds; as evidence it has
    /// to be within the limit of the run.
    pub fn window_capture_size(
        &self,
        bounds: Option<AccessibilityBounds>,
        evidence: Option<&RunConfig>,
    ) -> (r: Result<(i32, i32), AdapterError>)
        ensures
            match r {
                Ok((width, height)) => {
                    &&& bounds matches Some(b) && width == b.right - b.left && height == b.bottom
                        - b.top
                    &&& width > 0 && height > 0
                    &&& evidence matches Some(config) ==> 54 + width * height * 4 <= size_limit(
                        config@,
                    )
                },
                Err(e) => capture_problem(bounds, evidence) == Some(e@),
            },
    {
        let bounds = match bounds {
            Some(bounds) => bounds,
            None => {
                return Err(
                    AdapterError::new("Windows could not determine window bounds".to_owned()),
                );
            },
        };
        let (width, height) = match screenshot_size(bounds) {
            Some(size) => size,
            None => {
                return Err(
                    AdapterError::new("Windows window has empty screenshot bounds".to_owned()),
                );
            },
        };
        if let Some(config) = evidence {
            let size = bmp_file_size(width, height)?;
            match enforce_evidence_artifact_size(size, config) {
                Ok(_) => {},
                Err(e) => {
                    return Err(e);
                },
            }
        }
        Ok((width, height))
    }

    /// The file of a picture of the desktop, and what is reported of it.
    pub fn capture_screenshot(&self, captured: &BmpImage, path: &str) -> (r: (Vec<u8>, Artifact))
        requires
            captured.height > i32::MIN,
        ensures
            r.0@ == bmp_bytes(captured.width as int, captured.height as int, captured.pixels@),
            r.1@ == screenshot_view(Platform::Windows, false, path@),
    {
        (
            encode_bmp(captured.width, captured.height, &captured.pixels),
            screenshot_artifact(Platform::Windows, false, path),
        )
    }

    /// The file of a picture of a window, and what is reported of it.
    pub fn capture_window_screenshot(&self, captured: &BmpImage, path: &str) -> (r: (
        Vec<u8>,
        Artifact,
    ))
        requires
            captured.height > i32::MIN,
        ensures
            r.0@ == bmp_bytes(captured.width as int, captured.height as int, captured.pixels@),
            r.1@ == screenshot_view(Platform::Windows, true, path@),
    {
        (
            encode_bmp(captured.width, captured.height, &captured.pixels),
            screenshot_artifact(Platform::Windows, true, path),
        )
    }
}

/// Why no picture is taken of a window.
pub open spec fn capture_problem(
    bounds: Option<AccessibilityBounds>,
    evidence: Option<&RunConfig>,
) -> Option<AdapterErrorView> {
    match bounds {
        None => Some(
            plain_error(RunErrorKind::Adapter, "Windows could not determine window bounds"@),
        ),
        Some(b) => {
            let width = b.right - b.left;
            let height = b.bottom - b.top;
            if !(0 < width <= i32::MAX && 0 < height <= i32::MAX) {
                Some(
                    plain_error(
                        RunErrorKind::Adapter,
                        "Windows window has empty screenshot bounds"@,
                    ),
                )
            } else {
                let size = 54 + width * height * 4;
                match evidence {
                    Some(config) => if size > size_limit(config@) {
                        Some(policy_denied(too_large_text(size as u64, size_limit(config@))))
                    } else {
                        None
                    },
                    None => None,
                }
            }
        },
    }
}

} // verus!
