//! What is asked, what is shown and what is kept of a window.
use vstd::prelude::*;
use crate::accessibility::NodeView;
use crate::adapter::{AdapterError, ConditionState, EvidencePhase};
use crate::attempts::{judge_assertion, judge_poll, judge_sleep, Poll};
use crate::definition::{
    Action, ActionView, Assertion, AssertionView, DurationSpec, Platform, WaitCondition,
    WaitConditionView,
};
use crate::describe::safe_artifact_component;
use crate::elements::{inspected, inspected_children, Element};
use crate::evidence::{enforce_evidence_artifact_size, plan_evidence, EvidencePlan};
use crate::queries::{assertion_query, judge_answer, judge_assertion_answer, query_of, QueryView};
use crate::run::{Artifact, FailureKind, RunConfig, RunErrorKind};
use crate::time::Duration;

verus! {

/// A condition holds where the answer to its question is yes; that something is not there holds
/// where the answer is no. An error is no answer.
pub proof fn answers_decide_conditions(
    condition: &WaitCondition,
    assertion: &Assertion,
    answer: Result<bool, AdapterError>,
    state: Result<ConditionState, AdapterError>,
    holds: Result<bool, AdapterError>,
)
    requires
        call_ensures(judge_answer, (condition, answer), state),
        call_ensures(judge_assertion_answer, (assertion, answer), holds),
    ensures
        answer is Err ==> state is Err && state->Err_0 == answer->Err_0 && holds is Err
            && holds->Err_0 == answer->Err_0,
        answer is Ok ==> state is Ok && holds is Ok,
        answer is Ok && !(condition is TargetNotExists) ==> (state->Ok_0
            == ConditionState::Satisfied <==> answer->Ok_0),
        answer is Ok && condition is TargetNotExists ==> (state->Ok_0 == ConditionState::Satisfied
            <==> !answer->Ok_0),
        answer is Ok ==> match assertion {
            Assertion::TargetExists { .. } => holds->Ok_0 == answer->Ok_0,
            Assertion::Condition { condition: c } => holds->Ok_0 == (answer->Ok_0 != (c
                is TargetNotExists)),
        },
{
}

/// Whether a question is the one that a condition puts.
pub open spec fn asks(c: WaitConditionView, q: QueryView) -> bool {
    match (c, q) {
        (WaitConditionView::FileExists { path }, QueryView::FileExists { path: p }) => p == path,
        (
            WaitConditionView::WindowExists { target },
            QueryView::WindowExists { target: t },
        ) => t == target && target.accessibility is None,
        (
            WaitConditionView::WindowExists { target },
            QueryView::ElementExists { target: t },
        ) => t == target && target.accessibility is Some,
        (
            WaitConditionView::WindowFocused { target },
            QueryView::WindowFocused { target: t },
        ) => t == target,
        (
            WaitConditionView::TargetExists { target },
            QueryView::ImageExists { target: t },
        ) => t == target && target.image is Some,
        (
            WaitConditionView::TargetExists { target },
            QueryView::ElementExists { target: t },
        ) => t == target && target.image is None,
        (
            WaitConditionView::TargetNotExists { target },
            QueryView::ImageExists { target: t },
        ) => t == target && target.image is Some,
        (
            WaitConditionView::TargetNotExists { target },
            QueryView::ElementExists { target: t },
        ) => t == target && target.image is None,
        (
            WaitConditionView::TargetFocused { target },
            QueryView::ElementFocused { target: t },
        ) => t == target,
        (
            WaitConditionView::TargetEnabled { target },
            QueryView::ElementEnabled { target: t },
        ) => t == target,
        (
            WaitConditionView::TargetVisible { target },
            QueryView::ElementVisible { target: t },
        ) => t == target,
        (
            WaitConditionView::TargetActionable { target },
            QueryView::ElementActionable { target: t },
        ) => t == target,
        (
            WaitConditionView::TargetNameContains { target, text },
            QueryView::ElementNameContains { target: t, text: x },
        ) => t == target && x == text,
        (
            WaitConditionView::TargetValueContains { target, text },
            QueryView::ElementValueContains { target: t, text: x },
        ) => t == target && x == text,
        (
            WaitConditionView::ProcessRunning { target },
            QueryView::ProcessRunning { target: t },
        ) => t == target,
        (
            WaitConditionView::CommandExits { command, args },
            QueryView::CommandSucceeds { command: c2, args: a },
        ) => c2 == command && a == args,
        _ => false,
    }
}

/// Every condition but a wait for some time puts its own question, about what it names.
pub proof fn conditions_put_their_own_question(condition: WaitConditionView)
    ensures
        query_of(condition) is None <==> condition is Duration,
        query_of(condition) is Some ==> asks(condition, query_of(condition)->0),
        assertion_query(AssertionView::Condition { condition }) == query_of(condition),
{
}

/// A condition that is looked at is done once it holds; it has run out of time once the time is up;
/// and otherwise it is looked at again after a tenth of a second, or sooner where less is left.
pub proof fn conditions_are_looked_at_until_the_time_is_up(
    state: ConditionState,
    elapsed: Duration,
    timeout: Duration,
    r: Poll,
)
    requires
        call_ensures(judge_poll, (state, elapsed, timeout), r),
    ensures
        r == Poll::Done <==> state == ConditionState::Satisfied,
        r == Poll::TimedOut <==> state == ConditionState::Pending && elapsed.nanos >= timeout.nanos,
        r matches Poll::SleepFor(nap) ==> {
            &&& 0 < nap.nanos <= 100_000_000
            &&& elapsed.nanos + nap.nanos <= timeout.nanos
            &&& nap.nanos == 100_000_000 || elapsed.nanos + nap.nanos == timeout.nanos
        },
{
}

/// A wait for some time succeeds where it slept through and the time is no more than the step
/// allows; an assertion where it holds.
pub proof fn waits_and_assertions_come_to_what_they_say(
    requested: DurationSpec,
    timeout: Option<DurationSpec>,
    completed: bool,
    slept: Result<(), AdapterError>,
    result: Result<bool, AdapterError>,
    asserted: Result<Vec<Artifact>, AdapterError>,
)
    requires
        call_ensures(judge_sleep, (requested, timeout, completed), slept),
        call_ensures(judge_assertion, (result,), asserted),
    ensures
        slept is Ok <==> completed && (timeout is None || requested.millis <= timeout->0.millis),
        !completed ==> slept is Err && slept->Err_0@.kind == RunErrorKind::Cancelled,
        completed && slept is Err ==> slept->Err_0@.kind == RunErrorKind::Timeout,
        asserted is Ok <==> result == Ok::<bool, AdapterError>(true),
        result == Ok::<bool, AdapterError>(false) ==> asserted->Err_0@.kind
            == RunErrorKind::Assertion,
        result is Err ==> asserted is Err && asserted->Err_0 == result->Err_0,
        asserted is Ok ==> asserted->Ok_0@.len() == 0,
{
    if result is Ok {
        assert(result == Ok::<bool, AdapterError>(true) || result == Ok::<bool, AdapterError>(
            false,
        ));
    }
    if asserted is Ok {
        let shown = crate::views::views(asserted->Ok_0@);
        assert(shown.len() == asserted->Ok_0@.len());
    }
}

/// An artifact is kept where it is no larger than the run allows, which is 25 mebibytes where the
/// run says nothing.
pub proof fn artifacts_keep_to_their_size(
    size: u64,
    config: &RunConfig,
    r: Result<(), AdapterError>,
)
    requires
        call_ensures(enforce_evidence_artifact_size, (size, config), r),
    ensures
        config.evidence_max_artifact_bytes is Some ==> (r is Ok <==> size
            <= config.evidence_max_artifact_bytes->0),
        config.evidence_max_artifact_bytes is None ==> (r is Ok <==> size <= 25 * 1024 * 1024),
        r is Err ==> r->Err_0@.failure_kind == Some(FailureKind::PolicyDenied),
{
}

/// Names of files keep their letters, digits, hyphens, underscores and dots, each in its place, and
/// have a hyphen for everything else.
pub proof fn file_names_are_safe(value: &str, r: String, i: int)
    requires
        call_ensures(safe_artifact_component, (value,), r),
    ensures
        r@.len() == value@.len(),
        0 <= i < value@.len() ==> ({
            let c = value@[i];
            if 'a' <= c <= 'z' || 'A' <= c <= 'Z' || '0' <= c <= '9' || c == '-' || c == '_' || c
                == '.' {
                r@[i] == c
            } else {
                r@[i] == '-'
            }
        }),
{
}

/// Evidence is taken only where the run asks for it and says where it goes, and only of a window;
/// of an action that is refused none is taken. Pictures and values are taken only with approval.
/// What is taken goes under the name of the step.
pub proof fn evidence_is_taken_where_asked_for(
    platform: Platform,
    phase: EvidencePhase,
    action: &Action,
    config: &RunConfig,
    refused: Result<(), AdapterError>,
    run_id: &str,
    automation_id: &str,
    step_id: &str,
    r: Result<Option<EvidencePlan>, AdapterError>,
)
    requires
        call_ensures(
            plan_evidence,
            (platform, phase, action, config, refused, run_id, automation_id, step_id),
            r,
        ),
    ensures
        !config.capture_step_evidence ==> r is Ok && r->Ok_0 is None,
        config.capture_step_evidence && refused is Err ==> r is Err && r->Err_0 == refused->Err_0,
        refused is Ok ==> r is Ok,
        r is Ok && r->Ok_0 is Some ==> ({
            let plan = r->Ok_0->0@;
            &&& refused is Ok && config.capture_step_evidence && config.evidence_directory is Some
            &&& plan.target.window_title is Some || plan.target.title_contains is Some || (platform
                == Platform::MacOs && plan.target.app_name is Some)
            &&& plan.screenshot_file is Some <==> config.allow_screenshot_capture
            &&& plan.include_values == config.allow_value_capture
            &&& plan.folders == seq!["steps"@, step_id@]
            &&& plan.max_depth == 3 && plan.max_nodes == 300
            &&& action@ matches ActionView::FocusWindow { target } ==> plan.target == target
            &&& action@ matches ActionView::ClickTarget { target } ==> plan.target == target
            &&& action@ matches ActionView::TypeText { target, .. } ==> Some(plan.target) == target
            &&& action@ matches ActionView::PressKey { target, .. } ==> Some(plan.target) == target
            &&& action@ matches ActionView::Scroll { target, .. } ==> Some(plan.target) == target
            &&& action@ matches ActionView::LaunchUrl { target, .. } ==> Some(plan.target) == target
            &&& action@ matches ActionView::LaunchApp { target, .. } ==> Some(plan.target) == target
            &&& !(action is RunCommand)
            &&& action is OpenFile ==> platform == Platform::MacOs
        }),
        refused is Ok && config.capture_step_evidence && config.evidence_directory is Some && (
        action@ matches ActionView::ClickTarget { target } && target.window_title is Some) ==> r
            is Ok && r->Ok_0 is Some,
{
}

/// Whether a node shows an element at a place, and what is inside the element.
pub open spec fn shows(n: NodeView, e: Element, path: Seq<u32>, values: bool) -> bool
    decreases e, 0nat,
{
    let f = e.facts@;
    &&& n.path == path
    &&& f.name is Some ==> n.name == f.name->0
    &&& f.name is None ==> n.name.len() == 0
    &&& f.automation_id is Some ==> n.automation_id == f.automation_id->0
    &&& f.automation_id is None ==> n.automation_id.len() == 0
    &&& f.control_type is Some ==> n.control_type == f.control_type->0
    &&& n.class_name == f.class_name && n.bounds == f.bounds && n.enabled == f.enabled
    &&& n.keyboard_focusable == f.keyboard_focusable && n.has_keyboard_focus == f.has_keyboard_focus
    &&& n.actions == f.actions
    &&& n.value is Some ==> values && f.password != Some(true) && n.value == f.value
    &&& values && f.password != Some(true) ==> n.value == f.value
    &&& n.children.len() > 0 ==> e.children is Ok
    &&& e.children is Ok ==> all_show(
        n.children,
        n.children.len(),
        e.children->Ok_0@,
        e.children->Ok_0@.len(),
        path,
        values,
    )
}

/// Whether the first nodes show some of the first children of an element, each under its number and
/// in order.
pub open spec fn all_show(
    nodes: Seq<NodeView>,
    k: nat,
    children: Seq<Option<Element>>,
    n: nat,
    path: Seq<u32>,
    values: bool,
) -> bool
    decreases children, n,
{
    if k == 0 {
        true
    } else if n == 0 || n > children.len() || k > nodes.len() {
        false
    } else {
        ||| all_show(nodes, k, children, (n - 1) as nat, path, values)
        ||| {
            &&& children[n - 1] matches Some(child) && shows(
                nodes[k - 1],
                child,
                path.push((n - 1) as u32),
                values,
            )
            &&& all_show(nodes, (k - 1) as nat, children, (n - 1) as nat, path, values)
        }
    }
}

proof fn fewer_show_the_same(
    a: Seq<NodeView>,
    b: Seq<NodeView>,
    k: nat,
    children: Seq<Option<Element>>,
    n: nat,
    path: Seq<u32>,
    values: bool,
)
    requires
        k <= a.len(),
        k <= b.len(),
        forall|i: int| 0 <= i < k ==> a[i] == b[i],
        all_show(a, k, children, n, path, values),
    ensures
        all_show(b, k, children, n, path, values),
    decreases n,
{
    if k > 0 {
        if all_show(a, k, children, (n - 1) as nat, path, values) {
            fewer_show_the_same(a, b, k, children, (n - 1) as nat, path, values);
        } else {
            fewer_show_the_same(a, b, (k - 1) as nat, children, (n - 1) as nat, path, values);
        }
    }
}

/// An inspection shows the elements that are there: each at its place, with what it tells of
/// itself, inside the element that it is inside of. No value of a password field is shown, and no
/// value at all where none is asked for.
pub proof fn inspections_show_what_is_there(
    platform: Platform,
    title: Seq<char>,
    e: Element,
    path: Seq<u32>,
    depth: nat,
    values: bool,
    left: nat,
)
    ensures
        shows(
            inspected(platform, title, e, path, depth, values, left).node,
            e,
            path,
            values,
        ),
    decreases e, 0nat,
{
    if depth > 0 && e.children is Ok {
        let children = e.children->Ok_0@;
        assert(e.children->Ok_0@ == children);
        children_are_shown(
            platform,
            title,
            children,
            children.len(),
            path,
            (depth - 1) as nat,
            values,
            (left - 1) as nat,
        );
    }
}

proof fn children_are_shown(
    platform: Platform,
    title: Seq<char>,
    children: Seq<Option<Element>>,
    n: nat,
    path: Seq<u32>,
    depth: nat,
    values: bool,
    left: nat,
)
    requires
        n <= children.len(),
    ensures
        ({
            let done = inspected_children(
                platform,
                title,
                children,
                n,
                path,
                depth,
                values,
                left,
            );
            &&& all_show(done.nodes, done.nodes.len(), children, n, path, values)
            &&& !done.truncated ==> done.nodes.len() == n
        }),
    decreases children, n,
{
    if n > 0 {
        let m = (n - 1) as nat;
        children_are_shown(platform, title, children, m, path, depth, values, left);
        let before = inspected_children(
            platform,
            title,
            children,
            m,
            path,
            depth,
            values,
            left,
        );
        if before.left > 0 {
            if let Some(child) = children[n - 1] {
                let deeper = path.push(m as u32);
                inspections_show_what_is_there(
                    platform,
                    title,
                    child,
                    deeper,
                    depth,
                    values,
                    before.left,
                );
                let one = inspected(platform, title, child, deeper, depth, values, before.left);
                fewer_show_the_same(
                    before.nodes,
                    before.nodes.push(one.node),
                    before.nodes.len(),
                    children,
                    m,
                    path,
                    values,
                );
            }
        }
    }
}

} // verus!
