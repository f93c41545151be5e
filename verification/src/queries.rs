//! What an adapter asks the system for a condition, and what the answers mean.
use vstd::prelude::*;
use crate::adapter::{condition_state, state_of, AdapterError, ConditionState};
use crate::definition::{
    Assertion, AssertionView, Target, TargetView, WaitCondition, WaitConditionView,
};
use crate::text::{copy_texts, texts};

verus! {

/// What the system is asked.
#[derive(Debug, PartialEq)]
pub enum Query {
    FileExists { path: String },
    WindowExists { target: Target },
    WindowFocused { target: Target },
    /// Whether a picture is in a window.
    ImageExists { target: Target },
    ElementExists { target: Target },
    ElementFocused { target: Target },
    ElementEnabled { target: Target },
    ElementVisible { target: Target },
    ElementActionable { target: Target },
    ElementNameContains { target: Target, text: String },
    ElementValueContains { target: Target, text: String },
    ProcessRunning { target: Target },
    CommandSucceeds { command: String, args: Vec<String> },
}

/// What a [`Query`] stands for.
pub enum QueryView {
    FileExists { path: Seq<char> },
    WindowExists { target: TargetView },
    WindowFocused { target: TargetView },
    ImageExists { target: TargetView },
    ElementExists { target: TargetView },
    ElementFocused { target: TargetView },
    ElementEnabled { target: TargetView },
    ElementVisible { target: TargetView },
    ElementActionable { target: TargetView },
    ElementNameContains { target: TargetView, text: Seq<char> },
    ElementValueContains { target: TargetView, text: Seq<char> },
    ProcessRunning { target: TargetView },
    CommandSucceeds { command: Seq<char>, args: Seq<Seq<char>> },
}

impl View for Query {
    type V = QueryView;

    open spec fn view(&self) -> QueryView {
        match *self {
            Query::FileExists { path } => QueryView::FileExists { path: path@ },
            Query::WindowExists { target } => QueryView::WindowExists { target: target@ },
            Query::WindowFocused { target } => QueryView::WindowFocused { target: target@ },
            Query::ImageExists { target } => QueryView::ImageExists { target: target@ },
            Query::ElementExists { target } => QueryView::ElementExists { target: target@ },
            Query::ElementFocused { target } => QueryView::ElementFocused { target: target@ },
            Query::ElementEnabled { target } => QueryView::ElementEnabled { target: target@ },
            Query::ElementVisible { target } => QueryView::ElementVisible { target: target@ },
            Query::ElementActionable { target } => QueryView::ElementActionable { target: target@ },
            Query::ElementNameContains { target, text } => QueryView::ElementNameContains {
                target: target@,
                text: text@,
            },
            Query::ElementValueContains { target, text } => QueryView::ElementValueContains {
                target: target@,
                text: text@,
            },
            Query::ProcessRunning { target } => QueryView::ProcessRunning { target: target@ },
            Query::CommandSucceeds { command, args } => QueryView::CommandSucceeds {
                command: command@,
                args: texts(args@),
            },
        }
    }
}

/// Whether a target exists: a picture, or else an element.
pub open spec fn target_query(t: TargetView) -> QueryView {
    if t.image is Some {
        QueryView::ImageExists { target: t }
    } else {
        QueryView::ElementExists { target: t }
    }
}

/// What the system is asked for a condition; a wait for some time asks nothing.
pub open spec fn query_of(condition: WaitConditionView) -> Option<QueryView> {
    match condition {
        WaitConditionView::Duration { duration } => None,
        WaitConditionView::FileExists { path } => Some(QueryView::FileExists { path }),
        WaitConditionView::WindowExists { target } => Some(
            if target.accessibility is Some {
                QueryView::ElementExists { target }
            } else {
                QueryView::WindowExists { target }
            },
        ),
        WaitConditionView::WindowFocused { target } => Some(QueryView::WindowFocused { target }),
        WaitConditionView::TargetExists { target } => Some(target_query(target)),
        WaitConditionView::TargetNotExists { target } => Some(target_query(target)),
        WaitConditionView::TargetFocused { target } => Some(QueryView::ElementFocused { target }),
        WaitConditionView::TargetEnabled { target } => Some(QueryView::ElementEnabled { target }),
        WaitConditionView::TargetVisible { target } => Some(QueryView::ElementVisible { target }),
        WaitConditionView::TargetActionable { target } => Some(
            QueryView::ElementActionable { target },
        ),
        WaitConditionView::TargetNameContains { target, text } => Some(
            QueryView::ElementNameContains { target, text },
        ),
        WaitConditionView::TargetValueContains { target, text } => Some(
            QueryView::ElementValueContains { target, text },
        ),
        WaitConditionView::ProcessRunning { target } => Some(QueryView::ProcessRunning { target }),
        WaitConditionView::CommandExits { command, args } => Some(
            QueryView::CommandSucceeds { command, args },
        ),
    }
}

pub open spec fn opt_query(r: Option<Query>) -> Option<QueryView> {
    match r {
        Some(q) => Some(q@),
        None => None,
    }
}

pub(crate) fn plan_target_query(target: &Target) -> (r: Query)
    ensures
        r@ == target_query(target@),
{
    if target.image.is_some() {
        Query::ImageExists { target: target.clone() }
    } else {
        Query::ElementExists { target: target.clone() }
    }
}

/// Decides what the system is asked for a condition that nothing is in the way of.
pub(crate) fn plan_query(condition: &WaitCondition) -> (r: Option<Query>)
    ensures
        opt_query(r) == query_of(condition@),
{
    match condition {
        WaitCondition::Duration { .. } => None,
        WaitCondition::FileExists { path } => Some(Query::FileExists { path: path.clone() }),
        WaitCondition::WindowExists { target } => if target.accessibility.is_some() {
            Some(Query::ElementExists { target: target.clone() })
        } else {
            Some(Query::WindowExists { target: target.clone() })
        },
        WaitCondition::WindowFocused { target } => Some(
            Query::WindowFocused { target: target.clone() },
        ),
        WaitCondition::TargetExists { target } | WaitCondition::TargetNotExists { target } => Some(
            plan_target_query(target),
        ),
        WaitCondition::TargetFocused { target } => Some(
            Query::ElementFocused { target: target.clone() },
        ),
        WaitCondition::TargetEnabled { target } => Some(
            Query::ElementEnabled { target: target.clone() },
        ),
        WaitCondition::TargetVisible { target } => Some(
            Query::ElementVisible { target: target.clone() },
        ),
        WaitCondition::TargetActionable { target } => Some(
            Query::ElementActionable { target: target.clone() },
        ),
        WaitCondition::TargetNameContains { target, text } => Some(
            Query::ElementNameContains { target: target.clone(), text: text.clone() },
        ),
        WaitCondition::TargetValueContains { target, text } => Some(
            Query::ElementValueContains { target: target.clone(), text: text.clone() },
        ),
        WaitCondition::ProcessRunning { target } => Some(
            Query::ProcessRunning { target: target.clone() },
        ),
        WaitCondition::CommandExits { command, args } => Some(
            Query::CommandSucceeds { command: command.clone(), args: copy_texts(args) },
        ),
    }
}

/// What the answer says of a condition: a condition that something is not there holds where the
/// answer is no.
pub open spec fn satisfied_by(condition: WaitConditionView, answer: bool) -> bool {
    if condition is TargetNotExists {
        !answer
    } else {
        answer
    }
}

/// Turns an answer into the state of a condition.
pub fn judge_answer(condition: &WaitCondition, answer: Result<bool, AdapterError>) -> (r: Result<
    ConditionState,
    AdapterError,
>)
    ensures
        match answer {
            Ok(yes) => r == Ok::<ConditionState, AdapterError>(
                state_of(satisfied_by(condition@, yes)),
            ),
            Err(e) => r == Err::<ConditionState, AdapterError>(e),
        },
{
    match answer {
        Ok(yes) => match condition {
            WaitCondition::TargetNotExists { .. } => Ok(condition_state(!yes)),
            _ => Ok(condition_state(yes)),
        },
        Err(e) => Err(e),
    }
}

/// What is asked to find out whether an asserted target exists: a picture, an element or a window.
pub open spec fn assertion_target_query(t: TargetView) -> QueryView {
    if t.image is Some {
        QueryView::ImageExists { target: t }
    } else if t.accessibility is Some {
        QueryView::ElementExists { target: t }
    } else {
        QueryView::WindowExists { target: t }
    }
}

pub(crate) fn plan_assertion_target(target: &Target) -> (r: Query)
    ensures
        r@ == assertion_target_query(target@),
{
    if target.image.is_some() {
        Query::ImageExists { target: target.clone() }
    } else if target.accessibility.is_some() {
        Query::ElementExists { target: target.clone() }
    } else {
        Query::WindowExists { target: target.clone() }
    }
}

/// What the system is asked for an assertion.
pub open spec fn assertion_query(assertion: AssertionView) -> Option<QueryView> {
    match assertion {
        AssertionView::TargetExists { target } => Some(assertion_target_query(target)),
        AssertionView::Condition { condition } => query_of(condition),
    }
}

/// Turns an answer into whether an assertion holds.
pub fn judge_assertion_answer(assertion: &Assertion, answer: Result<bool, AdapterError>) -> (r:
    Result<bool, AdapterError>)
    ensures
        match answer {
            Ok(yes) => r == Ok::<bool, AdapterError>(
                match assertion@ {
                    AssertionView::TargetExists { target } => yes,
                    AssertionView::Condition { condition } => satisfied_by(condition, yes),
                },
            ),
            Err(e) => r == Err::<bool, AdapterError>(e),
        },
{
    match answer {
        Ok(yes) => match assertion {
            Assertion::Condition { condition: WaitCondition::TargetNotExists { .. } } => Ok(!yes),
            _ => Ok(yes),
        },
        Err(e) => Err(e),
    }
}

} // verus!
