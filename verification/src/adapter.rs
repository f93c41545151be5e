//! What the executor asks of a platform, and how a platform says no.
use vstd::prelude::*;
use crate::control::RunControl;
use crate::definition::{Action, ActionView, Assertion, Target, WaitCondition};
use crate::run::{
    Artifact, FailureKind, PreflightDiagnostic, RunConfig, RunError, RunErrorKind, RunErrorView,
};
use crate::text::{copy_opt_text, opt_text};
use crate::time::Duration;
use crate::views::Faithful;

verus! {

/// Why an adapter could not do what it was asked to do.
#[derive(Debug, PartialEq, Eq)]
pub struct AdapterError {
    public_message: String,
    kind: RunErrorKind,
    diagnostics: Option<String>,
    failure_kind: Option<FailureKind>,
}

/// What an [`AdapterError`] stands for.
pub struct AdapterErrorView {
    pub message: Seq<char>,
    pub kind: RunErrorKind,
    pub diagnostics: Option<Seq<char>>,
    pub failure_kind: Option<FailureKind>,
}

impl View for AdapterError {
    type V = AdapterErrorView;

    closed spec fn view(&self) -> AdapterErrorView {
        AdapterErrorView {
            message: self.public_message@,
            kind: self.kind,
            diagnostics: opt_text(self.diagnostics),
            failure_kind: self.failure_kind,
        }
    }
}

/// An error with nothing but a kind and a message.
pub open spec fn plain_error(kind: RunErrorKind, message: Seq<char>) -> AdapterErrorView {
    AdapterErrorView { message, kind, diagnostics: None, failure_kind: None }
}

/// The error as a run reports it. What the adapter knows of the circumstances goes along.
pub open spec fn run_error_of(e: AdapterErrorView, step_id: Seq<char>) -> RunErrorView {
    RunErrorView {
        kind: e.kind,
        message: e.message,
        step_id: Some(step_id),
        source: e.diagnostics,
        failure_kind: e.failure_kind,
    }
}

impl AdapterError {
    fn plain(kind: RunErrorKind, message: String) -> (r: Self)
        ensures
            r@ == plain_error(kind, message@),
    {
        AdapterError { public_message: message, kind, diagnostics: None, failure_kind: None }
    }

    pub fn new(message: String) -> (r: Self)
        ensures
            r@ == plain_error(RunErrorKind::Adapter, message@),
    {
        AdapterError::plain(RunErrorKind::Adapter, message)
    }

    pub fn unsupported(message: String) -> (r: Self)
        ensures
            r@ == plain_error(RunErrorKind::Unsupported, message@),
    {
        AdapterError::plain(RunErrorKind::Unsupported, message)
    }

    pub fn timeout() -> (r: Self)
        ensures
            r@ == plain_error(RunErrorKind::Timeout, "step timed out"@),
    {
        AdapterError::plain(RunErrorKind::Timeout, "step timed out".to_owned())
    }

    pub fn cancelled() -> (r: Self)
        ensures
            r@ == plain_error(RunErrorKind::Cancelled, "run cancelled"@),
    {
        AdapterError::plain(RunErrorKind::Cancelled, "run cancelled".to_owned())
    }

    pub fn assertion(message: String) -> (r: Self)
        ensures
            r@ == plain_error(RunErrorKind::Assertion, message@),
    {
        AdapterError::plain(RunErrorKind::Assertion, message)
    }

    /// Adds what is known of the circumstances.
    pub fn with_source(self, source: String) -> (r: Self)
        ensures
            r@ == (AdapterErrorView { diagnostics: Some(source@), ..self@ }),
    {
        AdapterError { diagnostics: Some(source), ..self }
    }

    pub fn with_failure_kind(self, failure_kind: FailureKind) -> (r: Self)
        ensures
            r@ == (AdapterErrorView { failure_kind: Some(failure_kind), ..self@ }),
    {
        AdapterError { failure_kind: Some(failure_kind), ..self }
    }

    pub fn failure_kind(&self) -> (r: Option<FailureKind>)
        ensures
            r == self@.failure_kind,
    {
        self.failure_kind
    }

    pub fn kind(&self) -> (r: RunErrorKind)
        ensures
            r == self@.kind,
    {
        self.kind
    }

    pub fn diagnostics(&self) -> (r: Option<&str>)
        ensures
            match r {
                Some(text) => self@.diagnostics == Some(text@),
                None => self@.diagnostics is None,
            },
    {
        match &self.diagnostics {
            Some(text) => Some(text.as_str()),
            None => None,
        }
    }

    /// The message for the user.
    pub fn message(&self) -> (r: &str)
        ensures
            r@ == self@.message,
    {
        self.public_message.as_str()
    }

    /// The error as a run reports it.
    pub fn into_run_error(self, step_id: String) -> (r: RunError)
        ensures
            r@ == run_error_of(self@, step_id@),
    {
        RunError {
            kind: self.kind,
            message: self.public_message,
            step_id: Some(step_id),
            source: self.diagnostics,
            failure_kind: self.failure_kind,
        }
    }

    pub fn copy(&self) -> (r: Self)
        ensures
            r@ == self@,
    {
        AdapterError {
            public_message: self.public_message.clone(),
            kind: self.kind,
            diagnostics: copy_opt_text(&self.diagnostics),
            failure_kind: self.failure_kind,
        }
    }
}

/// An error that may go away by itself.
pub open spec fn transient(message: Seq<char>) -> AdapterErrorView {
    AdapterErrorView {
        message,
        kind: RunErrorKind::Adapter,
        diagnostics: Some("failureKind=transient"@),
        failure_kind: Some(FailureKind::Transient),
    }
}

pub fn transient_error(message: String) -> (r: AdapterError)
    ensures
        r@ == transient(message@),
{
    AdapterError::new(message).with_failure_kind(FailureKind::Transient).with_source(
        "failureKind=transient".to_owned(),
    )
}

/// The error where a window or an element was not given the focus.
pub open spec fn focus_denied(message: Seq<char>) -> AdapterErrorView {
    AdapterErrorView {
        message,
        kind: RunErrorKind::Adapter,
        diagnostics: Some("failureKind=focusDenied"@),
        failure_kind: Some(FailureKind::FocusDenied),
    }
}

pub fn focus_denied_error(message: String) -> (r: AdapterError)
    ensures
        r@ == focus_denied(message@),
{
    AdapterError::new(message).with_failure_kind(FailureKind::FocusDenied).with_source(
        "failureKind=focusDenied".to_owned(),
    )
}

/// Whether a condition holds yet.
#[derive(Debug, Clone, Copy, PartialEq, Eq, Structural)]
pub enum ConditionState {
    Pending,
    Satisfied,
}

pub open spec fn state_of(satisfied: bool) -> ConditionState {
    if satisfied {
        ConditionState::Satisfied
    } else {
        ConditionState::Pending
    }
}

pub fn condition_state(satisfied: bool) -> (r: ConditionState)
    ensures
        r == state_of(satisfied),
{
    if satisfied {
        ConditionState::Satisfied
    } else {
        ConditionState::Pending
    }
}

/// When step evidence is taken.
#[derive(Debug, Clone, Copy, PartialEq, Eq, Structural)]
pub enum EvidencePhase {
    Before,
    After,
}

pub open spec fn phase_name(phase: EvidencePhase) -> Seq<char> {
    match phase {
        EvidencePhase::Before => "before"@,
        EvidencePhase::After => "after"@,
    }
}

impl EvidencePhase {
    pub fn as_str(&self) -> (r: &'static str)
        ensures
            r@ == phase_name(*self),
    {
        match self {
            EvidencePhase::Before => "before",
            EvidencePhase::After => "after",
        }
    }
}

/// A platform. Only `execute` has to be written; the rest falls back on it, or does nothing.
pub trait ExecutionAdapter {
    fn execute(&mut self, action: &Action, config: &RunConfig) -> (r: Result<
        Vec<Artifact>,
        AdapterError,
    >);

    /// Performs an action that may take long: it ends when the run is cancelled or the time is up.
    fn execute_with_control(
        &mut self,
        action: &Action,
        config: &RunConfig,
        control: &RunControl,
        timeout: Option<Duration>,
    ) -> (r: Result<Vec<Artifact>, AdapterError>)
        default_ensures
            exists|me: &mut Self|
                &*me == &*old(self) && &*final(me) == &*final(self) && #[trigger] call_ensures(
                    Self::execute,
                    (me, action, config),
                    r,
                ),
    {
        self.execute(action, config)
    }

    fn evaluate_wait(&mut self, condition: &WaitCondition, config: &RunConfig) -> (r: Result<
        ConditionState,
        AdapterError,
    >)
        default_ensures
            exists|me: &mut Self, action: Action, done: Result<Vec<Artifact>, AdapterError>|
                &*me == &*old(self) && &*final(me) == &*final(self) && action@ == (
                ActionView::WaitFor { condition: condition@ }) && #[trigger] call_ensures(
                    Self::execute,
                    (me, &action, config),
                    done,
                ) && match done {
                    Ok(_) => r == Ok::<ConditionState, AdapterError>(ConditionState::Satisfied),
                    Err(e) => r == Err::<ConditionState, AdapterError>(e),
                },
    {
        let wanted = condition.clone();
        proof {
            condition.clone_keeps_view(&wanted);
        }
        match self.execute(&Action::WaitFor { condition: wanted }, config) {
            Ok(_) => Ok(ConditionState::Satisfied),
            Err(e) => Err(e),
        }
    }

    fn evaluate_wait_with_control(
        &mut self,
        condition: &WaitCondition,
        config: &RunConfig,
        control: &RunControl,
        timeout: Option<Duration>,
    ) -> (r: Result<ConditionState, AdapterError>)
        default_ensures
            exists|me: &mut Self|
                &*me == &*old(self) && &*final(me) == &*final(self) && #[trigger] call_ensures(
                    Self::evaluate_wait,
                    (me, condition, config),
                    r,
                ),
    {
        self.evaluate_wait(condition, config)
    }

    fn evaluate_assertion(&mut self, assertion: &Assertion, config: &RunConfig) -> (r: Result<
        bool,
        AdapterError,
    >)
        default_ensures
            exists|me: &mut Self, action: Action, done: Result<Vec<Artifact>, AdapterError>|
                &*me == &*old(self) && &*final(me) == &*final(self) && action@ == (
                ActionView::Assert { assertion: assertion@ }) && #[trigger] call_ensures(
                    Self::execute,
                    (me, &action, config),
                    done,
                ) && match done {
                    Ok(_) => r == Ok::<bool, AdapterError>(true),
                    Err(e) => r == Err::<bool, AdapterError>(e),
                },
    {
        let wanted = assertion.clone();
        proof {
            assertion.clone_keeps_view(&wanted);
        }
        match self.execute(&Action::Assert { assertion: wanted }, config) {
            Ok(_) => Ok(true),
            Err(e) => Err(e),
        }
    }

    /// What is in the way of an action, found without doing anything.
    fn preflight(&self, action: &Action, config: &RunConfig) -> (r: Vec<PreflightDiagnostic>)
        default_ensures
            r@.len() == 0,
    {
        Vec::new()
    }

    /// Takes evidence of the state of the desktop before or after a step.
    fn capture_step_evidence(
        &mut self,
        phase: EvidencePhase,
        action: &Action,
        config: &RunConfig,
        run_id: &str,
        automation_id: &str,
        step_id: &str,
    ) -> (r: Result<Vec<Artifact>, AdapterError>)
        default_ensures
            &*final(self) == &*old(self),
            r matches Ok(artifacts) && artifacts@.len() == 0,
    {
        Ok(Vec::new())
    }

    fn target_exists(&mut self, target: &Target, config: &RunConfig) -> (r: Result<
        bool,
        AdapterError,
    >)
        default_ensures
            &*final(self) == &*old(self),
            r matches Err(e) && e@ == plain_error(
                RunErrorKind::Unsupported,
                "target queries are not supported"@,
            ),
    {
        Err(AdapterError::unsupported("target queries are not supported".to_owned()))
    }

    fn target_is_focused(&mut self, target: &Target, config: &RunConfig) -> (r: Result<
        bool,
        AdapterError,
    >)
        default_ensures
            &*final(self) == &*old(self),
            r matches Err(e) && e@ == plain_error(
                RunErrorKind::Unsupported,
                "target queries are not supported"@,
            ),
    {
        Err(AdapterError::unsupported("target queries are not supported".to_owned()))
    }

    fn invoke_target(&mut self, target: &Target, config: &RunConfig) -> (r: Result<
        (),
        AdapterError,
    >)
        default_ensures
            &*final(self) == &*old(self),
            r matches Err(e) && e@ == plain_error(
                RunErrorKind::Unsupported,
                "target actions are not supported"@,
            ),
    {
        Err(AdapterError::unsupported("target actions are not supported".to_owned()))
    }

    fn set_target_text(&mut self, target: &Target, text: &str, config: &RunConfig) -> (r: Result<
        (),
        AdapterError,
    >)
        default_ensures
            &*final(self) == &*old(self),
            r matches Err(e) && e@ == plain_error(
                RunErrorKind::Unsupported,
                "target actions are not supported"@,
            ),
    {
        Err(AdapterError::unsupported("target actions are not supported".to_owned()))
    }

    fn scroll_target(
        &mut self,
        target: &Target,
        delta_x: i32,
        delta_y: i32,
        config: &RunConfig,
    ) -> (r: Result<(), AdapterError>)
        default_ensures
            &*final(self) == &*old(self),
            r matches Err(e) && e@ == plain_error(
                RunErrorKind::Unsupported,
                "target actions are not supported"@,
            ),
    {
        Err(AdapterError::unsupported("target actions are not supported".to_owned()))
    }
}

/// An adapter that accepts every action and does nothing.
#[derive(Debug)]
pub struct NoopDesktopAdapter;

impl Default for NoopDesktopAdapter {
    fn default() -> (r: Self) {
        NoopDesktopAdapter
    }
}

impl ExecutionAdapter for NoopDesktopAdapter {
    fn execute(&mut self, action: &Action, config: &RunConfig) -> (r: Result<
        Vec<Artifact>,
        AdapterError,
    >)
        ensures
            r matches Ok(artifacts) && artifacts@.len() == 0,
    {
        Ok(Vec::new())
    }
}

} // verus!
