//! Running a definition: validate, preflight, then step by step.
use vstd::prelude::*;
use crate::adapter::{
    plain_error, run_error_of, AdapterError, AdapterErrorView, EvidencePhase, ExecutionAdapter,
};
use crate::attempts::{execute_action, no_artifacts};
use crate::control::{RunControl, Switches};
use crate::definition::{
    Action, ActionView, AutomationDefinition, AutomationDefinitionView, BackoffPolicy,
    OnErrorPolicy, Portability, RetryPolicy, Step, StepView, WaitCondition,
};
use crate::messages::{portability_label, problem_text};
use crate::platform::{kind_of, portability_of, select_action, selected_action};
use crate::run::{
    Artifact, ArtifactView, LogLevel, PreflightDiagnostic, PreflightDiagnosticView,
    PreflightSeverity, RunConfig, RunConfigView, RunError, RunErrorKind, RunErrorView, RunEvent,
    RunEventView, RunStatus,
};
use crate::story::{
    after_last, after_tries, after_turns, artifacts_result, capture, captured, end_events, ended_by,
    evidence_events, evidence_taken, failure_events, goes_on, hand_over, held, hold_events, judged,
    open_events, open_first, open_more, pause_at, ran, resume_at, run_ended, run_finished,
    run_refused, sleep_at, step_closed, step_end, step_events, step_refused, step_stopped,
    step_went, stop_at, streamed, time_at, told, tries_made, tries_more, try_made, try_slept,
    turn_events, turn_events_more, turn_taken, turns_begin, turns_more, turns_taken, Hold, Moment,
    Place, StepEnd, StepStory, Try, Turn,
};
use crate::text::{concat, concat3, decimal, format_u128, join, joined, texts};
use crate::time::{millis_long, unix_nanos, Duration};
use crate::validate::definition_problem;
use crate::views::views;

verus! {

/// How a run ended.
#[derive(Debug, Clone, Copy, PartialEq, Eq, Structural)]
pub enum RunOutcome {
    Succeeded,
    Failed,
    Cancelled,
}

/// What happened in a run, from the first event to the last.
#[derive(Debug, PartialEq)]
pub struct RunReport {
    pub run_id: String,
    pub outcome: RunOutcome,
    pub events: Vec<RunEvent>,
}

/// Why a run did not begin.
#[derive(Debug, PartialEq, Eq)]
pub enum ExecutorError {
    Validation(String),
    Preflight(String),
}

/// The words for why a run did not begin.
pub open spec fn executor_error_text(e: ExecutorError) -> Seq<char> {
    match e {
        ExecutorError::Validation(reason) => "automation validation failed: "@ + reason@,
        ExecutorError::Preflight(reason) => "automation preflight failed: "@ + reason@,
    }
}

impl ExecutorError {
    /// The words for the user.
    pub fn message(&self) -> (r: String)
        ensures
            r@ == executor_error_text(*self),
    {
        match self {
            ExecutorError::Validation(reason) => concat(
                "automation validation failed: ",
                reason.as_str(),
            ),
            ExecutorError::Preflight(reason) => concat(
                "automation preflight failed: ",
                reason.as_str(),
            ),
        }
    }
}

/// Where a run streams its events to.
pub trait RunEventSink {
    fn emit(&mut self, event: &RunEvent);
}

/// A sink that drops every event.
#[derive(Debug)]
pub struct NoopEventSink;

impl Default for NoopEventSink {
    fn default() -> (r: Self) {
        NoopEventSink
    }
}

impl RunEventSink for NoopEventSink {
    fn emit(&mut self, event: &RunEvent) {
    }
}

/// Where a run takes the time from, and how it sleeps.
pub trait ExecutionClock {
    /// The time since some fixed moment.
    fn now(&self) -> (r: Duration);

    fn sleep(&self, duration: Duration);
}

/// What preflight found.
#[derive(Debug, PartialEq, Eq)]
pub struct PreflightReport {
    pub diagnostics: Vec<PreflightDiagnostic>,
}

impl Default for PreflightReport {
    fn default() -> (r: Self)
        ensures
            r.diagnostics@.len() == 0,
    {
        PreflightReport { diagnostics: Vec::new() }
    }
}

pub open spec fn is_error(d: PreflightDiagnosticView) -> bool {
    d.severity == PreflightSeverity::Error
}

/// A run may begin unless a diagnostic is an error.
pub open spec fn runnable(diagnostics: Seq<PreflightDiagnosticView>) -> bool {
    forall|i: int| 0 <= i < diagnostics.len() ==> !is_error(#[trigger] diagnostics[i])
}

/// The messages of the errors, in order.
pub open spec fn error_messages(diagnostics: Seq<PreflightDiagnosticView>) -> Seq<Seq<char>>
    decreases diagnostics.len(),
{
    if diagnostics.len() == 0 {
        Seq::empty()
    } else {
        let front = error_messages(diagnostics.drop_last());
        if is_error(diagnostics.last()) {
            front.push(diagnostics.last().message)
        } else {
            front
        }
    }
}

impl PreflightReport {
    /// Whether the run may begin.
    pub fn can_run(&self) -> (r: bool)
        ensures
            r == runnable(views(self.diagnostics@)),
    {
        let mut i: usize = 0;
        while i < self.diagnostics.len()
            invariant
                i <= self.diagnostics@.len(),
                forall|j: int| 0 <= j < i ==> !is_error(#[trigger] views(self.diagnostics@)[j]),
            decreases self.diagnostics@.len() - i,
        {
            if self.diagnostics[i].severity == PreflightSeverity::Error {
                assert(is_error(views(self.diagnostics@)[i as int]));
                return false;
            }
            i = i + 1;
        }
        true
    }

    /// The messages of the errors, in order, in one line.
    pub fn error_summary(&self) -> (r: String)
        ensures
            r@ == joined(error_messages(views(self.diagnostics@)), "; "@),
    {
        let ghost all = views(self.diagnostics@);
        let mut messages: Vec<String> = Vec::new();
        let mut i: usize = 0;
        assert(all.take(0) =~= Seq::empty());
        assert(texts(messages@) =~= Seq::empty());
        while i < self.diagnostics.len()
            invariant
                i <= self.diagnostics@.len(),
                all == views(self.diagnostics@),
                texts(messages@) == error_messages(all.take(i as int)),
            decreases self.diagnostics@.len() - i,
        {
            let ghost front = texts(messages@);
            assert(all.take(i + 1).drop_last() =~= all.take(i as int));
            assert(all.take(i + 1).last() == self.diagnostics@[i as int]@);
            if self.diagnostics[i].severity == PreflightSeverity::Error {
                messages.push(self.diagnostics[i].message.clone());
                assert(texts(messages@) =~= front.push(self.diagnostics@[i as int].message@));
            }
            i = i + 1;
        }
        assert(all.take(i as int) =~= all);
        join(&messages, "; ")
    }
}

/// The diagnostic of a definition that singles out platforms.
pub open spec fn portability_diagnostics(d: AutomationDefinitionView) -> Seq<
    PreflightDiagnosticView,
> {
    if portability_of(d) == Portability::Portable {
        Seq::empty()
    } else {
        seq![
            PreflightDiagnosticView {
                severity: PreflightSeverity::Warning,
                code: "portability-constrained"@,
                message: "automation portability is "@ + portability_label(portability_of(d))
                    + "; configure a matching platform before running"@,
                step_id: None,
            },
        ]
    }
}

/// A diagnostic that names no step is about the step it was found for.
pub open spec fn attributed(d: PreflightDiagnosticView, step_id: Seq<char>) -> PreflightDiagnosticView {
    if d.step_id is None {
        PreflightDiagnosticView { step_id: Some(step_id), ..d }
    } else {
        d
    }
}

/// All diagnostics: of the definition first, then what was found for each step, in order.
pub open spec fn all_diagnostics(
    d: AutomationDefinitionView,
    found: Seq<Seq<PreflightDiagnosticView>>,
    n: nat,
) -> Seq<PreflightDiagnosticView>
    decreases n,
{
    if n == 0 || n > found.len() || n > d.steps.len() {
        portability_diagnostics(d)
    } else {
        all_diagnostics(d, found, (n - 1) as nat) + found[n - 1].map_values(
            |x: PreflightDiagnosticView| attributed(x, d.steps[n - 1].id),
        )
    }
}

/// Whether an adapter that was asked what is in the way of an action answered so.
pub open spec fn found_by<A: ExecutionAdapter>(
    adapter: A,
    action: ActionView,
    config: RunConfigView,
    found: Seq<PreflightDiagnosticView>,
) -> bool {
    exists|a: &Action, c: &RunConfig, answer: Vec<PreflightDiagnostic>|
        {
            &&& a@ == action
            &&& c@ == config
            &&& views(answer@) == found
            &&& #[trigger] call_ensures(A::preflight, (&adapter, a, c), answer)
        }
}

/// Whether these are the diagnostics of a preflight with this adapter.
pub open spec fn preflighted<A: ExecutionAdapter>(
    adapter: A,
    d: AutomationDefinitionView,
    c: RunConfigView,
    diagnostics: Seq<PreflightDiagnosticView>,
) -> bool {
    exists|found: Seq<Seq<PreflightDiagnosticView>>|
        {
            &&& found.len() == d.steps.len()
            &&& forall|i: int|
                0 <= i < found.len() ==> found_by(
                    adapter,
                    selected_action(d.steps[i], c.platform),
                    c,
                    #[trigger] found[i],
                )
            &&& #[trigger] all_diagnostics(d, found, found.len()) == diagnostics
        }
}

/// Adds what was found for a step.
fn add_diagnostics(
    diagnostics: &mut Vec<PreflightDiagnostic>,
    found: Vec<PreflightDiagnostic>,
    step_id: &String,
)
    ensures
        views(final(diagnostics)@) == views(old(diagnostics)@) + views(found@).map_values(
            |x: PreflightDiagnosticView| attributed(x, step_id@),
        ),
{
    let ghost start = views(diagnostics@);
    let ghost mapped = views(found@).map_values(
        |x: PreflightDiagnosticView| attributed(x, step_id@),
    );
    let mut i: usize = 0;
    assert(start + mapped.take(0) =~= start);
    while i < found.len()
        invariant
            i <= found@.len(),
            mapped == views(found@).map_values(
                |x: PreflightDiagnosticView| attributed(x, step_id@),
            ),
            views(diagnostics@) == start + mapped.take(i as int),
        decreases found@.len() - i,
    {
        let ghost before = views(diagnostics@);
        let mut diagnostic = found[i].clone();
        if diagnostic.step_id.is_none() {
            diagnostic.step_id = Some(step_id.clone());
        }
        let ghost added = diagnostic@;
        assert(added == mapped[i as int]);
        diagnostics.push(diagnostic);
        proof {
            assert(views(diagnostics@) =~= before.push(added));
            assert(mapped.take(i + 1) =~= mapped.take(i as int).push(mapped[i as int]));
            assert(start + mapped.take(i + 1) =~= (start + mapped.take(i as int)).push(added));
        }
        i = i + 1;
    }
    assert(mapped.take(i as int) =~= mapped);
}

/// The time to wait after a failed attempt: the delay times one, times the number of the attempt,
/// or times two for every attempt before it. What is too large for milliseconds in 64 bits becomes
/// the largest such number.
pub open spec fn delay_after(retry: RetryPolicy, failed_attempt: u32) -> Duration {
    match retry.delay {
        None => Duration { nanos: 0 },
        Some(delay) => {
            let millis = delay.millis * multiplier_after(retry, failed_attempt);
            millis_long(
                if millis > u64::MAX {
                    u64::MAX
                } else {
                    millis as u64
                },
            )
        },
    }
}

/// How many times the delay is waited after a failed attempt.
pub open spec fn multiplier_after(retry: RetryPolicy, failed_attempt: u32) -> nat {
    match retry.backoff {
        BackoffPolicy::Constant => 1,
        BackoffPolicy::Linear => failed_attempt as nat,
        BackoffPolicy::Exponential => if failed_attempt == 0 {
            1
        } else if failed_attempt > 64 {
            u64::MAX as nat
        } else {
            vstd::arithmetic::power2::pow2((failed_attempt - 1) as nat)
        },
    }
}

fn power_of_two(exponent: u32) -> (r: u64)
    requires
        exponent < 64,
    ensures
        r == vstd::arithmetic::power2::pow2(exponent as nat),
{
    let mut value: u64 = 1;
    let mut i: u32 = 0;
    proof {
        vstd::arithmetic::power2::lemma2_to64();
    }
    while i < exponent
        invariant
            i <= exponent < 64,
            value == vstd::arithmetic::power2::pow2(i as nat),
        decreases exponent - i,
    {
        proof {
            vstd::arithmetic::power2::lemma_pow2_unfold((i + 1) as nat);
            if i + 1 < 63 {
                vstd::arithmetic::power2::lemma_pow2_strictly_increases((i + 1) as nat, 63);
            }
            vstd::arithmetic::power2::lemma2_to64_rest();
        }
        value = value * 2;
        i = i + 1;
    }
    value
}

/// The time to wait after a failed attempt of a step.
pub fn retry_delay(step: &Step, failed_attempt: u32) -> (r: Duration)
    ensures
        r == delay_after(step@.retry, failed_attempt),
{
    let delay = match step.retry.delay {
        None => {
            return Duration::zero();
        },
        Some(delay) => delay,
    };
    let multiplier: u64 = match step.retry.backoff {
        BackoffPolicy::Constant => 1,
        BackoffPolicy::Linear => failed_attempt as u64,
        BackoffPolicy::Exponential => if failed_attempt == 0 {
            1
        } else if failed_attempt > 64 {
            u64::MAX
        } else {
            power_of_two(failed_attempt - 1)
        },
    };
    proof {
        vstd::arithmetic::power2::lemma2_to64();
    }
    let millis: u64 = match delay.millis.checked_mul(multiplier) {
        Some(millis) => millis,
        None => u64::MAX,
    };
    Duration::from_millis(millis)
}

/// What a step comes to after one attempt.
#[derive(Debug, PartialEq)]
pub enum Verdict {
    /// The run was cancelled, whatever the attempt came to.
    Cancelled,
    Succeeded(Vec<Artifact>),
    /// The attempt failed, and there is another one after a delay.
    Retry { delay: Duration, error: AdapterError },
    /// The last attempt failed.
    Failed(AdapterError),
}

/// Whether an action is a plain wait for some time, which keeps its own time limit.
pub open spec fn waits_for_duration(a: ActionView) -> bool {
    a matches ActionView::WaitFor { condition } && condition is Duration
}

pub open spec fn timeout_error() -> AdapterErrorView {
    plain_error(RunErrorKind::Timeout, "step timed out"@)
}

/// Whether an attempt took longer than the step allows.
pub open spec fn overdue(s: StepView, action: ActionView, elapsed: Duration) -> bool {
    &&& !waits_for_duration(action)
    &&& s.timeout is Some
    &&& elapsed.nanos >= millis_long(s.timeout->0.millis).nanos
}

/// What an attempt of a step means for the step: a cancelled run comes first, then an overdue
/// attempt, then what the adapter said.
pub fn judge_attempt(
    step: &Step,
    action: &Action,
    result: Result<Vec<Artifact>, AdapterError>,
    elapsed: Duration,
    cancelled: bool,
    attempt: u32,
) -> (r: Verdict)
    requires
        1 <= attempt <= step@.retry.max_attempts,
    ensures
        ({
            let late = overdue(step@, action@, elapsed);
            let last = attempt == step@.retry.max_attempts;
            if cancelled {
                r is Cancelled
            } else if !late && result is Ok {
                r == Verdict::Succeeded(result->Ok_0)
            } else {
                let e = if late {
                    timeout_error()
                } else {
                    result->Err_0@
                };
                if last {
                    r matches Verdict::Failed(error) && error@ == e
                } else {
                    r matches Verdict::Retry { delay, error } && error@ == e && delay == delay_after(
                        step@.retry,
                        attempt,
                    )
                }
            }
        }),
{
    let duration_wait = match action {
        Action::WaitFor { condition: WaitCondition::Duration { .. } } => true,
        _ => false,
    };
    let late = match step.timeout {
        Some(timeout) => !duration_wait && elapsed.nanos >= Duration::from_millis(
            timeout.millis,
        ).nanos,
        None => false,
    };
    if cancelled {
        return Verdict::Cancelled;
    }
    let error = if late {
        AdapterError::timeout()
    } else {
        match result {
            Ok(artifacts) => {
                return Verdict::Succeeded(artifacts);
            },
            Err(error) => error,
        }
    };
    if attempt < step.retry.max_attempts {
        Verdict::Retry { delay: retry_delay(step, attempt), error }
    } else {
        Verdict::Failed(error)
    }
}

/// What a run is about: the definition, the configuration and the name of the run.
pub struct Plan {
    pub definition: AutomationDefinitionView,
    pub config: RunConfigView,
    pub run_id: Seq<char>,
}

/// A plan of these parts.
pub open spec fn plan(d: AutomationDefinitionView, c: RunConfigView, run_id: Seq<char>) -> Plan {
    Plan { definition: d, config: c, run_id }
}

/// Where a run stands, as its events tell.
pub enum Phase {
    Start,
    /// Before the step with this number, or at the end where there is no such step.
    Ready { step: nat, resumed: bool },
    /// Held before the step.
    Held { step: nat },
    /// The step has begun and has not ended.
    Running { step: nat },
    /// Held between two attempts of the step.
    HeldRunning { step: nat },
    /// The step has failed, and the user has to be asked.
    Asking { step: nat, error: RunErrorView },
    /// A step has failed, and the run ends.
    Stopping,
    Done { outcome: RunOutcome },
}

pub open spec fn started_event(p: Plan) -> RunEventView {
    RunEventView::Started { run_id: p.run_id, automation_id: p.definition.id }
}

pub open spec fn cancelled_event(p: Plan) -> RunEventView {
    RunEventView::Cancelled { run_id: p.run_id, automation_id: p.definition.id }
}

pub open spec fn completed_event(p: Plan, status: RunStatus) -> RunEventView {
    RunEventView::Completed { run_id: p.run_id, automation_id: p.definition.id, status }
}

pub open spec fn paused_event(p: Plan, step: nat) -> RunEventView {
    RunEventView::Paused {
        run_id: p.run_id,
        automation_id: p.definition.id,
        step_id: Some(p.definition.steps[step as int].id),
    }
}

pub open spec fn resumed_event(p: Plan, step: nat) -> RunEventView {
    RunEventView::Resumed {
        run_id: p.run_id,
        automation_id: p.definition.id,
        step_id: Some(p.definition.steps[step as int].id),
    }
}

/// The action of a step on the platform of the run.
pub open spec fn action_at(p: Plan, step: nat) -> ActionView {
    selected_action(p.definition.steps[step as int], p.config.platform)
}

pub open spec fn step_started_event(p: Plan, step: nat) -> RunEventView {
    RunEventView::StepStarted {
        run_id: p.run_id,
        automation_id: p.definition.id,
        step_id: p.definition.steps[step as int].id,
        step_kind: kind_of(action_at(p, step)),
    }
}

/// Whether an event is of this run and of this step.
pub open spec fn of_step(p: Plan, step: nat, event: RunEventView) -> bool {
    let wanted = p.definition.steps[step as int].id;
    match event {
        RunEventView::StepSucceeded { run_id, automation_id, step_id, artifacts } => run_id
            == p.run_id && automation_id == p.definition.id && step_id == wanted,
        RunEventView::StepFailed { run_id, automation_id, step_id, error } => run_id == p.run_id
            && automation_id == p.definition.id && step_id == wanted && error.step_id == Some(
            wanted,
        ),
        RunEventView::Log { run_id, automation_id, step_id, level, message } => run_id == p.run_id
            && automation_id == p.definition.id && step_id == Some(wanted),
        RunEventView::Artifact { run_id, automation_id, step_id, artifact } => run_id == p.run_id
            && automation_id == p.definition.id && step_id == Some(wanted),
        _ => false,
    }
}

/// How a step may fail. A dry run fails nowhere but where an attempt is overdue.
pub open spec fn may_fail(p: Plan, step: nat, error: RunErrorView) -> bool {
    p.config.dry_run ==> p.definition.steps[step as int].timeout is Some && error == run_error_of(
        timeout_error(),
        p.definition.steps[step as int].id,
    )
}

/// The events that may come next, and where the run stands after each.
pub open spec fn advance(p: Plan, phase: Phase, event: RunEventView) -> Option<Phase> {
    let steps = p.definition.steps;
    if phase is Start {
        if event == started_event(p) {
            Some(Phase::Ready { step: 0, resumed: false })
        } else {
            None
        }
    } else if !(phase is Done || phase is Stopping || phase is Asking) && event == cancelled_event(
        p,
    ) {
        Some(Phase::Done { outcome: RunOutcome::Cancelled })
    } else {
        match phase {
            Phase::Ready { step, resumed } => if step >= steps.len() {
                if event == completed_event(p, RunStatus::Succeeded) {
                    Some(Phase::Done { outcome: RunOutcome::Succeeded })
                } else {
                    None
                }
            } else if event == step_started_event(p, step) {
                Some(Phase::Running { step })
            } else if !resumed && event == paused_event(p, step) {
                Some(Phase::Held { step })
            } else {
                None
            },
            Phase::Held { step } => if event == resumed_event(p, step) {
                Some(Phase::Ready { step, resumed: true })
            } else {
                None
            },
            Phase::Running { step } => if event == paused_event(p, step) {
                Some(Phase::HeldRunning { step })
            } else if !of_step(p, step, event) {
                None
            } else {
                match event {
                    RunEventView::StepSucceeded {
                        run_id,
                        automation_id,
                        step_id,
                        artifacts,
                    } => if p.config.dry_run && artifacts.len() > 0 {
                        None
                    } else {
                        Some(Phase::Ready { step: step + 1, resumed: false })
                    },
                    RunEventView::StepFailed { run_id, automation_id, step_id, error } => if !may_fail(
                        p,
                        step,
                        error,
                    ) {
                        None
                    } else {
                        match steps[step as int].on_error {
                            OnErrorPolicy::Continue => Some(
                                Phase::Ready { step: step + 1, resumed: false },
                            ),
                            OnErrorPolicy::Prompt => Some(Phase::Asking { step, error }),
                            OnErrorPolicy::Stop => Some(Phase::Stopping),
                        }
                    },
                    _ => if p.config.dry_run || !p.config.capture_step_evidence {
                        None
                    } else {
                        Some(phase)
                    },
                }
            },
            Phase::HeldRunning { step } => if event == resumed_event(p, step) {
                Some(Phase::Running { step })
            } else {
                None
            },
            Phase::Asking { step, error } => if event == (RunEventView::ManualIntervention {
                run_id: p.run_id,
                automation_id: p.definition.id,
                step_id: steps[step as int].id,
                error,
            }) {
                Some(Phase::Stopping)
            } else {
                None
            },
            Phase::Stopping => if event == completed_event(p, RunStatus::Failed) {
                Some(Phase::Done { outcome: RunOutcome::Failed })
            } else {
                None
            },
            _ => None,
        }
    }
}

/// Where a run stands after the events, if they can come one after the other.
pub open spec fn phase_after(p: Plan, events: Seq<RunEventView>) -> Option<Phase>
    decreases events.len(),
{
    if events.len() == 0 {
        Some(Phase::Start)
    } else {
        match phase_after(p, events.drop_last()) {
            None => None,
            Some(phase) => advance(p, phase, events.last()),
        }
    }
}

/// Whether an event ends a run.
pub open spec fn terminal(event: RunEventView) -> bool {
    event is Completed || event is Cancelled
}

/// Adds an event to the report and hands it to the sink.
fn emit<S: RunEventSink>(
    events: &mut Vec<RunEvent>,
    sink: &mut S,
    event: RunEvent,
    Ghost(start): Ghost<S>,
)
    requires
        streamed(start, *old(sink), views(old(events)@)),
    ensures
        views(final(events)@) == views(old(events)@).push(event@),
        streamed(start, *final(sink), views(final(events)@)),
{
    let ghost before = views(events@);
    let ghost between = *sink;
    let ghost added = event@;
    let states = hand_over(sink, &event);
    assert(told(between, *sink, added));
    events.push(event);
    assert(views(events@) =~= before.push(added));
    proof {
        reveal(streamed);
        let more = before.push(added);
        assert(more.drop_last() =~= before);
        assert(more.last() == added);
        assert(streamed(start, between, more.drop_last()) && told(between, *sink, more.last()));
    }
}

/// An event more leads one phase further.
proof fn push_advances(p: Plan, events: Seq<RunEventView>, event: RunEventView)
    ensures
        phase_after(p, events.push(event)) == (match phase_after(p, events) {
            None => None,
            Some(phase) => advance(p, phase, event),
        }),
{
    assert(events.push(event).drop_last() =~= events);
}

/// Holds the run while it is paused, before the step or between its attempts. False where the run
/// was cancelled.
fn wait_until_runnable<A: ExecutionAdapter, S: RunEventSink>(
    definition: &AutomationDefinition,
    run_id: &str,
    step_id: &String,
    control: &RunControl,
    events: &mut Vec<RunEvent>,
    sink: &mut S,
    Ghost(p): Ghost<Plan>,
    Ghost(step): Ghost<nat>,
    Ghost(attempt): Ghost<nat>,
    Ghost(adapter): Ghost<A>,
    Ghost(start): Ghost<S>,
) -> (r: (bool, Ghost<Hold>))
    requires
        streamed(start, *old(sink), views(old(events)@)),
        p.definition == definition@,
        p.run_id == run_id@,
        step < p.definition.steps.len(),
        p.definition.steps[step as int].id == step_id@,
        phase_after(p, views(old(events)@)) == Some(Phase::Ready { step, resumed: false })
            || phase_after(p, views(old(events)@)) == Some(Phase::Running { step }),
    ensures
        r.0 && phase_after(p, views(old(events)@)) == Some(Phase::Running { step }) ==> phase_after(
            p,
            views(final(events)@),
        ) == Some(Phase::Running { step }),
        r.0 && phase_after(p, views(old(events)@)) == Some(Phase::Ready { step, resumed: false })
            ==> (phase_after(p, views(final(events)@)) matches Some(Phase::Ready {
            step: s,
            resumed,
        }) && s == step),
        !r.0 ==> stoppable(p, views(final(events)@)),
        r.0 == r.1@.go,
        held(control, adapter, step, attempt, r.1@),
        views(final(events)@) == views(old(events)@) + hold_events(p, step, r.1@),
        streamed(start, *final(sink), views(final(events)@)),
{
    proof {
        reveal(held);
    }
    let ghost at = Moment { adapter, step, attempt, place: Place::Hold };
    let ghost later = Moment { adapter, step, attempt, place: Place::Held };
    let ghost first = views(events@);
    assert(first + Seq::<RunEventView>::empty() =~= first);
    if stop_at(control, Ghost(at)) {
        return (false, Ghost(Hold { paused: false, resumed: false, go: false }));
    }
    let paused = pause_at(control, Ghost(at));
    if paused {
        proof {
            push_advances(p, first, paused_event(p, step));
        }
        emit(
            events,
            sink,
            RunEvent::Paused {
                run_id: run_id.to_owned(),
                automation_id: definition.id.clone(),
                step_id: Some(step_id.clone()),
            },
            Ghost(start),
        );
        let ghost second = views(events@);
        assert(second == first.push(paused_event(p, step)));
        assert(second =~= first + seq![paused_event(p, step)]);
        if !resume_at(control, Ghost(at)) {
            return (false, Ghost(Hold { paused: true, resumed: false, go: false }));
        }
        proof {
            push_advances(p, second, resumed_event(p, step));
        }
        emit(
            events,
            sink,
            RunEvent::Resumed {
                run_id: run_id.to_owned(),
                automation_id: definition.id.clone(),
                step_id: Some(step_id.clone()),
            },
            Ghost(start),
        );
        assert(views(events@) == second.push(resumed_event(p, step)));
        assert(views(events@) =~= first + seq![paused_event(p, step), resumed_event(p, step)]);
    }
    let stopped = stop_at(control, Ghost(later));
    (!stopped, Ghost(Hold { paused, resumed: paused, go: !stopped }))
}

/// Whether a run may be cancelled where it stands.
pub open spec fn stoppable(p: Plan, events: Seq<RunEventView>) -> bool {
    phase_after(p, events) matches Some(phase) && !(phase is Start || phase is Done
        || phase is Stopping || phase is Asking)
}

/// Reports that a run was cancelled.
fn emit_cancelled<S: RunEventSink>(
    definition: &AutomationDefinition,
    run_id: &str,
    events: &mut Vec<RunEvent>,
    sink: &mut S,
    Ghost(p): Ghost<Plan>,
    Ghost(start): Ghost<S>,
)
    requires
        streamed(start, *old(sink), views(old(events)@)),
        p.definition == definition@,
        p.run_id == run_id@,
        stoppable(p, views(old(events)@)),
    ensures
        phase_after(p, views(final(events)@)) == Some(
            Phase::Done { outcome: RunOutcome::Cancelled },
        ),
        views(final(events)@) == views(old(events)@) + seq![cancelled_event(p)],
        streamed(start, *final(sink), views(final(events)@)),
{
    proof {
        push_advances(p, views(events@), cancelled_event(p));
        assert(views(events@).push(cancelled_event(p)) =~= views(events@) + seq![
            cancelled_event(p),
        ]);
    }
    emit(
        events,
        sink,
        RunEvent::Cancelled { run_id: run_id.to_owned(), automation_id: definition.id.clone() },
        Ghost(start),
    );
}

/// Reports that a run failed: the user is asked first where the step says so.
fn emit_failed<S: RunEventSink>(
    definition: &AutomationDefinition,
    run_id: &str,
    step: &Step,
    error: &RunError,
    events: &mut Vec<RunEvent>,
    sink: &mut S,
    Ghost(p): Ghost<Plan>,
    Ghost(index): Ghost<nat>,
    Ghost(start): Ghost<S>,
)
    requires
        streamed(start, *old(sink), views(old(events)@)),
        p.definition == definition@,
        p.run_id == run_id@,
        index < p.definition.steps.len(),
        p.definition.steps[index as int] == step@,
        step@.on_error != OnErrorPolicy::Continue,
        phase_after(p, views(old(events)@)) == Some(phase_after_failure(p, index, error@)),
    ensures
        phase_after(p, views(final(events)@)) == Some(
            Phase::Done { outcome: RunOutcome::Failed },
        ),
        views(final(events)@) == views(old(events)@) + failure_events(p, index, error@),
        streamed(start, *final(sink), views(final(events)@)),
{
    let ghost before = views(events@);
    if step.on_error == OnErrorPolicy::Prompt {
        let event = RunEvent::ManualIntervention {
            run_id: run_id.to_owned(),
            automation_id: definition.id.clone(),
            step_id: step.id.clone(),
            error: error.clone(),
        };
        proof {
            push_advances(p, views(events@), event@);
        }
        emit(events, sink, event, Ghost(start));
    }
    proof {
        push_advances(p, views(events@), completed_event(p, RunStatus::Failed));
    }
    emit(
        events,
        sink,
        RunEvent::Completed {
            run_id: run_id.to_owned(),
            automation_id: definition.id.clone(),
            status: RunStatus::Failed,
        },
        Ghost(start),
    );
    assert(views(events@) =~= before + failure_events(p, index, error@));
}

/// How a step ended.
#[derive(Debug)]
enum StepOutcome {
    Succeeded,
    Failed(RunError),
    Cancelled,
}

/// The phase after a step that failed.
pub open spec fn phase_after_failure(p: Plan, step: nat, error: RunErrorView) -> Phase {
    match p.definition.steps[step as int].on_error {
        OnErrorPolicy::Continue => Phase::Ready { step: step + 1, resumed: false },
        OnErrorPolicy::Prompt => Phase::Asking { step, error },
        OnErrorPolicy::Stop => Phase::Stopping,
    }
}

/// Reports what was taken as evidence, or that nothing could be taken. Evidence never makes a step
/// fail.
fn report_evidence<S: RunEventSink>(
    definition: &AutomationDefinition,
    run_id: &str,
    step_id: &String,
    taken: Result<Vec<Artifact>, AdapterError>,
    events: &mut Vec<RunEvent>,
    sink: &mut S,
    Ghost(p): Ghost<Plan>,
    Ghost(step): Ghost<nat>,
    Ghost(start): Ghost<S>,
)
    requires
        streamed(start, *old(sink), views(old(events)@)),
        p.definition == definition@,
        p.run_id == run_id@,
        step < p.definition.steps.len(),
        p.definition.steps[step as int].id == step_id@,
        !p.config.dry_run,
        p.config.capture_step_evidence,
        phase_after(p, views(old(events)@)) == Some(Phase::Running { step }),
    ensures
        phase_after(p, views(final(events)@)) == Some(Phase::Running { step }),
        views(final(events)@) == views(old(events)@) + evidence_events(
            p,
            step,
            Some(artifacts_result(taken)),
        ),
        streamed(start, *final(sink), views(final(events)@)),
{
    match taken {
        Ok(artifacts) => {
            let ghost earlier = views(events@);
            let ghost all = views(artifacts@).map_values(
                |a: ArtifactView| artifact_event(p, step, a),
            );
            let mut i: usize = 0;
            assert(earlier + all.take(0) =~= earlier);
            while i < artifacts.len()
                invariant
                    i <= artifacts@.len(),
                    p.definition == definition@,
                    p.run_id == run_id@,
                    step < p.definition.steps.len(),
                    p.definition.steps[step as int].id == step_id@,
                    !p.config.dry_run,
                    p.config.capture_step_evidence,
                    all == views(artifacts@).map_values(
                        |a: ArtifactView| artifact_event(p, step, a),
                    ),
                    views(events@) == earlier + all.take(i as int),
                    phase_after(p, views(events@)) == Some(Phase::Running { step }),
                    streamed(start, *sink, views(events@)),
                decreases artifacts@.len() - i,
            {
                let ghost before = views(events@);
                proof {
                    push_advances(p, before, all[i as int]);
                }
                emit(
                    events,
                    sink,
                    RunEvent::Artifact {
                        run_id: run_id.to_owned(),
                        automation_id: definition.id.clone(),
                        step_id: Some(step_id.clone()),
                        artifact: artifacts[i].clone(),
                    },
                    Ghost(start),
                );
                proof {
                    assert(views(events@) == before.push(all[i as int]));
                    assert(all.take(i + 1) =~= all.take(i as int).push(all[i as int]));
                    assert(earlier + all.take(i + 1) =~= before.push(all[i as int]));
                    assert(of_step(p, step, all[i as int]));
                }
                i = i + 1;
            }
            assert(all.take(i as int) =~= all);
        },
        Err(error) => {
            let ghost before = views(events@);
            let ghost logged = evidence_log(p, step, error@);
            proof {
                push_advances(p, before, logged);
                assert(before + seq![logged] =~= before.push(logged));
            }
            let message = concat("step evidence was not captured: ", error.message());
            emit(
                events,
                sink,
                RunEvent::Log {
                    run_id: run_id.to_owned(),
                    automation_id: definition.id.clone(),
                    step_id: Some(step_id.clone()),
                    level: LogLevel::Warn,
                    message,
                },
                Ghost(start),
            );
            assert(of_step(p, step, logged));
        },
    }
}

/// Takes evidence of a step and reports it, where the run asks for evidence.
fn take_evidence<A: ExecutionAdapter, S: RunEventSink>(
    definition: &AutomationDefinition,
    config: &RunConfig,
    adapter: &mut A,
    run_id: &str,
    step_id: &String,
    phase: EvidencePhase,
    action: &Action,
    events: &mut Vec<RunEvent>,
    sink: &mut S,
    Ghost(p): Ghost<Plan>,
    Ghost(step): Ghost<nat>,
    Ghost(start): Ghost<S>,
) -> (r: Ghost<Option<Result<Seq<ArtifactView>, AdapterErrorView>>>)
    requires
        streamed(start, *old(sink), views(old(events)@)),
        p.definition == definition@,
        p.config == config@,
        p.run_id == run_id@,
        step < p.definition.steps.len(),
        p.definition.steps[step as int].id == step_id@,
        action@ == action_at(p, step),
        phase_after(p, views(old(events)@)) == Some(Phase::Running { step }),
    ensures
        phase_after(p, views(final(events)@)) == Some(Phase::Running { step }),
        evidence_taken(p, step, phase, *old(adapter), *final(adapter), r@),
        config@.dry_run ==> *final(adapter) == *old(adapter),
        views(final(events)@) == views(old(events)@) + evidence_events(p, step, r@),
        streamed(start, *final(sink), views(final(events)@)),
{
    let ghost before = *adapter;
    proof {
        reveal(evidence_taken);
        reveal(captured);
    }
    if !config.capture_step_evidence || config.dry_run {
        assert(views(events@) + Seq::<RunEventView>::empty() =~= views(events@));
        return Ghost(None);
    }
    let (taken, states) = capture(
        adapter,
        phase,
        action,
        config,
        run_id,
        definition.id.as_str(),
        step_id.as_str(),
    );
    let ghost found = artifacts_result(taken);
    assert(captured(p, step, phase, before, *adapter, found));
    report_evidence(
        definition,
        run_id,
        step_id,
        taken,
        events,
        sink,
        Ghost(p),
        Ghost(step),
        Ghost(start),
    );
    Ghost(Some(found))
}

pub open spec fn artifact_event(p: Plan, step: nat, artifact: ArtifactView) -> RunEventView {
    RunEventView::Artifact {
        run_id: p.run_id,
        automation_id: p.definition.id,
        step_id: Some(p.definition.steps[step as int].id),
        artifact,
    }
}

pub open spec fn evidence_log(p: Plan, step: nat, error: AdapterErrorView) -> RunEventView {
    RunEventView::Log {
        run_id: p.run_id,
        automation_id: p.definition.id,
        step_id: Some(p.definition.steps[step as int].id),
        level: LogLevel::Warn,
        message: "step evidence was not captured: "@ + error.message,
    }
}

/// Runs the automations of a host.
#[derive(Debug)]
pub struct AutomationExecutor;

impl Default for AutomationExecutor {
    fn default() -> (r: Self) {
        AutomationExecutor
    }
}

impl AutomationExecutor {
    pub fn new() -> (r: Self) {
        AutomationExecutor
    }

    /// Validates a definition and asks the adapter what is in the way of each step, for the action
    /// that the step has on the platform of the run.
    pub fn preflight<A: ExecutionAdapter>(
        &self,
        definition: &AutomationDefinition,
        config: &RunConfig,
        adapter: &A,
    ) -> (r: Result<PreflightReport, ExecutorError>)
        ensures
            match r {
                Err(e) => e matches ExecutorError::Validation(reason) && (definition_problem(
                    definition@,
                ) matches Some(problem) && reason@ == problem_text(problem)),
                Ok(report) => definition_problem(definition@) is None && preflighted(
                    *adapter,
                    definition@,
                    config@,
                    views(report.diagnostics@),
                ),
            },
    {
        match definition.validate() {
            Ok(_) => {},
            Err(e) => {
                return Err(ExecutorError::Validation(e.message()));
            },
        }
        let mut diagnostics: Vec<PreflightDiagnostic> = Vec::new();
        let portability = definition.portability();
        if portability != Portability::Portable {
            diagnostics.push(
                PreflightDiagnostic {
                    severity: PreflightSeverity::Warning,
                    code: "portability-constrained".to_owned(),
                    message: concat3(
                        "automation portability is ",
                        portability.label(),
                        "; configure a matching platform before running",
                    ),
                    step_id: None,
                },
            );
        }
        let ghost d = definition@;
        let ghost mut found: Seq<Seq<PreflightDiagnosticView>> = Seq::empty();
        assert(views(diagnostics@) =~= portability_diagnostics(d));
        let mut i: usize = 0;
        while i < definition.steps.len()
            invariant
                i <= definition.steps@.len(),
                d == definition@,
                found.len() == i,
                views(diagnostics@) == all_diagnostics(d, found, i as nat),
                forall|k: int|
                    0 <= k < i ==> found_by(
                        *adapter,
                        selected_action(d.steps[k], config@.platform),
                        config@,
                        #[trigger] found[k],
                    ),
            decreases definition.steps@.len() - i,
        {
            let step = &definition.steps[i];
            assert(d.steps[i as int] == step@);
            let action = select_action(step, config.platform);
            let more = adapter.preflight(action, config);
            let ghost here = views(more@);
            assert(found_by(*adapter, action@, config@, here));
            add_diagnostics(&mut diagnostics, more, &step.id);
            proof {
                let longer = found.push(here);
                diagnostics_extend(d, found, here, i as nat);
                assert(here.map_values(
                    |x: PreflightDiagnosticView| attributed(x, d.steps[i as int].id),
                ) =~= here.map_values(|x: PreflightDiagnosticView| attributed(x, step.id@)));
                found = longer;
            }
            i = i + 1;
        }
        assert(all_diagnostics(d, found, found.len()) == views(diagnostics@));
        Ok(PreflightReport { diagnostics })
    }

    /// Runs one step: its attempts, the delays between them, and its evidence.
    #[verifier::spinoff_prover]
    fn run_step<A: ExecutionAdapter, S: RunEventSink, C: ExecutionClock>(
        &self,
        definition: &AutomationDefinition,
        config: &RunConfig,
        adapter: &mut A,
        control: &RunControl,
        run_id: &str,
        index: usize,
        events: &mut Vec<RunEvent>,
        sink: &mut S,
        clock: &C,
        Ghost(p): Ghost<Plan>,
        Ghost(start): Ghost<S>,
    ) -> (r: (StepOutcome, Ghost<StepStory<A>>))
        requires
            p.definition == definition@,
            p.config == config@,
            p.run_id == run_id@,
            index < definition@.steps.len(),
            definition@.steps[index as int].retry.max_attempts > 0,
            streamed(start, *old(sink), views(old(events)@)),
            phase_after(p, views(old(events)@)) matches Some(Phase::Ready { step, resumed })
                && step == index,
        ensures
            match r.0 {
                StepOutcome::Succeeded => phase_after(p, views(final(events)@)) == Some(
                    Phase::Ready { step: (index + 1) as nat, resumed: false },
                ),
                StepOutcome::Failed(error) => phase_after(p, views(final(events)@)) == Some(
                    phase_after_failure(p, index as nat, error@),
                ),
                StepOutcome::Cancelled => stoppable(p, views(final(events)@)),
            },
            match r.0 {
                StepOutcome::Succeeded => step_end(p, index as nat, r.1@) is Succeeded,
                StepOutcome::Failed(error) => step_end(p, index as nat, r.1@) == (StepEnd::Failed {
                    error: error@,
                }),
                StepOutcome::Cancelled => step_end(p, index as nat, r.1@) is Cancelled,
            },
            step_went(p, index as nat, control, clock, *old(adapter), r.1@),
            *final(adapter) == r.1@.after,
            views(final(events)@) == views(old(events)@) + step_events(p, index as nat, r.1@),
            streamed(start, *final(sink), views(final(events)@)),
            config@.dry_run ==> *final(adapter) == *old(adapter),
    {
        let step = &definition.steps[index];
        let action = select_action(step, config.platform);
        let ghost number = index as nat;
        let ghost earlier = views(events@);
        let ghost first = *adapter;
        proof {
            assert(p.definition.steps[index as int] == step@);
            push_advances(p, views(events@), step_started_event(p, number));
        }
        emit(
            events,
            sink,
            RunEvent::StepStarted {
                run_id: run_id.to_owned(),
                automation_id: definition.id.clone(),
                step_id: step.id.clone(),
                step_kind: action.kind().to_owned(),
            },
            Ghost(start),
        );
        let opening = take_evidence(
            definition,
            config,
            adapter,
            run_id,
            &step.id,
            EvidencePhase::Before,
            action,
            events,
            sink,
            Ghost(p),
            Ghost(number),
            Ghost(start),
        );
        let ghost opened = *adapter;
        let ghost mut tries: Seq<Try<A>> = Seq::empty();
        let max_attempts: u32 = step.retry.max_attempts;
        let mut attempt: u32 = 1;
        proof {
            open_first::<A>(p, number, opening@, earlier);
            after_last(opened, Seq::empty(), tries, Seq::empty());
            assert(tries_made(p, number, control, clock, opened, tries)) by {
                reveal(tries_made);
            }
        }
        loop
            invariant
                1 <= attempt <= max_attempts,
                max_attempts == step@.retry.max_attempts,
                number == index,
                index < definition.steps@.len(),
                *step == definition.steps@[index as int],
                p.definition == definition@,
                p.config == config@,
                p.run_id == run_id@,
                p.definition.steps[index as int] == step@,
                phase_after(p, views(events@)) == Some(Phase::Running { step: number }),
                first == *old(adapter),
                earlier == views(old(events)@),
                config@.dry_run ==> *adapter == first,
                action@ == action_at(p, number),
                evidence_taken(p, number, EvidencePhase::Before, first, opened, opening@),
                tries.len() == attempt - 1,
                tries_made(p, number, control, clock, opened, tries),
                *adapter == after_tries(opened, tries),
                views(events@) == earlier + open_events(p, number, opening@, tries),
                streamed(start, *sink, views(events@)),
            decreases max_attempts - attempt,
        {
            let ghost before = *adapter;
            let ghost so_far = views(events@);
            let (go, hold) = wait_until_runnable::<A, S>(
                definition,
                run_id,
                &step.id,
                control,
                events,
                sink,
                Ghost(p),
                Ghost(number),
                Ghost(attempt as nat),
                Ghost(before),
                Ghost(start),
            );
            if !go {
                let ghost story = StepStory {
                    opening: opening@,
                    opened,
                    tries,
                    refusal: Some(hold@),
                    closing: None,
                    after: before,
                };
                proof {
                    step_refused(p, number, control, clock, first, story, earlier);
                }
                return (StepOutcome::Cancelled, Ghost(story));
            }
            let started = time_at(
                clock,
                Ghost(
                    Moment {
                        adapter: before,
                        step: number,
                        attempt: attempt as nat,
                        place: Place::Begin,
                    },
                ),
            );
            let result = if config.dry_run {
                Ok(no_artifacts())
            } else {
                execute_action(adapter, action, config, step.timeout, control, clock)
            };
            let ghost came_to = artifacts_result(result);
            let ghost end = Moment {
                adapter: *adapter,
                step: number,
                attempt: attempt as nat,
                place: Place::End,
            };
            let ended = time_at(clock, Ghost(end));
            let stopped = stop_at(control, Ghost(end));
            let elapsed = ended.saturating_sub(started);
            let ghost t = Try {
                hold: hold@,
                before,
                started,
                came_to,
                after: *adapter,
                ended,
                stopped,
            };
            let ghost more = tries.push(t);
            proof {
                assert(more.drop_last() =~= tries);
                after_last(opened, Seq::empty(), more, Seq::empty());
                assert(try_made(p, number, control, clock, attempt as nat, t)) by {
                    reveal(try_made);
                }
                open_more(p, number, opening@, tries, t, earlier);
                assert(judged(p, number, t) == (if overdue(step@, action@, elapsed) {
                    Err(timeout_error())
                } else {
                    came_to
                })) by {
                    reveal(judged);
                }
            }
            match judge_attempt(step, action, result, elapsed, stopped, attempt) {
                Verdict::Cancelled => {
                    let ghost story = StepStory {
                        opening: opening@,
                        opened,
                        tries: more,
                        refusal: None,
                        closing: None,
                        after: *adapter,
                    };
                    proof {
                        step_stopped(p, number, control, clock, first, tries, story, earlier);
                    }
                    return (StepOutcome::Cancelled, Ghost(story));
                },
                Verdict::Succeeded(artifacts) => {
                    let closing = take_evidence(
                        definition,
                        config,
                        adapter,
                        run_id,
                        &step.id,
                        EvidencePhase::After,
                        action,
                        events,
                        sink,
                        Ghost(p),
                        Ghost(number),
                        Ghost(start),
                    );
                    let event = RunEvent::StepSucceeded {
                        run_id: run_id.to_owned(),
                        automation_id: definition.id.clone(),
                        step_id: step.id.clone(),
                        artifacts,
                    };
                    let ghost added = event@;
                    let ghost closed = views(events@);
                    proof {
                        push_advances(p, views(events@), event@);
                        assert(of_step(p, number, added));
                    }
                    emit(events, sink, event, Ghost(start));
                    let ghost story = StepStory {
                        opening: opening@,
                        opened,
                        tries: more,
                        refusal: None,
                        closing: closing@,
                        after: *adapter,
                    };
                    proof {
                        step_closed(p, number, control, clock, first, tries, story, earlier);
                        assert(end_events(p, number, step_end(p, number, story)) =~= seq![added]);
                        assert(views(events@) =~= closed + seq![added]);
                    }
                    return (StepOutcome::Succeeded, Ghost(story));
                },
                Verdict::Failed(failure) => {
                    let closing = take_evidence(
                        definition,
                        config,
                        adapter,
                        run_id,
                        &step.id,
                        EvidencePhase::After,
                        action,
                        events,
                        sink,
                        Ghost(p),
                        Ghost(number),
                        Ghost(start),
                    );
                    let error = failure.into_run_error(step.id.clone());
                    let event = RunEvent::StepFailed {
                        run_id: run_id.to_owned(),
                        automation_id: definition.id.clone(),
                        step_id: step.id.clone(),
                        error: error.clone(),
                    };
                    let ghost added = event@;
                    let ghost closed = views(events@);
                    proof {
                        push_advances(p, views(events@), event@);
                        assert(of_step(p, number, added));
                        assert(may_fail(p, number, error@));
                    }
                    emit(events, sink, event, Ghost(start));
                    let ghost story = StepStory {
                        opening: opening@,
                        opened,
                        tries: more,
                        refusal: None,
                        closing: closing@,
                        after: *adapter,
                    };
                    proof {
                        step_closed(p, number, control, clock, first, tries, story, earlier);
                        assert(end_events(p, number, step_end(p, number, story)) =~= seq![added]);
                        assert(views(events@) =~= closed + seq![added]);
                    }
                    return (StepOutcome::Failed(error), Ghost(story));
                },
                Verdict::Retry { delay, error } => {
                    if !sleep_at(clock, control, delay, Ghost(end)) {
                        let ghost story = StepStory {
                            opening: opening@,
                            opened,
                            tries: more,
                            refusal: None,
                            closing: None,
                            after: *adapter,
                        };
                        proof {
                            assert(try_slept(
                                p,
                                number,
                                control,
                                clock,
                                attempt as nat,
                                t,
                                false,
                            )) by {
                                reveal(try_slept);
                            }
                            step_stopped(
                                p,
                                number,
                                control,
                                clock,
                                first,
                                tries,
                                story,
                                earlier,
                            );
                        }
                        return (StepOutcome::Cancelled, Ghost(story));
                    }
                    proof {
                        assert(try_slept(p, number, control, clock, attempt as nat, t, true)) by {
                            reveal(try_slept);
                        }
                        tries_more(p, number, control, clock, opened, tries, t);
                        tries = more;
                    }
                },
            }
            attempt = attempt + 1;
        }
    }

    /// Goes on to a step, if the run may, and runs it. Gives the outcome of the run where it ends
    /// with this step.
    #[verifier::spinoff_prover]
    fn run_turn<A: ExecutionAdapter, S: RunEventSink, C: ExecutionClock>(
        &self,
        definition: &AutomationDefinition,
        config: &RunConfig,
        adapter: &mut A,
        control: &RunControl,
        run_id: &str,
        index: usize,
        events: &mut Vec<RunEvent>,
        sink: &mut S,
        clock: &C,
        Ghost(p): Ghost<Plan>,
        Ghost(start): Ghost<S>,
        Ghost(first): Ghost<A>,
        Ghost(turns): Ghost<Seq<Turn<A>>>,
    ) -> (r: (Option<RunOutcome>, Ghost<Turn<A>>))
        requires
            p.definition == definition@,
            p.config == config@,
            p.run_id == run_id@,
            index < definition@.steps.len(),
            definition@.steps[index as int].retry.max_attempts > 0,
            streamed(start, *old(sink), views(old(events)@)),
            phase_after(p, views(old(events)@)) == Some(
                Phase::Ready { step: index as nat, resumed: false },
            ),
            turns.len() == index,
            turns_taken(p, control, clock, first, turns),
            *old(adapter) == after_turns(first, turns),
            views(old(events)@) == turn_events(p, turns),
        ensures
            match r.0 {
                None => {
                    let more = turns.push(r.1@);
                    &&& phase_after(p, views(final(events)@)) == Some(
                        Phase::Ready { step: (index + 1) as nat, resumed: false },
                    )
                    &&& turns_taken(p, control, clock, first, more)
                    &&& *final(adapter) == after_turns(first, more)
                    &&& views(final(events)@) == turn_events(p, more)
                },
                Some(outcome) => {
                    &&& phase_after(p, views(final(events)@)) == Some(Phase::Done { outcome })
                    &&& ran(
                        p,
                        control,
                        clock,
                        first,
                        *final(adapter),
                        outcome,
                        views(final(events)@),
                    )
                },
            },
            streamed(start, *final(sink), views(final(events)@)),
            config@.dry_run ==> *final(adapter) == *old(adapter),
    {
        let step = &definition.steps[index];
        let ghost before = *adapter;
        let ghost number = index as nat;
        assert(p.definition.steps[index as int] == step@);
        let (go, hold) = wait_until_runnable::<A, S>(
            definition,
            run_id,
            &step.id,
            control,
            events,
            sink,
            Ghost(p),
            Ghost(number),
            Ghost(0nat),
            Ghost(before),
            Ghost(start),
        );
        if !go {
            proof {
                run_refused(p, control, clock, first, turns, hold@);
            }
            emit_cancelled(definition, run_id, events, sink, Ghost(p), Ghost(start));
            return (Some(RunOutcome::Cancelled), Ghost(arbitrary()));
        }
        let (outcome, story) = self.run_step(
            definition,
            config,
            adapter,
            control,
            run_id,
            index,
            events,
            sink,
            clock,
            Ghost(p),
            Ghost(start),
        );
        let ghost turn = Turn { hold: hold@, before, story: story@ };
        let ghost more = turns.push(turn);
        proof {
            assert(turn_taken(p, control, clock, number, turn)) by {
                reveal(turn_taken);
            }
            turn_events_more(p, turns, turn);
            after_last(first, Seq::empty(), Seq::empty(), more);
            ended_by(p, turns, turn);
            if goes_on(p, number, turn.story) {
                turns_more(p, control, clock, first, turns, turn);
            } else {
                run_ended(p, control, clock, first, turns, turn);
            }
        }
        match outcome {
            StepOutcome::Succeeded => (None, Ghost(turn)),
            StepOutcome::Cancelled => {
                emit_cancelled(definition, run_id, events, sink, Ghost(p), Ghost(start));
                (Some(RunOutcome::Cancelled), Ghost(turn))
            },
            StepOutcome::Failed(error) => {
                if step.on_error == OnErrorPolicy::Continue {
                    return (None, Ghost(turn));
                }
                emit_failed(
                    definition,
                    run_id,
                    step,
                    &error,
                    events,
                    sink,
                    Ghost(p),
                    Ghost(number),
                    Ghost(start),
                );
                (Some(RunOutcome::Failed), Ghost(turn))
            },
        }
    }

    /// Runs a definition. It is validated first, then the adapter says what is in its way; only
    /// then is anything done.
    pub fn run_with<A: ExecutionAdapter, S: RunEventSink, C: ExecutionClock>(
        &self,
        definition: &AutomationDefinition,
        config: RunConfig,
        adapter: &mut A,
        control: &RunControl,
        sink: &mut S,
        clock: &C,
    ) -> (r: Result<RunReport, ExecutorError>)
        ensures
            match r {
                Err(ExecutorError::Validation(reason)) => definition_problem(
                    definition@,
                ) matches Some(problem) && reason@ == problem_text(problem),
                Err(ExecutorError::Preflight(reason)) => definition_problem(definition@) is None
                    && exists|diagnostics: Seq<PreflightDiagnosticView>|
                    blocked(diagnostics, reason@) && #[trigger] preflighted(
                        *old(adapter),
                        definition@,
                        config@,
                        diagnostics,
                    ),
                Ok(report) => {
                    &&& definition_problem(definition@) is None
                    &&& exists|diagnostics: Seq<PreflightDiagnosticView>|
                        runnable(diagnostics) && #[trigger] preflighted(
                            *old(adapter),
                            definition@,
                            config@,
                            diagnostics,
                        )
                    &&& named(config@.run_id, report.run_id@)
                    &&& phase_after(
                        plan(definition@, config@, report.run_id@),
                        views(report.events@),
                    ) == Some(Phase::Done { outcome: report.outcome })
                    &&& ran(
                        plan(definition@, config@, report.run_id@),
                        control,
                        clock,
                        *old(adapter),
                        *final(adapter),
                        report.outcome,
                        views(report.events@),
                    )
                    &&& streamed(*old(sink), *final(sink), views(report.events@))
                },
            },
            r is Err ==> *final(adapter) == *old(adapter) && *final(sink) == *old(sink),
            config@.dry_run ==> *final(adapter) == *old(adapter),
    {
        let preflight = match self.preflight(definition, &config, adapter) {
            Ok(report) => report,
            Err(e) => {
                return Err(e);
            },
        };
        if !preflight.can_run() {
            let reason = preflight.error_summary();
            assert(blocked(views(preflight.diagnostics@), reason@));
            return Err(ExecutorError::Preflight(reason));
        }
        proof {
            crate::validate::valid_definition(definition@);
        }
        let run_id = match &config.run_id {
            Some(id) => id.clone(),
            None => generate_run_id(),
        };
        let ghost p = plan(definition@, config@, run_id@);
        let ghost start = *sink;
        let ghost first = *adapter;
        let ghost mut turns: Seq<Turn<A>> = Seq::empty();
        let mut events: Vec<RunEvent> = Vec::new();
        proof {
            assert(views(events@) =~= Seq::empty());
            assert(streamed(start, start, Seq::<RunEventView>::empty())) by {
                reveal(streamed);
            }
            push_advances(p, Seq::empty(), started_event(p));
        }
        emit(
            &mut events,
            sink,
            RunEvent::Started { run_id: run_id.clone(), automation_id: definition.id.clone() },
            Ghost(start),
        );
        proof {
            turns_begin::<A>(p);
            after_last(first, Seq::empty(), Seq::empty(), turns);
            assert(views(events@) =~= turn_events(p, turns));
            assert(turns_taken(p, control, clock, first, turns)) by {
                reveal(turns_taken);
            }
        }
        let mut i: usize = 0;
        while i < definition.steps.len()
            invariant
                i <= definition.steps@.len(),
                p == plan(definition@, config@, run_id@),
                definition_problem(definition@) is None,
                runnable(views(preflight.diagnostics@)),
                preflighted(
                    *old(adapter),
                    definition@,
                    config@,
                    views(preflight.diagnostics@),
                ),
                named(config@.run_id, run_id@),
                forall|k: int|
                    0 <= k < definition@.steps.len() ==> crate::validate::step_problem(
                        #[trigger] definition@.steps[k],
                    ) is None,
                phase_after(p, views(events@)) == Some(
                    Phase::Ready { step: i as nat, resumed: false },
                ),
                first == *old(adapter),
                start == *old(sink),
                config@.dry_run ==> *adapter == first,
                turns.len() == i,
                turns_taken(p, control, clock, first, turns),
                *adapter == after_turns(first, turns),
                views(events@) == turn_events(p, turns),
                streamed(start, *sink, views(events@)),
            decreases definition.steps@.len() - i,
        {
            proof {
                crate::validate::valid_step(definition@.steps[i as int]);
            }
            let (ended, turn) = self.run_turn(
                definition,
                &config,
                adapter,
                control,
                run_id.as_str(),
                i,
                &mut events,
                sink,
                clock,
                Ghost(p),
                Ghost(start),
                Ghost(first),
                Ghost(turns),
            );
            if let Some(outcome) = ended {
                return Ok(RunReport { run_id, outcome, events });
            }
            proof {
                turns = turns.push(turn@);
            }
            i = i + 1;
        }
        let stopped = stop_at(
            control,
            Ghost(Moment { adapter: *adapter, step: i as nat, attempt: 0, place: Place::Finish }),
        );
        proof {
            run_finished(p, control, clock, first, turns, stopped);
        }
        if stopped {
            emit_cancelled(
                definition,
                run_id.as_str(),
                &mut events,
                sink,
                Ghost(p),
                Ghost(start),
            );
            return Ok(RunReport { run_id, outcome: RunOutcome::Cancelled, events });
        }
        proof {
            push_advances(p, views(events@), completed_event(p, RunStatus::Succeeded));
        }
        emit(
            &mut events,
            sink,
            RunEvent::Completed {
                run_id: run_id.clone(),
                automation_id: definition.id.clone(),
                status: RunStatus::Succeeded,
            },
            Ghost(start),
        );
        assert(views(events@) =~= turn_events(p, turns) + seq![
            completed_event(p, RunStatus::Succeeded),
        ]);
        Ok(RunReport { run_id, outcome: RunOutcome::Succeeded, events })
    }

    /// Runs a definition without a way to cancel it and without a sink.
    pub fn run<A: ExecutionAdapter, C: ExecutionClock>(
        &self,
        definition: &AutomationDefinition,
        config: RunConfig,
        adapter: &mut A,
        clock: &C,
    ) -> (r: Result<RunReport, ExecutorError>)
        ensures
            match r {
                Err(ExecutorError::Validation(reason)) => definition_problem(
                    definition@,
                ) matches Some(problem) && reason@ == problem_text(problem),
                Err(ExecutorError::Preflight(reason)) => definition_problem(definition@) is None
                    && exists|diagnostics: Seq<PreflightDiagnosticView>|
                    blocked(diagnostics, reason@) && #[trigger] preflighted(
                        *old(adapter),
                        definition@,
                        config@,
                        diagnostics,
                    ),
                Ok(report) => {
                    &&& definition_problem(definition@) is None
                    &&& exists|diagnostics: Seq<PreflightDiagnosticView>|
                        runnable(diagnostics) && #[trigger] preflighted(
                            *old(adapter),
                            definition@,
                            config@,
                            diagnostics,
                        )
                    &&& named(config@.run_id, report.run_id@)
                    &&& phase_after(
                        plan(definition@, config@, report.run_id@),
                        views(report.events@),
                    ) == Some(Phase::Done { outcome: report.outcome })
                    &&& exists|control: &RunControl|
                        control.made_with(Switches { cancelled: false, paused: false })
                            && #[trigger] ran(
                            plan(definition@, config@, report.run_id@),
                            control,
                            clock,
                            *old(adapter),
                            *final(adapter),
                            report.outcome,
                            views(report.events@),
                        )
                },
            },
            r is Err ==> *final(adapter) == *old(adapter),
            config@.dry_run ==> *final(adapter) == *old(adapter),
    {
        let control = RunControl::default();
        let mut sink = NoopEventSink;
        self.run_with(definition, config, adapter, &control, &mut sink, clock)
    }
}

/// The diagnostics keep a run from beginning, for the given reason.
pub open spec fn blocked(diagnostics: Seq<PreflightDiagnosticView>, reason: Seq<char>) -> bool {
    !runnable(diagnostics) && reason == joined(error_messages(diagnostics), "; "@)
}

proof fn diagnostics_extend(
    d: AutomationDefinitionView,
    found: Seq<Seq<PreflightDiagnosticView>>,
    more: Seq<PreflightDiagnosticView>,
    n: nat,
)
    requires
        n <= found.len(),
    ensures
        all_diagnostics(d, found.push(more), n) == all_diagnostics(d, found, n),
    decreases n,
{
    if n > 0 {
        diagnostics_extend(d, found, more, (n - 1) as nat);
        assert(found.push(more)[n - 1] == found[n - 1]);
    }
}

/// The events up to some moment can come one after the other if all of them can.
pub(crate) proof fn prefix_possible(p: Plan, events: Seq<RunEventView>, n: int)
    requires
        phase_after(p, events) is Some,
        0 <= n <= events.len(),
    ensures
        phase_after(p, events.take(n)) is Some,
    decreases events.len(),
{
    if n < events.len() {
        prefix_possible(p, events.drop_last(), n);
        assert(events.drop_last().take(n) =~= events.take(n));
    } else {
        assert(events.take(n) =~= events);
    }
}

/// How a terminal event reads for each outcome.
pub open spec fn terminal_event(p: Plan, outcome: RunOutcome) -> RunEventView {
    match outcome {
        RunOutcome::Succeeded => completed_event(p, RunStatus::Succeeded),
        RunOutcome::Failed => completed_event(p, RunStatus::Failed),
        RunOutcome::Cancelled => cancelled_event(p),
    }
}

/// The events of a run that is over begin with the one that starts it and end with the one that
/// tells its outcome, and none in between ends it.
pub proof fn one_terminal_event(p: Plan, events: Seq<RunEventView>, outcome: RunOutcome)
    requires
        phase_after(p, events) == Some(Phase::Done { outcome }),
    ensures
        events.len() >= 2,
        events[0] == started_event(p),
        events.last() == terminal_event(p, outcome),
        forall|i: int| 0 <= i < events.len() - 1 ==> !terminal(#[trigger] events[i]),
{
    let front = events.drop_last();
    first_event_starts(p, front);
    assert(front[0] == events[0]);
    assert forall|i: int| 0 <= i < events.len() - 1 implies !terminal(#[trigger] events[i]) by {
        no_end_before_the_end(p, front, i);
        assert(front[i] == events[i]);
    }
}

/// The run that an event is of.
pub open spec fn run_of(event: RunEventView) -> (Seq<char>, Seq<char>) {
    match event {
        RunEventView::Started { run_id, automation_id } => (run_id, automation_id),
        RunEventView::StepStarted { run_id, automation_id, step_id, step_kind } => (
            run_id,
            automation_id,
        ),
        RunEventView::StepSucceeded { run_id, automation_id, step_id, artifacts } => (
            run_id,
            automation_id,
        ),
        RunEventView::StepFailed { run_id, automation_id, step_id, error } => (
            run_id,
            automation_id,
        ),
        RunEventView::Log { run_id, automation_id, step_id, level, message } => (
            run_id,
            automation_id,
        ),
        RunEventView::Artifact { run_id, automation_id, step_id, artifact } => (
            run_id,
            automation_id,
        ),
        RunEventView::Paused { run_id, automation_id, step_id } => (run_id, automation_id),
        RunEventView::Resumed { run_id, automation_id, step_id } => (run_id, automation_id),
        RunEventView::ManualIntervention { run_id, automation_id, step_id, error } => (
            run_id,
            automation_id,
        ),
        RunEventView::Completed { run_id, automation_id, status } => (run_id, automation_id),
        RunEventView::Cancelled { run_id, automation_id } => (run_id, automation_id),
    }
}

/// Every event carries the name of the run and that of the automation.
pub proof fn events_name_the_run(p: Plan, events: Seq<RunEventView>, i: int)
    requires
        phase_after(p, events) is Some,
        0 <= i < events.len(),
    ensures
        run_of(events[i]) == (p.run_id, p.definition.id),
    decreases events.len(),
{
    let front = events.drop_last();
    if i < front.len() {
        events_name_the_run(p, front, i);
        assert(front[i] == events[i]);
    }
}

/// A run streams what its report keeps: the sink is handed the events of the report, once each and
/// in their order. They begin with the start, end with the one event that tells the outcome, and
/// all carry the name of the run and that of the automation.
pub proof fn reports_are_streamed<S: RunEventSink>(
    p: Plan,
    before: S,
    after: S,
    events: Seq<RunEventView>,
    outcome: RunOutcome,
    i: int,
)
    requires
        phase_after(p, events) == Some(Phase::Done { outcome }),
        streamed(before, after, events),
        0 <= i < events.len(),
    ensures
        events[0] == started_event(p),
        terminal(events[i]) <==> i == events.len() - 1,
        events.last() == terminal_event(p, outcome),
        run_of(events[i]) == (p.run_id, p.definition.id),
        exists|left: S, right: S| #[trigger]
            streamed(before, left, events.take(i)) && #[trigger] told(left, right, events[i]),
{
    one_terminal_event(p, events, outcome);
    events_name_the_run(p, events, i);
    told_in_turn(before, after, events, i);
}

proof fn told_in_turn<S: RunEventSink>(before: S, after: S, events: Seq<RunEventView>, i: int)
    requires
        streamed(before, after, events),
        0 <= i < events.len(),
    ensures
        exists|left: S, right: S| #[trigger]
            streamed(before, left, events.take(i)) && #[trigger] told(left, right, events[i]),
    decreases events.len(),
{
    reveal(streamed);
    let front = events.drop_last();
    let between = choose|between: S|
        streamed(before, between, front) && #[trigger] told(between, after, events.last());
    if i < front.len() {
        told_in_turn(before, between, front, i);
        assert(front.take(i) =~= events.take(i));
        assert(front[i] == events[i]);
    } else {
        assert(front =~= events.take(i));
        assert(streamed(before, between, events.take(i)) && told(between, after, events[i]));
    }
}

proof fn first_event_starts(p: Plan, events: Seq<RunEventView>)
    requires
        phase_after(p, events) matches Some(phase) && !(phase is Start),
    ensures
        events.len() > 0,
        events[0] == started_event(p),
    decreases events.len(),
{
    let front = events.drop_last();
    if front.len() > 0 {
        if phase_after(p, front)->0 is Start {
            start_has_no_events(p, front);
        }
        first_event_starts(p, front);
        assert(front[0] == events[0]);
    }
}

proof fn start_has_no_events(p: Plan, events: Seq<RunEventView>)
    requires
        phase_after(p, events) == Some(Phase::Start),
    ensures
        events.len() == 0,
{
}

proof fn no_end_before_the_end(p: Plan, events: Seq<RunEventView>, i: int)
    requires
        phase_after(p, events) matches Some(phase) && !(phase is Done),
        0 <= i < events.len(),
    ensures
        !terminal(events[i]),
    decreases events.len(),
{
    let front = events.drop_last();
    if i < front.len() {
        no_end_before_the_end(p, front, i);
        assert(front[i] == events[i]);
    }
}

/// Whether the events tell that a step is behind the run: it succeeded, or it failed and the run
/// was told to continue.
pub open spec fn passed(p: Plan, events: Seq<RunEventView>, step: nat) -> bool {
    exists|i: int| 0 <= i < events.len() && passes(p, #[trigger] events[i], step)
}

pub open spec fn passes(p: Plan, event: RunEventView, step: nat) -> bool {
    &&& of_step(p, step, event)
    &&& event is StepSucceeded || (event is StepFailed && p.definition.steps[step as int].on_error
        == OnErrorPolicy::Continue)
}

/// A run succeeds only where every step succeeded, or failed and was told to continue.
pub proof fn success_means_every_step_passed(p: Plan, events: Seq<RunEventView>)
    requires
        phase_after(p, events) == Some(Phase::Done { outcome: RunOutcome::Succeeded }),
    ensures
        forall|step: nat| step < p.definition.steps.len() ==> passed(p, events, step),
{
    let front = events.drop_last();
    let phase = phase_after(p, front)->0;
    assert forall|step: nat| step < p.definition.steps.len() implies passed(p, events, step) by {
        earlier_steps_passed(p, front, step);
        let i = choose|i: int| 0 <= i < front.len() && passes(p, #[trigger] front[i], step);
        assert(passes(p, events[i], step));
    }
}

/// The number of the step that a phase is about.
pub open spec fn current_step(phase: Phase) -> Option<nat> {
    match phase {
        Phase::Ready { step, resumed } => Some(step),
        Phase::Held { step } => Some(step),
        Phase::Running { step } => Some(step),
        Phase::HeldRunning { step } => Some(step),
        _ => None,
    }
}

/// While a run is at a step, every earlier step is behind it.
pub proof fn earlier_steps_passed(p: Plan, events: Seq<RunEventView>, step: nat)
    requires
        phase_after(p, events) matches Some(phase) && (current_step(phase) matches Some(current)
            && step < current),
    ensures
        passed(p, events, step),
    decreases events.len(),
{
    let front = events.drop_last();
    let last = events.last();
    let phase = phase_after(p, events)->0;
    let before = phase_after(p, front)->0;
    if passes(p, last, step) {
        assert(passes(p, events[events.len() - 1], step));
    } else {
        earlier_steps_passed(p, front, step);
        let i = choose|i: int| 0 <= i < front.len() && passes(p, #[trigger] front[i], step);
        assert(passes(p, events[i], step));
    }
}

/// A dry run of a definition without time limits never fails.
pub proof fn dry_runs_do_not_fail(p: Plan, events: Seq<RunEventView>)
    requires
        p.config.dry_run,
        forall|i: int|
            0 <= i < p.definition.steps.len() ==> (#[trigger] p.definition.steps[i]).timeout is None,
        phase_after(p, events) is Some,
    ensures
        phase_after(p, events)->0 != (Phase::Done { outcome: RunOutcome::Failed }),
        !(phase_after(p, events)->0 is Stopping),
        !(phase_after(p, events)->0 is Asking),
    decreases events.len(),
{
    if events.len() > 0 {
        let front = events.drop_last();
        dry_runs_do_not_fail(p, front);
        step_in_range(p, front);
        if let Phase::Running { step } = phase_after(p, front)->0 {
            assert(p.definition.steps[step as int].timeout is None);
        }
    }
}

/// A run is never beyond the last step.
pub(crate) proof fn step_in_range(p: Plan, events: Seq<RunEventView>)
    requires
        phase_after(p, events) is Some,
    ensures
        match phase_after(p, events)->0 {
            Phase::Ready { step, resumed } => step <= p.definition.steps.len(),
            Phase::Held { step } => step < p.definition.steps.len(),
            Phase::Running { step } => step < p.definition.steps.len(),
            Phase::HeldRunning { step } => step < p.definition.steps.len(),
            Phase::Asking { step, error } => step < p.definition.steps.len(),
            _ => true,
        },
    decreases events.len(),
{
    if events.len() > 0 {
        step_in_range(p, events.drop_last());
    }
}

/// The user is asked exactly where a step whose policy is to prompt has failed, about that
/// failure.
pub proof fn asked_about_the_failure(p: Plan, events: Seq<RunEventView>, i: int)
    requires
        phase_after(p, events) is Some,
        0 <= i < events.len(),
        events[i] is ManualIntervention,
    ensures
        i > 0,
        events[i - 1] is StepFailed,
        events[i - 1]->StepFailed_error == events[i]->ManualIntervention_error,
        events[i - 1]->StepFailed_step_id == events[i]->ManualIntervention_step_id,
        exists|step: nat|
            step < p.definition.steps.len() && of_step(p, step, events[i - 1]) && (
            #[trigger] p.definition.steps[step as int]).on_error == OnErrorPolicy::Prompt,
{
    let upto = events.take(i + 1);
    prefix_possible(p, events, i + 1);
    let before = upto.drop_last();
    assert(upto.last() == events[i]);
    let phase = phase_after(p, before)->0;
    step_in_range(p, before);
    assert(phase is Asking);
    assert(before.len() > 0);
    assert(before.last() == events[i - 1]);
    let earlier = phase_after(p, before.drop_last())->0;
    step_in_range(p, before.drop_last());
    assert(earlier is Running);
    let step = phase->Asking_step;
    assert(p.definition.steps[step as int].on_error == OnErrorPolicy::Prompt);
    assert(of_step(p, step, events[i - 1]));
}

/// A step begins only once the run is at it: the steps begin in their order.
pub proof fn steps_begin_in_order(p: Plan, events: Seq<RunEventView>, i: int)
    requires
        phase_after(p, events) is Some,
        0 <= i < events.len(),
        events[i] is StepStarted,
    ensures
        exists|step: nat|
            step < p.definition.steps.len() && events[i] == #[trigger] step_started_event(p, step)
                && forall|earlier: nat| earlier < step ==> passed(p, events.take(i), earlier),
{
    let upto = events.take(i + 1);
    prefix_possible(p, events, i + 1);
    let before = upto.drop_last();
    assert(before =~= events.take(i));
    assert(upto.last() == events[i]);
    let phase = phase_after(p, before)->0;
    step_in_range(p, before);
    assert(phase is Ready);
    let step = phase->Ready_step;
    assert forall|earlier: nat| earlier < step implies passed(p, events.take(i), earlier) by {
        earlier_steps_passed(p, before, earlier);
    }
    assert(events[i] == step_started_event(p, step));
}

/// The name of a run that was given none: the moment it began.
pub fn run_id_at(nanos: u128) -> (r: String)
    ensures
        r@ == "run-"@ + decimal(nanos as nat),
{
    concat("run-", format_u128(nanos).as_str())
}

/// Whether a run has the name that it was given, or one after some moment where it was given none.
pub open spec fn named(given: Option<Seq<char>>, run_id: Seq<char>) -> bool {
    match given {
        Some(id) => run_id == id,
        None => exists|nanos: u128| run_id == "run-"@ + #[trigger] decimal(nanos as nat),
    }
}

fn generate_run_id() -> (r: String)
    ensures
        named(None, r@),
{
    let nanos = unix_nanos();
    run_id_at(nanos)
}

/// The longer a step has been failing, the longer it waits before the next attempt, or as long.
pub proof fn delays_do_not_shrink(retry: RetryPolicy, earlier: u32, later: u32)
    requires
        1 <= earlier <= later,
    ensures
        delay_after(retry, earlier).nanos <= delay_after(retry, later).nanos,
{
    if let Some(delay) = retry.delay {
        let a = multiplier_after(retry, earlier);
        let b = multiplier_after(retry, later);
        multipliers_do_not_shrink(retry, earlier, later);
        assert(delay.millis * a <= delay.millis * b) by (nonlinear_arith)
            requires
                a <= b,
                0 <= delay.millis,
        ;
    }
}

proof fn multipliers_do_not_shrink(retry: RetryPolicy, earlier: u32, later: u32)
    requires
        1 <= earlier <= later,
    ensures
        multiplier_after(retry, earlier) <= multiplier_after(retry, later),
{
    if retry.backoff == BackoffPolicy::Exponential && earlier < later {
        if later <= 64 {
            vstd::arithmetic::power2::lemma_pow2_strictly_increases(
                (earlier - 1) as nat,
                (later - 1) as nat,
            );
        } else if earlier <= 64 {
            if earlier < 64 {
                vstd::arithmetic::power2::lemma_pow2_strictly_increases((earlier - 1) as nat, 63);
            }
            vstd::arithmetic::power2::lemma2_to64_rest();
        }
    }
}

} // verus!
