//! What a run did: every call that it made of the adapter and the sink, one after the other, and
//! what it read of the clock and the control in between.
//!
//! The functions here make one such call each. They also hand out the state of the adapter or the
//! sink before and after the call, and a reading is made at a given moment. So what a run did can
//! be told as a chain of states, with each link one call.
use vstd::prelude::*;
use crate::adapter::{
    plain_error, run_error_of, AdapterError, AdapterErrorView, ConditionState, EvidencePhase,
    ExecutionAdapter,
};
use crate::attempts::{sleep_time, sleep_with_control};
use crate::control::RunControl;
use crate::definition::{
    Action, ActionView, Assertion, AssertionView, DurationSpec, OnErrorPolicy, WaitCondition,
    WaitConditionView,
};
use crate::executor::{
    action_at, artifact_event, cancelled_event, completed_event, delay_after, evidence_log, overdue,
    paused_event, resumed_event, started_event, step_started_event, timeout_error, ExecutionClock,
    Plan, RunEventSink, RunOutcome,
};
use crate::run::{
    Artifact, ArtifactView, RunConfig, RunConfigView, RunErrorKind, RunErrorView, RunEvent,
    RunEventView, RunStatus,
};
use crate::time::{lesser, millis_long, minus, Duration};
use crate::views::views;

verus! {

/// Hands an event to a sink.
pub fn hand_over<S: RunEventSink>(sink: &mut S, event: &RunEvent) -> (r: Ghost<(S, S)>)
    ensures
        r@ == (*old(sink), *final(sink)),
        exists|s: &mut S|
            *s == *old(sink) && *final(s) == *final(sink) && #[trigger] call_ensures(
                S::emit,
                (s, event),
                (),
            ),
{
    let ghost before = *sink;
    sink.emit(event);
    Ghost((before, *sink))
}

/// Has an adapter do an action.
pub fn perform<A: ExecutionAdapter>(
    adapter: &mut A,
    action: &Action,
    config: &RunConfig,
    control: &RunControl,
    limit: Option<Duration>,
) -> (r: (Result<Vec<Artifact>, AdapterError>, Ghost<(A, A)>))
    ensures
        r.1@ == (*old(adapter), *final(adapter)),
        exists|me: &mut A, answer: Result<Vec<Artifact>, AdapterError>|
            r.0 == answer && *me == *old(adapter) && *final(me) == *final(adapter)
                && #[trigger] call_ensures(
                A::execute_with_control,
                (me, action, config, control, limit),
                answer,
            ),
{
    let ghost before = *adapter;
    let answer = adapter.execute_with_control(action, config, control, limit);
    (answer, Ghost((before, *adapter)))
}

/// Asks an adapter whether a condition holds.
pub fn look<A: ExecutionAdapter>(
    adapter: &mut A,
    condition: &WaitCondition,
    config: &RunConfig,
    control: &RunControl,
    limit: Option<Duration>,
) -> (r: (Result<ConditionState, AdapterError>, Ghost<(A, A)>))
    ensures
        r.1@ == (*old(adapter), *final(adapter)),
        exists|me: &mut A, answer: Result<ConditionState, AdapterError>|
            r.0 == answer && *me == *old(adapter) && *final(me) == *final(adapter)
                && #[trigger] call_ensures(
                A::evaluate_wait_with_control,
                (me, condition, config, control, limit),
                answer,
            ),
{
    let ghost before = *adapter;
    let answer = adapter.evaluate_wait_with_control(condition, config, control, limit);
    (answer, Ghost((before, *adapter)))
}

/// Asks an adapter whether an assertion holds.
pub fn examine<A: ExecutionAdapter>(
    adapter: &mut A,
    assertion: &Assertion,
    config: &RunConfig,
) -> (r: (Result<bool, AdapterError>, Ghost<(A, A)>))
    ensures
        r.1@ == (*old(adapter), *final(adapter)),
        exists|me: &mut A, answer: Result<bool, AdapterError>|
            r.0 == answer && *me == *old(adapter) && *final(me) == *final(adapter)
                && #[trigger] call_ensures(
                A::evaluate_assertion,
                (me, assertion, config),
                answer,
            ),
{
    let ghost before = *adapter;
    let answer = adapter.evaluate_assertion(assertion, config);
    (answer, Ghost((before, *adapter)))
}

/// Asks an adapter for evidence of a step.
pub fn capture<A: ExecutionAdapter>(
    adapter: &mut A,
    phase: EvidencePhase,
    action: &Action,
    config: &RunConfig,
    run_id: &str,
    automation_id: &str,
    step_id: &str,
) -> (r: (Result<Vec<Artifact>, AdapterError>, Ghost<(A, A)>))
    ensures
        r.1@ == (*old(adapter), *final(adapter)),
        exists|me: &mut A, answer: Result<Vec<Artifact>, AdapterError>|
            r.0 == answer && *me == *old(adapter) && *final(me) == *final(adapter)
                && #[trigger] call_ensures(
                A::capture_step_evidence,
                (me, phase, action, config, run_id, automation_id, step_id),
                answer,
            ),
{
    let ghost before = *adapter;
    let answer = adapter.capture_step_evidence(
        phase,
        action,
        config,
        run_id,
        automation_id,
        step_id,
    );
    (answer, Ghost((before, *adapter)))
}

/// Reads the clock, at some moment.
pub fn time_at<C: ExecutionClock, T>(clock: &C, Ghost(at): Ghost<T>) -> (r: Duration)
    ensures
        call_ensures(C::now, (clock,), r),
{
    clock.now()
}

/// Reads whether the run is to stop, at some moment.
pub fn stop_at<T>(control: &RunControl, Ghost(at): Ghost<T>) -> (r: bool)
    ensures
        call_ensures(RunControl::is_cancelled, (control,), r),
{
    control.is_cancelled()
}

/// Reads whether the run is to hold, at some moment.
pub fn pause_at<T>(control: &RunControl, Ghost(at): Ghost<T>) -> (r: bool)
    ensures
        call_ensures(RunControl::is_paused, (control,), r),
{
    control.is_paused()
}

/// Waits until the run is resumed or stopped, at some moment; true where it was resumed.
pub fn resume_at<T>(control: &RunControl, Ghost(at): Ghost<T>) -> (r: bool)
    ensures
        call_ensures(RunControl::wait_for_resume, (control,), r),
{
    control.wait_for_resume()
}

/// Sleeps, at some moment; false where the run was stopped.
pub fn sleep_at<C: ExecutionClock, T>(
    clock: &C,
    control: &RunControl,
    duration: Duration,
    Ghost(at): Ghost<T>,
) -> (r: bool)
    ensures
        call_ensures(sleep_with_control::<C>, (clock, control, duration), r),
{
    sleep_with_control(clock, control, duration)
}

/// The sink was handed this one event.
pub open spec fn told<S: RunEventSink>(before: S, after: S, event: RunEventView) -> bool {
    exists|sink: &mut S, e: &RunEvent|
        e@ == event && #[trigger] call_ensures(hand_over::<S>, (sink, e), Ghost((before, after)))
}

/// The sink was handed exactly these events, one after the other.
#[verifier::opaque]
pub open spec fn streamed<S: RunEventSink>(before: S, after: S, events: Seq<RunEventView>) -> bool
    decreases events.len(),
{
    if events.len() == 0 {
        before == after
    } else {
        exists|between: S|
            streamed(before, between, events.drop_last()) && #[trigger] told(
                between,
                after,
                events.last(),
            )
    }
}

/// What a result stands for.
pub open spec fn artifacts_result(r: Result<Vec<Artifact>, AdapterError>) -> Result<
    Seq<ArtifactView>,
    AdapterErrorView,
> {
    match r {
        Ok(artifacts) => Ok(views(artifacts@)),
        Err(e) => Err(e@),
    }
}

/// What an answer stands for.
pub open spec fn answer_view<T>(r: Result<T, AdapterError>) -> Result<T, AdapterErrorView> {
    match r {
        Ok(answer) => Ok(answer),
        Err(e) => Err(e@),
    }
}

/// The adapter was handed this action, once.
#[verifier::opaque]
pub open spec fn performed<A: ExecutionAdapter>(
    before: A,
    after: A,
    action: ActionView,
    config: RunConfigView,
    control: &RunControl,
    limit: Option<Duration>,
    r: Result<Seq<ArtifactView>, AdapterErrorView>,
) -> bool {
    exists|
        adapter: &mut A,
        a: &Action,
        c: &RunConfig,
        answer: Result<Vec<Artifact>, AdapterError>,
    |
        {
            &&& a@ == action
            &&& c@ == config
            &&& artifacts_result(answer) == r
            &&& #[trigger] call_ensures(
                perform::<A>,
                (adapter, a, c, control, limit),
                (answer, Ghost((before, after))),
            )
        }
}

/// The adapter was asked about this condition, once.
#[verifier::opaque]
pub open spec fn looked<A: ExecutionAdapter>(
    before: A,
    after: A,
    condition: WaitConditionView,
    config: RunConfigView,
    control: &RunControl,
    limit: Option<Duration>,
    r: Result<ConditionState, AdapterErrorView>,
) -> bool {
    exists|
        adapter: &mut A,
        w: &WaitCondition,
        c: &RunConfig,
        answer: Result<ConditionState, AdapterError>,
    |
        {
            &&& w@ == condition
            &&& c@ == config
            &&& answer_view(answer) == r
            &&& #[trigger] call_ensures(
                look::<A>,
                (adapter, w, c, control, limit),
                (answer, Ghost((before, after))),
            )
        }
}

/// The adapter was asked about this assertion, once.
#[verifier::opaque]
pub open spec fn examined<A: ExecutionAdapter>(
    before: A,
    after: A,
    assertion: AssertionView,
    config: RunConfigView,
    r: Result<bool, AdapterErrorView>,
) -> bool {
    exists|adapter: &mut A, x: &Assertion, c: &RunConfig, answer: Result<bool, AdapterError>|
        {
            &&& x@ == assertion
            &&& c@ == config
            &&& answer_view(answer) == r
            &&& #[trigger] call_ensures(
                examine::<A>,
                (adapter, x, c),
                (answer, Ghost((before, after))),
            )
        }
}

/// The adapter was asked for evidence of a step, once.
#[verifier::opaque]
pub open spec fn captured<A: ExecutionAdapter>(
    p: Plan,
    step: nat,
    phase: EvidencePhase,
    before: A,
    after: A,
    r: Result<Seq<ArtifactView>, AdapterErrorView>,
) -> bool {
    exists|
        adapter: &mut A,
        a: &Action,
        c: &RunConfig,
        run_id: &str,
        automation_id: &str,
        step_id: &str,
        answer: Result<Vec<Artifact>, AdapterError>,
    |
        {
            &&& a@ == action_at(p, step)
            &&& c@ == p.config
            &&& run_id@ == p.run_id
            &&& automation_id@ == p.definition.id
            &&& step_id@ == p.definition.steps[step as int].id
            &&& artifacts_result(answer) == r
            &&& #[trigger] call_ensures(
                capture::<A>,
                (adapter, phase, a, c, run_id, automation_id, step_id),
                (answer, Ghost((before, after))),
            )
        }
}

/// The clock was read at this moment.
pub open spec fn clock_read<C: ExecutionClock, T>(clock: &C, at: T, time: Duration) -> bool {
    call_ensures(time_at::<C, T>, (clock, Ghost(at)), time)
}

/// It was read at this moment whether the run is to stop.
pub open spec fn stop_read<T>(control: &RunControl, at: T, stop: bool) -> bool {
    call_ensures(stop_at::<T>, (control, Ghost(at)), stop)
}

/// It was read at this moment whether the run is to hold.
pub open spec fn pause_read<T>(control: &RunControl, at: T, pause: bool) -> bool {
    call_ensures(pause_at::<T>, (control, Ghost(at)), pause)
}

/// The run was held at this moment.
pub open spec fn resume_read<T>(control: &RunControl, at: T, resumed: bool) -> bool {
    call_ensures(resume_at::<T>, (control, Ghost(at)), resumed)
}

/// The run slept at this moment, to the end or until it was stopped.
pub open spec fn slept<C: ExecutionClock, T>(
    clock: &C,
    control: &RunControl,
    at: T,
    duration: Duration,
    completed: bool,
) -> bool {
    call_ensures(sleep_at::<C, T>, (clock, control, duration, Ghost(at)), completed)
}

pub open spec fn cancelled_error() -> AdapterErrorView {
    plain_error(RunErrorKind::Cancelled, "run cancelled"@)
}

pub open spec fn assertion_error() -> AdapterErrorView {
    plain_error(RunErrorKind::Assertion, "assertion failed"@)
}

/// The time that a step allows.
pub open spec fn time_limit(timeout: Option<DurationSpec>) -> Option<Duration> {
    match timeout {
        Some(limit) => Some(millis_long(limit.millis)),
        None => None,
    }
}

/// The time that is given to a condition: half a minute where the step sets no limit.
pub open spec fn patience(timeout: Option<DurationSpec>) -> Duration {
    match timeout {
        Some(limit) => millis_long(limit.millis),
        None => millis_long(30_000),
    }
}

/// Where a wait stands.
pub enum WaitPlace {
    /// Before anything.
    Start,
    /// Before a look.
    Before,
    /// After a look.
    After,
}

/// A moment in a wait: the adapter as it is, and how many looks came before.
pub struct WaitMoment<A> {
    pub adapter: A,
    pub looks: nat,
    pub place: WaitPlace,
}

/// One look at a condition.
pub struct Look<A> {
    pub before: A,
    pub asked_at: Duration,
    pub answer: Result<ConditionState, AdapterErrorView>,
    pub after: A,
    pub seen_at: Duration,
}

/// How a wait ended.
pub enum WaitEnd {
    /// The last look settled it.
    Answered,
    /// The time was up after the last look.
    TimedOut,
    /// The run was stopped while it slept after the last look.
    Interrupted,
    /// The run was stopped before another look.
    Stopped,
    /// There were as many looks as can be counted.
    Uncountable,
}

/// What happened in a wait for a condition.
pub struct WaitStory<A> {
    pub started: Duration,
    pub looks: Seq<Look<A>>,
    pub end: WaitEnd,
}

/// What is asked of an adapter, and under which limits.
pub struct WaitPlan {
    pub condition: WaitConditionView,
    pub config: RunConfigView,
    pub limit: Duration,
}

/// The look with this number: the run was not to stop, the adapter was asked once, and it was given
/// what was left of the time.
#[verifier::opaque]
pub open spec fn look_made<A: ExecutionAdapter, C: ExecutionClock>(
    w: WaitPlan,
    control: &RunControl,
    clock: &C,
    started: Duration,
    number: nat,
    l: Look<A>,
) -> bool {
    let at = WaitMoment { adapter: l.before, looks: number, place: WaitPlace::Before };
    &&& stop_read(control, at, false)
    &&& clock_read(clock, at, l.asked_at)
    &&& looked(
        l.before,
        l.after,
        w.condition,
        w.config,
        control,
        Some(minus(w.limit, minus(l.asked_at, started))),
        l.answer,
    )
}

/// After the look with this number the condition did not hold, and the clock was read.
pub open spec fn look_pending<A: ExecutionAdapter, C: ExecutionClock>(
    clock: &C,
    number: nat,
    l: Look<A>,
) -> bool {
    &&& l.answer == Ok::<ConditionState, AdapterErrorView>(ConditionState::Pending)
    &&& clock_read(
        clock,
        WaitMoment { adapter: l.after, looks: number, place: WaitPlace::After },
        l.seen_at,
    )
}

/// After the look with this number the time was not up, and the run slept a tenth of a second, or
/// what was left of the time.
#[verifier::opaque]
pub open spec fn look_slept<A: ExecutionAdapter, C: ExecutionClock>(
    w: WaitPlan,
    control: &RunControl,
    clock: &C,
    started: Duration,
    number: nat,
    l: Look<A>,
    completed: bool,
) -> bool {
    let elapsed = minus(l.seen_at, started);
    &&& look_pending(clock, number, l)
    &&& elapsed.nanos < w.limit.nanos
    &&& slept(
        clock,
        control,
        WaitMoment { adapter: l.after, looks: number, place: WaitPlace::After },
        lesser(minus(w.limit, elapsed), millis_long(100)),
        completed,
    )
}

/// The adapter after some looks.
#[verifier::opaque]
pub open spec fn after_looks<A>(before: A, looks: Seq<Look<A>>) -> A {
    if looks.len() == 0 {
        before
    } else {
        looks.last().after
    }
}

/// The looks were made one after the other, and the run slept after each.
#[verifier::opaque]
pub open spec fn looks_made<A: ExecutionAdapter, C: ExecutionClock>(
    w: WaitPlan,
    control: &RunControl,
    clock: &C,
    started: Duration,
    before: A,
    looks: Seq<Look<A>>,
) -> bool {
    forall|i: int|
        0 <= i < looks.len() ==> {
            &&& (#[trigger] looks[i]).before == after_looks(before, looks.take(i))
            &&& look_made(w, control, clock, started, i as nat, looks[i])
            &&& look_slept(w, control, clock, started, i as nat, looks[i], true)
        }
}

/// What a wait comes to that went so.
pub open spec fn wait_result<A>(story: WaitStory<A>) -> Result<(), AdapterErrorView> {
    match story.end {
        WaitEnd::Answered => match story.looks.last().answer {
            Ok(_) => Ok(()),
            Err(e) => Err(e),
        },
        WaitEnd::TimedOut => Err(timeout_error()),
        WaitEnd::Uncountable => Err(timeout_error()),
        WaitEnd::Interrupted => Err(cancelled_error()),
        WaitEnd::Stopped => Err(cancelled_error()),
    }
}

/// Whether a wait went so.
#[verifier::opaque]
pub open spec fn wait_went<A: ExecutionAdapter, C: ExecutionClock>(
    w: WaitPlan,
    control: &RunControl,
    clock: &C,
    before: A,
    story: WaitStory<A>,
) -> bool {
    let started = story.started;
    let looks = story.looks;
    let number = (looks.len() - 1) as nat;
    &&& clock_read(
        clock,
        WaitMoment { adapter: before, looks: 0, place: WaitPlace::Start },
        started,
    )
    &&& match story.end {
        WaitEnd::Stopped => {
            &&& looks_made(w, control, clock, started, before, looks)
            &&& stop_read(
                control,
                WaitMoment {
                    adapter: after_looks(before, looks),
                    looks: looks.len(),
                    place: WaitPlace::Before,
                },
                true,
            )
        },
        WaitEnd::Uncountable => {
            &&& looks_made(w, control, clock, started, before, looks)
            &&& looks.len() == u64::MAX
        },
        _ => {
            &&& looks.len() > 0
            &&& looks_made(w, control, clock, started, before, looks.drop_last())
            &&& looks.last().before == after_looks(before, looks.drop_last())
            &&& look_made(w, control, clock, started, number, looks.last())
            &&& match story.end {
                WaitEnd::Answered => looks.last().answer != Ok::<ConditionState, AdapterErrorView>(
                    ConditionState::Pending,
                ),
                WaitEnd::TimedOut => look_pending(clock, number, looks.last()) && minus(
                    looks.last().seen_at,
                    started,
                ).nanos >= w.limit.nanos,
                _ => look_slept(w, control, clock, started, number, looks.last(), false),
            }
        },
    }
}

/// What waiting for a condition did to the adapter and came to. A plain wait for some time asks no
/// adapter: it sleeps, and is too long where it says more than the step allows.
#[verifier::opaque]
pub open spec fn waited<A: ExecutionAdapter, C: ExecutionClock>(
    condition: WaitConditionView,
    config: RunConfigView,
    timeout: Option<DurationSpec>,
    control: &RunControl,
    clock: &C,
    before: A,
    after: A,
    r: Result<(), AdapterErrorView>,
) -> bool {
    match condition {
        WaitConditionView::Duration { duration } => {
            let too_long = timeout is Some && duration.millis > timeout->0.millis;
            &&& before == after
            &&& {
                let at = WaitMoment { adapter: before, looks: 0, place: WaitPlace::Start };
                ||| {
                    &&& slept(clock, control, at, sleep_time(duration, timeout), false)
                    &&& r == Err::<(), AdapterErrorView>(cancelled_error())
                }
                ||| {
                    &&& slept(clock, control, at, sleep_time(duration, timeout), true)
                    &&& r == (if too_long {
                        Err(timeout_error())
                    } else {
                        Ok(())
                    })
                }
            }
        },
        _ => exists|story: WaitStory<A>|
            {
                &&& #[trigger] wait_went(
                    WaitPlan { condition, config, limit: patience(timeout) },
                    control,
                    clock,
                    before,
                    story,
                )
                &&& after == after_looks(before, story.looks)
                &&& r == wait_result(story)
            },
    }
}

/// What an attempt of an action did to the adapter and came to: what waiting comes to, what the
/// assertion comes to, or what the adapter answered that was handed the action.
#[verifier::opaque]
pub open spec fn attempted<A: ExecutionAdapter, C: ExecutionClock>(
    action: ActionView,
    config: RunConfigView,
    timeout: Option<DurationSpec>,
    control: &RunControl,
    clock: &C,
    before: A,
    after: A,
    r: Result<Seq<ArtifactView>, AdapterErrorView>,
) -> bool {
    match action {
        ActionView::WaitFor { condition } => exists|done: Result<(), AdapterErrorView>|
            {
                &&& #[trigger] waited(
                    condition,
                    config,
                    timeout,
                    control,
                    clock,
                    before,
                    after,
                    done,
                )
                &&& r == (match done {
                    Ok(_) => Ok(Seq::<ArtifactView>::empty()),
                    Err(e) => Err(e),
                })
            },
        ActionView::Assert { assertion } => exists|holds: Result<bool, AdapterErrorView>|
            {
                &&& #[trigger] examined(before, after, assertion, config, holds)
                &&& r == (match holds {
                    Ok(true) => Ok(Seq::<ArtifactView>::empty()),
                    Ok(false) => Err(assertion_error()),
                    Err(e) => Err(e),
                })
            },
        _ => performed(before, after, action, config, control, time_limit(timeout), r),
    }
}

/// Where a run stands.
pub enum Place {
    /// Where it is asked whether the run may go on.
    Hold,
    /// After that.
    Held,
    /// Right before an action.
    Begin,
    /// Right after an action.
    End,
    /// After the last step.
    Finish,
}

/// A moment in a run: the adapter as it is, the step, and the attempt, which is zero before the
/// first one.
pub struct Moment<A> {
    pub adapter: A,
    pub step: nat,
    pub attempt: nat,
    pub place: Place,
}

/// What came of asking whether the run may go on.
pub struct Hold {
    pub paused: bool,
    pub resumed: bool,
    pub go: bool,
}

/// The run was asked whether it may go on: it is not where it is to stop, before or after it was
/// held.
#[verifier::opaque]
pub open spec fn held<A>(control: &RunControl, adapter: A, step: nat, attempt: nat, h: Hold) -> bool {
    let at = Moment { adapter, step, attempt, place: Place::Hold };
    let later = Moment { adapter, step, attempt, place: Place::Held };
    ||| {
        &&& stop_read(control, at, true)
        &&& h == Hold { paused: false, resumed: false, go: false }
    }
    ||| {
        &&& stop_read(control, at, false)
        &&& pause_read(control, at, h.paused)
        &&& if h.paused {
            resume_read(control, at, h.resumed)
        } else {
            !h.resumed
        }
        &&& if h.paused && !h.resumed {
            !h.go
        } else {
            stop_read(control, later, !h.go)
        }
    }
}

/// The events that tell of it.
pub open spec fn hold_events(p: Plan, step: nat, h: Hold) -> Seq<RunEventView> {
    if h.paused && h.resumed {
        seq![paused_event(p, step), resumed_event(p, step)]
    } else if h.paused {
        seq![paused_event(p, step)]
    } else {
        Seq::empty()
    }
}

/// The events that report evidence: one for each artifact, or a warning.
pub open spec fn evidence_events(
    p: Plan,
    step: nat,
    taken: Option<Result<Seq<ArtifactView>, AdapterErrorView>>,
) -> Seq<RunEventView> {
    match taken {
        None => Seq::empty(),
        Some(Ok(artifacts)) => artifacts.map_values(|a: ArtifactView| artifact_event(p, step, a)),
        Some(Err(e)) => seq![evidence_log(p, step, e)],
    }
}

/// Evidence was taken once where the run asks for it, and not at all elsewhere.
#[verifier::opaque]
pub open spec fn evidence_taken<A: ExecutionAdapter>(
    p: Plan,
    step: nat,
    phase: EvidencePhase,
    before: A,
    after: A,
    taken: Option<Result<Seq<ArtifactView>, AdapterErrorView>>,
) -> bool {
    if p.config.capture_step_evidence && !p.config.dry_run {
        taken matches Some(r) && captured(p, step, phase, before, after, r)
    } else {
        taken is None && before == after
    }
}

/// One attempt of a step.
pub struct Try<A> {
    pub hold: Hold,
    pub before: A,
    pub started: Duration,
    pub came_to: Result<Seq<ArtifactView>, AdapterErrorView>,
    pub after: A,
    pub ended: Duration,
    /// Whether the run was to stop after the attempt.
    pub stopped: bool,
}

/// The attempt with this number: the run could go on, the clock was read before and after, and the
/// action was done once, or not at all in a dry run.
#[verifier::opaque]
pub open spec fn try_made<A: ExecutionAdapter, C: ExecutionClock>(
    p: Plan,
    step: nat,
    control: &RunControl,
    clock: &C,
    number: nat,
    t: Try<A>,
) -> bool {
    let begin = Moment { adapter: t.before, step, attempt: number, place: Place::Begin };
    let end = Moment { adapter: t.after, step, attempt: number, place: Place::End };
    &&& held(control, t.before, step, number, t.hold)
    &&& t.hold.go
    &&& clock_read(clock, begin, t.started)
    &&& if p.config.dry_run {
        t.before == t.after && t.came_to == Ok::<Seq<ArtifactView>, AdapterErrorView>(Seq::empty())
    } else {
        attempted(
            action_at(p, step),
            p.config,
            p.definition.steps[step as int].timeout,
            control,
            clock,
            t.before,
            t.after,
            t.came_to,
        )
    }
    &&& clock_read(clock, end, t.ended)
    &&& stop_read(control, end, t.stopped)
}

/// What an attempt means: one that took too long failed, whatever the adapter said.
#[verifier::opaque]
pub open spec fn judged<A>(p: Plan, step: nat, t: Try<A>) -> Result<
    Seq<ArtifactView>,
    AdapterErrorView,
> {
    if overdue(p.definition.steps[step as int], action_at(p, step), minus(t.ended, t.started)) {
        Err(timeout_error())
    } else {
        t.came_to
    }
}

/// After the attempt with this number, which failed, the run slept as long as the step says.
#[verifier::opaque]
pub open spec fn try_slept<A: ExecutionAdapter, C: ExecutionClock>(
    p: Plan,
    step: nat,
    control: &RunControl,
    clock: &C,
    number: nat,
    t: Try<A>,
    completed: bool,
) -> bool {
    &&& !t.stopped
    &&& judged(p, step, t) is Err
    &&& number < p.definition.steps[step as int].retry.max_attempts
    &&& slept(
        clock,
        control,
        Moment { adapter: t.after, step, attempt: number, place: Place::End },
        delay_after(p.definition.steps[step as int].retry, number as u32),
        completed,
    )
}

/// The adapter after some attempts.
#[verifier::opaque]
pub open spec fn after_tries<A>(before: A, tries: Seq<Try<A>>) -> A {
    if tries.len() == 0 {
        before
    } else {
        tries.last().after
    }
}

/// The attempts were made one after the other, and the run slept after each.
#[verifier::opaque]
pub open spec fn tries_made<A: ExecutionAdapter, C: ExecutionClock>(
    p: Plan,
    step: nat,
    control: &RunControl,
    clock: &C,
    before: A,
    tries: Seq<Try<A>>,
) -> bool {
    forall|i: int|
        0 <= i < tries.len() ==> {
            &&& (#[trigger] tries[i]).before == after_tries(before, tries.take(i))
            &&& try_made(p, step, control, clock, (i + 1) as nat, tries[i])
            &&& try_slept(p, step, control, clock, (i + 1) as nat, tries[i], true)
        }
}

/// The events that tell of pauses between attempts.
pub open spec fn try_events<A>(p: Plan, step: nat, tries: Seq<Try<A>>) -> Seq<RunEventView>
    decreases tries.len(),
{
    if tries.len() == 0 {
        Seq::empty()
    } else {
        try_events(p, step, tries.drop_last()) + hold_events(p, step, tries.last().hold)
    }
}

/// How a step ended.
pub enum StepEnd {
    Succeeded { artifacts: Seq<ArtifactView> },
    Failed { error: RunErrorView },
    Cancelled,
}

/// What happened in a step that has begun.
pub struct StepStory<A> {
    /// What was taken as evidence before the first attempt.
    pub opening: Option<Result<Seq<ArtifactView>, AdapterErrorView>>,
    pub opened: A,
    pub tries: Seq<Try<A>>,
    /// What stopped the run before another attempt.
    pub refusal: Option<Hold>,
    /// What was taken as evidence after the last attempt.
    pub closing: Option<Result<Seq<ArtifactView>, AdapterErrorView>>,
    pub after: A,
}

/// How a step ended that went so.
#[verifier::opaque]
pub open spec fn step_end<A>(p: Plan, step: nat, story: StepStory<A>) -> StepEnd {
    let s = p.definition.steps[step as int];
    if story.refusal is Some || story.tries.last().stopped {
        StepEnd::Cancelled
    } else {
        match judged(p, step, story.tries.last()) {
            Ok(artifacts) => StepEnd::Succeeded { artifacts },
            Err(e) => if story.tries.len() == s.retry.max_attempts {
                StepEnd::Failed { error: run_error_of(e, s.id) }
            } else {
                StepEnd::Cancelled
            },
        }
    }
}

/// The event that ends a step.
pub open spec fn end_events(p: Plan, step: nat, end: StepEnd) -> Seq<RunEventView> {
    match end {
        StepEnd::Succeeded { artifacts } => seq![
            RunEventView::StepSucceeded {
                run_id: p.run_id,
                automation_id: p.definition.id,
                step_id: p.definition.steps[step as int].id,
                artifacts,
            },
        ],
        StepEnd::Failed { error } => seq![
            RunEventView::StepFailed {
                run_id: p.run_id,
                automation_id: p.definition.id,
                step_id: p.definition.steps[step as int].id,
                error,
            },
        ],
        StepEnd::Cancelled => Seq::empty(),
    }
}

/// The events of a step up to its last attempt.
#[verifier::opaque]
pub open spec fn open_events<A>(
    p: Plan,
    step: nat,
    opening: Option<Result<Seq<ArtifactView>, AdapterErrorView>>,
    tries: Seq<Try<A>>,
) -> Seq<RunEventView> {
    seq![step_started_event(p, step)] + evidence_events(p, step, opening) + try_events(
        p,
        step,
        tries,
    )
}

/// The events of a step.
#[verifier::opaque]
pub open spec fn step_events<A>(p: Plan, step: nat, story: StepStory<A>) -> Seq<RunEventView> {
    let refused = match story.refusal {
        Some(h) => hold_events(p, step, h),
        None => Seq::empty(),
    };
    open_events(p, step, story.opening, story.tries) + refused + evidence_events(
        p,
        step,
        story.closing,
    ) + end_events(p, step, step_end(p, step, story))
}

/// Whether a step went so: evidence before, attempt after attempt with a delay after each failure,
/// no more of them than the step allows, until one succeeds, the last one fails or the run is
/// stopped; and evidence after, unless the run was stopped.
#[verifier::opaque]
pub open spec fn step_went<A: ExecutionAdapter, C: ExecutionClock>(
    p: Plan,
    step: nat,
    control: &RunControl,
    clock: &C,
    before: A,
    story: StepStory<A>,
) -> bool {
    let s = p.definition.steps[step as int];
    let tries = story.tries;
    let number = tries.len();
    let closed = after_tries(story.opened, tries);
    &&& evidence_taken(p, step, EvidencePhase::Before, before, story.opened, story.opening)
    &&& match story.refusal {
        Some(h) => {
            &&& tries_made(p, step, control, clock, story.opened, tries)
            &&& number < s.retry.max_attempts
            &&& held(control, closed, step, number + 1, h)
            &&& !h.go
        },
        None => {
            &&& 0 < number <= s.retry.max_attempts
            &&& tries_made(p, step, control, clock, story.opened, tries.drop_last())
            &&& tries.last().before == after_tries(story.opened, tries.drop_last())
            &&& try_made(p, step, control, clock, number, tries.last())
            &&& (!tries.last().stopped && judged(p, step, tries.last()) is Err && number
                < s.retry.max_attempts ==> try_slept(
                p,
                step,
                control,
                clock,
                number,
                tries.last(),
                false,
            ))
        },
    }
    &&& if step_end(p, step, story) is Cancelled {
        story.closing is None && closed == story.after
    } else {
        evidence_taken(p, step, EvidencePhase::After, closed, story.after, story.closing)
    }
}

/// A step, and what came of asking whether the run may go on to it.
pub struct Turn<A> {
    pub hold: Hold,
    pub before: A,
    pub story: StepStory<A>,
}

/// What happened in a run.
pub struct RunStory<A> {
    pub turns: Seq<Turn<A>>,
    /// What stopped the run before another step.
    pub refusal: Option<Hold>,
    /// Whether the run was to stop after its last step.
    pub stopped: bool,
}

/// Whether the run goes on after a step.
#[verifier::opaque]
pub open spec fn goes_on<A>(p: Plan, step: nat, story: StepStory<A>) -> bool {
    match step_end(p, step, story) {
        StepEnd::Succeeded { artifacts } => true,
        StepEnd::Failed { error } => p.definition.steps[step as int].on_error
            == OnErrorPolicy::Continue,
        StepEnd::Cancelled => false,
    }
}

/// The adapter after some steps.
#[verifier::opaque]
pub open spec fn after_turns<A>(before: A, turns: Seq<Turn<A>>) -> A {
    if turns.len() == 0 {
        before
    } else {
        turns.last().story.after
    }
}

/// The run went on to the step with this number, which went so.
#[verifier::opaque]
pub open spec fn turn_taken<A: ExecutionAdapter, C: ExecutionClock>(
    p: Plan,
    control: &RunControl,
    clock: &C,
    step: nat,
    turn: Turn<A>,
) -> bool {
    &&& held(control, turn.before, step, 0, turn.hold)
    &&& turn.hold.go
    &&& step_went(p, step, control, clock, turn.before, turn.story)
}

/// The steps were taken one after the other, and the run went on after each.
#[verifier::opaque]
pub open spec fn turns_taken<A: ExecutionAdapter, C: ExecutionClock>(
    p: Plan,
    control: &RunControl,
    clock: &C,
    before: A,
    turns: Seq<Turn<A>>,
) -> bool {
    forall|i: int|
        0 <= i < turns.len() ==> {
            &&& (#[trigger] turns[i]).before == after_turns(before, turns.take(i))
            &&& turn_taken(p, control, clock, i as nat, turns[i])
            &&& goes_on(p, i as nat, turns[i].story)
        }
}

/// The events of some steps, from the start of the run.
#[verifier::opaque]
pub open spec fn turn_events<A>(p: Plan, turns: Seq<Turn<A>>) -> Seq<RunEventView>
    decreases turns.len(),
{
    if turns.len() == 0 {
        seq![started_event(p)]
    } else {
        let step = (turns.len() - 1) as nat;
        turn_events(p, turns.drop_last()) + hold_events(p, step, turns.last().hold) + step_events(
            p,
            step,
            turns.last().story,
        )
    }
}

/// Whether the last step of a run ended it.
pub open spec fn ended_early<A>(p: Plan, story: RunStory<A>) -> bool {
    story.turns.len() > 0 && !goes_on(p, (story.turns.len() - 1) as nat, story.turns.last().story)
}

/// How a run ended that went so.
#[verifier::opaque]
pub open spec fn run_outcome<A>(p: Plan, story: RunStory<A>) -> RunOutcome {
    if ended_early(p, story) {
        if step_end(p, (story.turns.len() - 1) as nat, story.turns.last().story) is Failed {
            RunOutcome::Failed
        } else {
            RunOutcome::Cancelled
        }
    } else if story.refusal is Some || story.stopped {
        RunOutcome::Cancelled
    } else {
        RunOutcome::Succeeded
    }
}

/// The events that end a run that failed with a step.
pub open spec fn failure_events(p: Plan, step: nat, error: RunErrorView) -> Seq<RunEventView> {
    let s = p.definition.steps[step as int];
    if s.on_error == OnErrorPolicy::Prompt {
        seq![
            RunEventView::ManualIntervention {
                run_id: p.run_id,
                automation_id: p.definition.id,
                step_id: s.id,
                error,
            },
            completed_event(p, RunStatus::Failed),
        ]
    } else {
        seq![completed_event(p, RunStatus::Failed)]
    }
}

/// The events that end a run.
pub open spec fn last_events<A>(p: Plan, story: RunStory<A>) -> Seq<RunEventView> {
    match run_outcome(p, story) {
        RunOutcome::Succeeded => seq![completed_event(p, RunStatus::Succeeded)],
        RunOutcome::Cancelled => seq![cancelled_event(p)],
        RunOutcome::Failed => {
            let step = (story.turns.len() - 1) as nat;
            failure_events(p, step, step_end(p, step, story.turns.last().story)->error)
        },
    }
}

/// The events of a run, from the first to the last.
#[verifier::opaque]
pub open spec fn run_events<A>(p: Plan, story: RunStory<A>) -> Seq<RunEventView> {
    let refused = match story.refusal {
        Some(h) => hold_events(p, story.turns.len(), h),
        None => Seq::empty(),
    };
    turn_events(p, story.turns) + refused + last_events(p, story)
}

/// Whether a run went so: step after step, until one ends the run, the run is stopped, or there is
/// none left.
#[verifier::opaque]
pub open spec fn run_went<A: ExecutionAdapter, C: ExecutionClock>(
    p: Plan,
    control: &RunControl,
    clock: &C,
    before: A,
    story: RunStory<A>,
) -> bool {
    let turns = story.turns;
    let number = turns.len();
    let after = after_turns(before, turns);
    if ended_early(p, story) {
        &&& story.refusal is None
        &&& number <= p.definition.steps.len()
        &&& turns_taken(p, control, clock, before, turns.drop_last())
        &&& turns.last().before == after_turns(before, turns.drop_last())
        &&& turn_taken(p, control, clock, (number - 1) as nat, turns.last())
    } else {
        &&& turns_taken(p, control, clock, before, turns)
        &&& match story.refusal {
            Some(h) => number < p.definition.steps.len() && held(control, after, number, 0, h)
                && !h.go,
            None => number == p.definition.steps.len() && stop_read(
                control,
                Moment { adapter: after, step: number, attempt: 0, place: Place::Finish },
                story.stopped,
            ),
        }
    }
}

/// Whether a run went somehow that took the adapter from one state to another, and came to this
/// outcome and these events.
#[verifier::opaque]
pub open spec fn ran<A: ExecutionAdapter, C: ExecutionClock>(
    p: Plan,
    control: &RunControl,
    clock: &C,
    before: A,
    after: A,
    outcome: RunOutcome,
    events: Seq<RunEventView>,
) -> bool {
    exists|story: RunStory<A>|
        {
            &&& #[trigger] run_went(p, control, clock, before, story)
            &&& after == after_turns(before, story.turns)
            &&& outcome == run_outcome(p, story)
            &&& events == run_events(p, story)
        }
}

/// The adapter is as the last look, attempt or step left it.
pub(crate) proof fn after_last<A>(
    before: A,
    looks: Seq<Look<A>>,
    tries: Seq<Try<A>>,
    turns: Seq<Turn<A>>,
)
    ensures
        after_looks(before, looks) == (if looks.len() == 0 {
            before
        } else {
            looks.last().after
        }),
        after_tries(before, tries) == (if tries.len() == 0 {
            before
        } else {
            tries.last().after
        }),
        after_turns(before, turns) == (if turns.len() == 0 {
            before
        } else {
            turns.last().story.after
        }),
{
    reveal(after_looks);
    reveal(after_tries);
    reveal(after_turns);
}

/// A look more, after which the run slept.
pub(crate) proof fn looks_more<A: ExecutionAdapter, C: ExecutionClock>(
    w: WaitPlan,
    control: &RunControl,
    clock: &C,
    started: Duration,
    before: A,
    looks: Seq<Look<A>>,
    l: Look<A>,
)
    requires
        looks_made(w, control, clock, started, before, looks),
        l.before == after_looks(before, looks),
        look_made(w, control, clock, started, looks.len(), l),
        look_slept(w, control, clock, started, looks.len(), l, true),
    ensures
        looks_made(w, control, clock, started, before, looks.push(l)),
{
    reveal(looks_made);
    let more = looks.push(l);
    assert forall|i: int| 0 <= i < more.len() implies {
        &&& (#[trigger] more[i]).before == after_looks(before, more.take(i))
        &&& look_made(w, control, clock, started, i as nat, more[i])
        &&& look_slept(w, control, clock, started, i as nat, more[i], true)
    } by {
        assert(more.take(i) =~= looks.take(i));
        if i < looks.len() {
            assert(more[i] == looks[i]);
        } else {
            assert(looks.take(i) =~= looks);
        }
    }
}

/// A wait that went so comes to what its story says.
pub(crate) proof fn wait_told<A: ExecutionAdapter, C: ExecutionClock>(
    condition: WaitConditionView,
    config: RunConfigView,
    timeout: Option<DurationSpec>,
    control: &RunControl,
    clock: &C,
    before: A,
    story: WaitStory<A>,
)
    requires
        !(condition is Duration),
        wait_went(
            WaitPlan { condition, config, limit: patience(timeout) },
            control,
            clock,
            before,
            story,
        ),
    ensures
        waited(
            condition,
            config,
            timeout,
            control,
            clock,
            before,
            after_looks(before, story.looks),
            wait_result(story),
        ),
{
    reveal(waited);
}

/// An attempt more, after which the run slept.
pub(crate) proof fn tries_more<A: ExecutionAdapter, C: ExecutionClock>(
    p: Plan,
    step: nat,
    control: &RunControl,
    clock: &C,
    before: A,
    tries: Seq<Try<A>>,
    t: Try<A>,
)
    requires
        tries_made(p, step, control, clock, before, tries),
        t.before == after_tries(before, tries),
        try_made(p, step, control, clock, tries.len() + 1, t),
        try_slept(p, step, control, clock, tries.len() + 1, t, true),
    ensures
        tries_made(p, step, control, clock, before, tries.push(t)),
{
    reveal(tries_made);
    let more = tries.push(t);
    assert forall|i: int| 0 <= i < more.len() implies {
        &&& (#[trigger] more[i]).before == after_tries(before, more.take(i))
        &&& try_made(p, step, control, clock, (i + 1) as nat, more[i])
        &&& try_slept(p, step, control, clock, (i + 1) as nat, more[i], true)
    } by {
        assert(more.take(i) =~= tries.take(i));
        if i < tries.len() {
            assert(more[i] == tries[i]);
        } else {
            assert(tries.take(i) =~= tries);
        }
    }
}

/// A step more, after which the run goes on.
pub(crate) proof fn turns_more<A: ExecutionAdapter, C: ExecutionClock>(
    p: Plan,
    control: &RunControl,
    clock: &C,
    before: A,
    turns: Seq<Turn<A>>,
    turn: Turn<A>,
)
    requires
        turns_taken(p, control, clock, before, turns),
        turn.before == after_turns(before, turns),
        turn_taken(p, control, clock, turns.len(), turn),
        goes_on(p, turns.len(), turn.story),
    ensures
        turns_taken(p, control, clock, before, turns.push(turn)),
{
    reveal(turns_taken);
    let more = turns.push(turn);
    assert forall|i: int| 0 <= i < more.len() implies {
        &&& (#[trigger] more[i]).before == after_turns(before, more.take(i))
        &&& turn_taken(p, control, clock, i as nat, more[i])
        &&& goes_on(p, i as nat, more[i].story)
    } by {
        assert(more.take(i) =~= turns.take(i));
        if i < turns.len() {
            assert(more[i] == turns[i]);
        } else {
            assert(turns.take(i) =~= turns);
        }
    }
}

/// The first events of a step.
pub(crate) proof fn open_first<A>(
    p: Plan,
    step: nat,
    opening: Option<Result<Seq<ArtifactView>, AdapterErrorView>>,
    earlier: Seq<RunEventView>,
)
    ensures
        earlier.push(step_started_event(p, step)) + evidence_events(p, step, opening) == earlier
            + open_events(p, step, opening, Seq::<Try<A>>::empty()),
{
    reveal(open_events);
    assert(earlier.push(step_started_event(p, step)) + evidence_events(p, step, opening)
        =~= earlier + open_events(p, step, opening, Seq::<Try<A>>::empty()));
}

/// The events up to the end of another attempt.
pub(crate) proof fn open_more<A>(
    p: Plan,
    step: nat,
    opening: Option<Result<Seq<ArtifactView>, AdapterErrorView>>,
    tries: Seq<Try<A>>,
    t: Try<A>,
    earlier: Seq<RunEventView>,
)
    ensures
        earlier + open_events(p, step, opening, tries) + hold_events(p, step, t.hold) == earlier
            + open_events(p, step, opening, tries.push(t)),
{
    reveal(open_events);
    assert(tries.push(t).drop_last() =~= tries);
    assert(earlier + open_events(p, step, opening, tries) + hold_events(p, step, t.hold)
        =~= earlier + open_events(p, step, opening, tries.push(t)));
}

/// A step in which the run was stopped before another attempt.
pub(crate) proof fn step_refused<A: ExecutionAdapter, C: ExecutionClock>(
    p: Plan,
    step: nat,
    control: &RunControl,
    clock: &C,
    before: A,
    story: StepStory<A>,
    earlier: Seq<RunEventView>,
)
    requires
        evidence_taken(p, step, EvidencePhase::Before, before, story.opened, story.opening),
        tries_made(p, step, control, clock, story.opened, story.tries),
        story.tries.len() < p.definition.steps[step as int].retry.max_attempts,
        story.refusal is Some,
        held(
            control,
            after_tries(story.opened, story.tries),
            step,
            story.tries.len() + 1,
            story.refusal->0,
        ),
        !story.refusal->0.go,
        story.closing is None,
        story.after == after_tries(story.opened, story.tries),
    ensures
        step_went(p, step, control, clock, before, story),
        step_end(p, step, story) is Cancelled,
        earlier + open_events(p, step, story.opening, story.tries) + hold_events(
            p,
            step,
            story.refusal->0,
        ) == earlier + step_events(p, step, story),
{
    reveal(after_tries);
    reveal(step_went);
    reveal(step_end);
    reveal(step_events);
    assert(earlier + open_events(p, step, story.opening, story.tries) + hold_events(
        p,
        step,
        story.refusal->0,
    ) =~= earlier + step_events(p, step, story));
}

/// A step in which the run was stopped during or after an attempt.
pub(crate) proof fn step_stopped<A: ExecutionAdapter, C: ExecutionClock>(
    p: Plan,
    step: nat,
    control: &RunControl,
    clock: &C,
    before: A,
    tries: Seq<Try<A>>,
    story: StepStory<A>,
    earlier: Seq<RunEventView>,
)
    requires
        evidence_taken(p, step, EvidencePhase::Before, before, story.opened, story.opening),
        story.tries.len() > 0,
        tries == story.tries.drop_last(),
        tries_made(p, step, control, clock, story.opened, tries),
        story.tries.len() <= p.definition.steps[step as int].retry.max_attempts,
        story.tries.last().before == after_tries(story.opened, tries),
        try_made(p, step, control, clock, story.tries.len(), story.tries.last()),
        story.tries.last().stopped || try_slept(
            p,
            step,
            control,
            clock,
            story.tries.len(),
            story.tries.last(),
            false,
        ),
        story.refusal is None,
        story.closing is None,
        story.after == story.tries.last().after,
    ensures
        step_went(p, step, control, clock, before, story),
        step_end(p, step, story) is Cancelled,
        earlier + open_events(p, step, story.opening, story.tries) == earlier + step_events(
            p,
            step,
            story,
        ),
{
    reveal(after_tries);
    reveal(step_went);
    reveal(step_end);
    reveal(step_events);
    reveal(try_slept);
    assert(earlier + open_events(p, step, story.opening, story.tries) =~= earlier + step_events(
        p,
        step,
        story,
    ));
}

/// A step that came to an end.
pub(crate) proof fn step_closed<A: ExecutionAdapter, C: ExecutionClock>(
    p: Plan,
    step: nat,
    control: &RunControl,
    clock: &C,
    before: A,
    tries: Seq<Try<A>>,
    story: StepStory<A>,
    earlier: Seq<RunEventView>,
)
    requires
        evidence_taken(p, step, EvidencePhase::Before, before, story.opened, story.opening),
        story.tries.len() > 0,
        tries == story.tries.drop_last(),
        tries_made(p, step, control, clock, story.opened, tries),
        story.tries.len() <= p.definition.steps[step as int].retry.max_attempts,
        story.tries.last().before == after_tries(story.opened, tries),
        try_made(p, step, control, clock, story.tries.len(), story.tries.last()),
        !story.tries.last().stopped,
        judged(p, step, story.tries.last()) is Ok || story.tries.len()
            == p.definition.steps[step as int].retry.max_attempts,
        story.refusal is None,
        evidence_taken(
            p,
            step,
            EvidencePhase::After,
            story.tries.last().after,
            story.after,
            story.closing,
        ),
    ensures
        step_went(p, step, control, clock, before, story),
        step_end(p, step, story) == (match judged(p, step, story.tries.last()) {
            Ok(artifacts) => StepEnd::Succeeded { artifacts },
            Err(e) => StepEnd::Failed {
                error: run_error_of(e, p.definition.steps[step as int].id),
            },
        }),
        earlier + open_events(p, step, story.opening, story.tries) + evidence_events(
            p,
            step,
            story.closing,
        ) + end_events(p, step, step_end(p, step, story)) == earlier + step_events(p, step, story),
{
    reveal(after_tries);
    reveal(step_went);
    reveal(step_end);
    reveal(step_events);
    assert(earlier + open_events(p, step, story.opening, story.tries) + evidence_events(
        p,
        step,
        story.closing,
    ) + end_events(p, step, step_end(p, step, story)) =~= earlier + step_events(p, step, story));
}

/// The first event of a run.
pub(crate) proof fn turns_begin<A>(p: Plan)
    ensures
        turn_events(p, Seq::<Turn<A>>::empty()) == seq![started_event(p)],
{
    reveal(turn_events);
}

/// The events up to the end of another step.
pub(crate) proof fn turn_events_more<A>(p: Plan, turns: Seq<Turn<A>>, turn: Turn<A>)
    ensures
        turn_events(p, turns.push(turn)) == turn_events(p, turns) + hold_events(
            p,
            turns.len(),
            turn.hold,
        ) + step_events(p, turns.len(), turn.story),
{
    reveal(turn_events);
    assert(turns.push(turn).drop_last() =~= turns);
}

/// A run that was stopped before another step.
pub(crate) proof fn run_refused<A: ExecutionAdapter, C: ExecutionClock>(
    p: Plan,
    control: &RunControl,
    clock: &C,
    before: A,
    turns: Seq<Turn<A>>,
    h: Hold,
)
    requires
        turns_taken(p, control, clock, before, turns),
        turns.len() < p.definition.steps.len(),
        held(control, after_turns(before, turns), turns.len(), 0, h),
        !h.go,
    ensures
        ran(
            p,
            control,
            clock,
            before,
            after_turns(before, turns),
            RunOutcome::Cancelled,
            turn_events(p, turns) + hold_events(p, turns.len(), h) + seq![cancelled_event(p)],
        ),
{
    let story = RunStory { turns, refusal: Some(h), stopped: false };
    last_goes_on(p, control, clock, before, turns);
    reveal(ran);
    reveal(run_went);
    reveal(run_outcome);
    reveal(run_events);
    assert(!ended_early(p, story));
    assert(run_went(p, control, clock, before, story));
    assert(turn_events(p, turns) + hold_events(p, turns.len(), h) + seq![cancelled_event(p)]
        =~= run_events(p, story));
}

proof fn last_goes_on<A: ExecutionAdapter, C: ExecutionClock>(
    p: Plan,
    control: &RunControl,
    clock: &C,
    before: A,
    turns: Seq<Turn<A>>,
)
    requires
        turns_taken(p, control, clock, before, turns),
    ensures
        turns.len() > 0 ==> goes_on(p, (turns.len() - 1) as nat, turns.last().story),
{
    reveal(turns_taken);
    if turns.len() > 0 {
        let last = turns[turns.len() - 1];
        assert(turns.last() == last);
    }
}

/// A run that was ended by a step.
pub(crate) proof fn run_ended<A: ExecutionAdapter, C: ExecutionClock>(
    p: Plan,
    control: &RunControl,
    clock: &C,
    before: A,
    turns: Seq<Turn<A>>,
    turn: Turn<A>,
)
    requires
        turns_taken(p, control, clock, before, turns),
        turns.len() < p.definition.steps.len(),
        turn.before == after_turns(before, turns),
        turn_taken(p, control, clock, turns.len(), turn),
        !goes_on(p, turns.len(), turn.story),
    ensures
        ({
            let story = RunStory { turns: turns.push(turn), refusal: None, stopped: false };
            ran(
                p,
                control,
                clock,
                before,
                turn.story.after,
                run_outcome(p, story),
                turn_events(p, turns.push(turn)) + last_events(p, story),
            )
        }),
{
    reveal(after_turns);
    let story = RunStory { turns: turns.push(turn), refusal: None, stopped: false };
    assert(turns.push(turn).drop_last() =~= turns);
    reveal(ran);
    reveal(run_went);
    reveal(run_events);
    assert(ended_early(p, story));
    assert(run_went(p, control, clock, before, story));
    assert(turn_events(p, turns.push(turn)) + last_events(p, story) =~= run_events(p, story));
}

/// What a run comes to that was ended by a step.
pub(crate) proof fn ended_by<A>(p: Plan, turns: Seq<Turn<A>>, turn: Turn<A>)
    ensures
        ({
            let story = RunStory { turns: turns.push(turn), refusal: None, stopped: false };
            let step = turns.len();
            let s = p.definition.steps[step as int];
            let end = step_end(p, step, turn.story);
            &&& goes_on(p, step, turn.story) == (end is Succeeded || (end is Failed && s.on_error
                == OnErrorPolicy::Continue))
            &&& !goes_on(p, step, turn.story) ==> run_outcome(p, story) == (if end is Failed {
                RunOutcome::Failed
            } else {
                RunOutcome::Cancelled
            })
            &&& !goes_on(p, step, turn.story) ==> last_events(p, story) == (if end is Cancelled {
                seq![cancelled_event(p)]
            } else {
                failure_events(p, step, end->error)
            })
        }),
{
    reveal(goes_on);
    reveal(run_outcome);
}

/// A run that took all its steps.
pub(crate) proof fn run_finished<A: ExecutionAdapter, C: ExecutionClock>(
    p: Plan,
    control: &RunControl,
    clock: &C,
    before: A,
    turns: Seq<Turn<A>>,
    stopped: bool,
)
    requires
        turns_taken(p, control, clock, before, turns),
        turns.len() == p.definition.steps.len(),
        stop_read(
            control,
            Moment {
                adapter: after_turns(before, turns),
                step: turns.len(),
                attempt: 0,
                place: Place::Finish,
            },
            stopped,
        ),
    ensures
        ran(
            p,
            control,
            clock,
            before,
            after_turns(before, turns),
            if stopped {
                RunOutcome::Cancelled
            } else {
                RunOutcome::Succeeded
            },
            turn_events(p, turns) + seq![
                if stopped {
                    cancelled_event(p)
                } else {
                    completed_event(p, RunStatus::Succeeded)
                },
            ],
        ),
{
    let story = RunStory { turns, refusal: None, stopped };
    last_goes_on(p, control, clock, before, turns);
    reveal(ran);
    reveal(run_went);
    reveal(run_outcome);
    reveal(run_events);
    assert(!ended_early(p, story));
    assert(run_went(p, control, clock, before, story));
    assert(turn_events(p, turns) + seq![
        if stopped {
            cancelled_event(p)
        } else {
            completed_event(p, RunStatus::Succeeded)
        },
    ] =~= run_events(p, story));
}

/// Every attempt of a step hands the action to the adapter once, unless it is a wait, an assertion
/// or a dry run; and nothing else is asked of the adapter between two attempts.
pub proof fn attempts_call_once<A: ExecutionAdapter, C: ExecutionClock>(
    p: Plan,
    step: nat,
    control: &RunControl,
    clock: &C,
    before: A,
    story: StepStory<A>,
    i: int,
)
    requires
        step_went(p, step, control, clock, before, story),
        0 <= i < story.tries.len(),
        !p.config.dry_run,
        !(action_at(p, step) is WaitFor || action_at(p, step) is Assert),
    ensures
        performed(
            story.tries[i].before,
            story.tries[i].after,
            action_at(p, step),
            p.config,
            control,
            time_limit(p.definition.steps[step as int].timeout),
            story.tries[i].came_to,
        ),
        story.tries[i].before == (if i == 0 {
            story.opened
        } else {
            story.tries[i - 1].after
        }),
{
    let tries = story.tries;
    reveal(attempted);
    try_in_step(p, step, control, clock, before, story, i);
}

proof fn try_in_step<A: ExecutionAdapter, C: ExecutionClock>(
    p: Plan,
    step: nat,
    control: &RunControl,
    clock: &C,
    before: A,
    story: StepStory<A>,
    i: int,
)
    requires
        step_went(p, step, control, clock, before, story),
        0 <= i < story.tries.len(),
    ensures
        !p.config.dry_run ==> attempted(
            action_at(p, step),
            p.config,
            p.definition.steps[step as int].timeout,
            control,
            clock,
            story.tries[i].before,
            story.tries[i].after,
            story.tries[i].came_to,
        ),
        story.tries[i].before == (if i == 0 {
            story.opened
        } else {
            story.tries[i - 1].after
        }),
        i < story.tries.len() - 1 ==> !story.tries[i].stopped && judged(p, step, story.tries[i])
            is Err,
{
    let tries = story.tries;
    tries_of_step(p, step, control, clock, before, story, i);
    after_last(story.opened, Seq::empty(), tries.take(i), Seq::empty());
    assert(i > 0 ==> tries.take(i).last() == tries[i - 1]);
    reveal(try_made);
    reveal(try_slept);
}

proof fn tries_of_step<A: ExecutionAdapter, C: ExecutionClock>(
    p: Plan,
    step: nat,
    control: &RunControl,
    clock: &C,
    before: A,
    story: StepStory<A>,
    i: int,
)
    requires
        step_went(p, step, control, clock, before, story),
        0 <= i < story.tries.len(),
    ensures
        story.tries[i].before == after_tries(story.opened, story.tries.take(i)),
        try_made(p, step, control, clock, (i + 1) as nat, story.tries[i]),
        i < story.tries.len() - 1 ==> try_slept(
            p,
            step,
            control,
            clock,
            (i + 1) as nat,
            story.tries[i],
            true,
        ),
{
    reveal(step_went);
    reveal(tries_made);
    let tries = story.tries;
    let front = tries.drop_last();
    if story.refusal is Some {
        assert(tries[i].before == after_tries(story.opened, tries.take(i)));
    } else if i < front.len() {
        assert(front[i] == tries[i]);
        assert(front.take(i) =~= tries.take(i));
    } else {
        assert(tries.last() == tries[i]);
        assert(front =~= tries.take(i));
    }
}

/// A step that failed had every attempt that it allows; each of them failed or took too long, and
/// the run was not to stop after any of them.
pub proof fn failed_steps_had_every_attempt<A: ExecutionAdapter, C: ExecutionClock>(
    p: Plan,
    step: nat,
    control: &RunControl,
    clock: &C,
    before: A,
    story: StepStory<A>,
    i: int,
)
    requires
        step_went(p, step, control, clock, before, story),
        step_end(p, step, story) is Failed,
        0 <= i < story.tries.len(),
    ensures
        story.tries.len() == p.definition.steps[step as int].retry.max_attempts,
        judged(p, step, story.tries[i]) is Err,
        !story.tries[i].stopped,
{
    reveal(step_end);
    try_in_step(p, step, control, clock, before, story, i);
    assert(story.tries.last() == story.tries[story.tries.len() - 1]);
}

/// A step succeeds with its last attempt: the adapter said so, in the time that the step allows,
/// the run was not to stop afterwards, and every attempt before had failed.
pub proof fn successful_steps_end_in_time<A: ExecutionAdapter, C: ExecutionClock>(
    p: Plan,
    step: nat,
    control: &RunControl,
    clock: &C,
    before: A,
    story: StepStory<A>,
    i: int,
)
    requires
        step_went(p, step, control, clock, before, story),
        step_end(p, step, story) is Succeeded,
        0 <= i < story.tries.len() - 1,
    ensures
        story.tries.len() <= p.definition.steps[step as int].retry.max_attempts,
        story.tries.last().came_to == Ok::<Seq<ArtifactView>, AdapterErrorView>(
            step_end(p, step, story)->artifacts,
        ),
        !story.tries.last().stopped,
        !overdue(
            p.definition.steps[step as int],
            action_at(p, step),
            minus(story.tries.last().ended, story.tries.last().started),
        ),
        judged(p, step, story.tries[i]) is Err,
{
    try_in_step(p, step, control, clock, before, story, i);
    reveal(step_end);
    reveal(judged);
    reveal(step_went);
}

/// Every look of a wait is one question to the adapter, which is given no more time than the wait
/// has left; and the adapter goes from one look to the next as it was left.
pub proof fn looks_ask_once<A: ExecutionAdapter, C: ExecutionClock>(
    w: WaitPlan,
    control: &RunControl,
    clock: &C,
    before: A,
    story: WaitStory<A>,
    i: int,
)
    requires
        wait_went(w, control, clock, before, story),
        0 <= i < story.looks.len(),
    ensures
        ({
            let l = story.looks[i];
            let left = minus(w.limit, minus(l.asked_at, story.started));
            &&& looked(l.before, l.after, w.condition, w.config, control, Some(left), l.answer)
            &&& left.nanos <= w.limit.nanos
            &&& l.before == (if i == 0 {
                before
            } else {
                story.looks[i - 1].after
            })
            &&& i < story.looks.len() - 1 ==> l.answer == Ok::<ConditionState, AdapterErrorView>(
                ConditionState::Pending,
            )
        }),
{
    let looks = story.looks;
    looks_of_wait(w, control, clock, before, story, i);
    after_last(before, looks.take(i), Seq::empty(), Seq::empty());
    assert(i > 0 ==> looks.take(i).last() == looks[i - 1]);
    reveal(look_made);
    reveal(look_slept);
}

proof fn looks_of_wait<A: ExecutionAdapter, C: ExecutionClock>(
    w: WaitPlan,
    control: &RunControl,
    clock: &C,
    before: A,
    story: WaitStory<A>,
    i: int,
)
    requires
        wait_went(w, control, clock, before, story),
        0 <= i < story.looks.len(),
    ensures
        story.looks[i].before == after_looks(before, story.looks.take(i)),
        look_made(w, control, clock, story.started, i as nat, story.looks[i]),
        i < story.looks.len() - 1 ==> look_slept(
            w,
            control,
            clock,
            story.started,
            i as nat,
            story.looks[i],
            true,
        ),
{
    reveal(wait_went);
    reveal(looks_made);
    let looks = story.looks;
    let front = looks.drop_last();
    if story.end is Stopped || story.end is Uncountable {
        assert(looks[i].before == after_looks(before, looks.take(i)));
    } else if i < front.len() {
        assert(front[i] == looks[i]);
        assert(front.take(i) =~= looks.take(i));
    } else {
        assert(looks.last() == looks[i]);
        assert(front =~= looks.take(i));
    }
}

/// A run does nothing with the adapter but its steps: it goes from one to the next as it was left,
/// and each of them went as told.
pub proof fn steps_follow_each_other<A: ExecutionAdapter, C: ExecutionClock>(
    p: Plan,
    control: &RunControl,
    clock: &C,
    before: A,
    story: RunStory<A>,
    i: int,
)
    requires
        run_went(p, control, clock, before, story),
        0 <= i < story.turns.len(),
    ensures
        step_went(p, i as nat, control, clock, story.turns[i].before, story.turns[i].story),
        story.turns[i].before == (if i == 0 {
            before
        } else {
            story.turns[i - 1].story.after
        }),
        i < story.turns.len() - 1 ==> goes_on(p, i as nat, story.turns[i].story),
{
    let turns = story.turns;
    turns_of_run(p, control, clock, before, story, i);
    after_last(before, Seq::empty(), Seq::empty(), turns.take(i));
    assert(i > 0 ==> turns.take(i).last() == turns[i - 1]);
    reveal(turn_taken);
}

proof fn turns_of_run<A: ExecutionAdapter, C: ExecutionClock>(
    p: Plan,
    control: &RunControl,
    clock: &C,
    before: A,
    story: RunStory<A>,
    i: int,
)
    requires
        run_went(p, control, clock, before, story),
        0 <= i < story.turns.len(),
    ensures
        story.turns[i].before == after_turns(before, story.turns.take(i)),
        turn_taken(p, control, clock, i as nat, story.turns[i]),
        i < story.turns.len() - 1 ==> goes_on(p, i as nat, story.turns[i].story),
{
    reveal(run_went);
    reveal(turns_taken);
    let turns = story.turns;
    let front = turns.drop_last();
    if !ended_early(p, story) {
        assert(turns[i].before == after_turns(before, turns.take(i)));
    } else if i < front.len() {
        assert(front[i] == turns[i]);
        assert(front.take(i) =~= turns.take(i));
    } else {
        assert(turns.last() == turns[i]);
        assert(front =~= turns.take(i));
    }
}

} // verus!
