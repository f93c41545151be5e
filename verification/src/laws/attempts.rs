//! What single attempts, waits and steps come to.
use vstd::prelude::*;
use crate::adapter::{AdapterErrorView, ConditionState, EvidencePhase, ExecutionAdapter};
use crate::control::RunControl;
use crate::definition::{ActionView, DurationSpec, OnErrorPolicy, WaitConditionView};
use crate::executor::{ExecutionClock, Plan, RunOutcome};
use crate::run::{ArtifactView, LogLevel, RunConfigView, RunErrorKind, RunEventView, RunStatus};
use crate::story::{
    attempted, captured, evidence_events, evidence_taken, examined, last_events, performed,
    run_events, run_outcome, run_went, step_end, wait_went, waited, RunStory, WaitPlan, WaitStory,
};
use crate::time::Duration;

verus! {

/// An attempt of an action that is neither a wait nor an assertion is one call of the adapter with
/// that action and the time that the step allows, and comes to what the adapter said.
pub proof fn actions_are_handed_to_the_adapter<A: ExecutionAdapter, C: ExecutionClock>(
    action: ActionView,
    config: RunConfigView,
    timeout: Option<DurationSpec>,
    control: &RunControl,
    clock: &C,
    before: A,
    after: A,
    r: Result<Seq<ArtifactView>, AdapterErrorView>,
)
    requires
        attempted(action, config, timeout, control, clock, before, after, r),
        !(action is WaitFor || action is Assert),
    ensures
        exists|limit: Option<Duration>|
            {
                &&& #[trigger] performed(before, after, action, config, control, limit, r)
                &&& limit is Some <==> timeout is Some
                &&& limit is Some ==> limit->0.nanos == timeout->0.millis * 1_000_000
            },
{
    reveal(attempted);
    let limit = crate::story::time_limit(timeout);
    assert(performed(before, after, action, config, control, limit, r));
}

/// An attempt of an assertion succeeds where the adapter says that it holds, with nothing to show;
/// where it says that it does not, the attempt fails of that; and an error stays an error.
pub proof fn assertions_are_put_to_the_adapter<A: ExecutionAdapter, C: ExecutionClock>(
    action: ActionView,
    config: RunConfigView,
    timeout: Option<DurationSpec>,
    control: &RunControl,
    clock: &C,
    before: A,
    after: A,
    r: Result<Seq<ArtifactView>, AdapterErrorView>,
)
    requires
        attempted(action, config, timeout, control, clock, before, after, r),
        action is Assert,
    ensures
        exists|holds: Result<bool, AdapterErrorView>|
            {
                &&& #[trigger] examined(before, after, action->assertion, config, holds)
                &&& r is Ok <==> holds == Ok::<bool, AdapterErrorView>(true)
                &&& r is Ok ==> r->Ok_0.len() == 0
                &&& holds == Ok::<bool, AdapterErrorView>(false) ==> r->Err_0.kind
                    == RunErrorKind::Assertion
                &&& holds is Err ==> r is Err && r->Err_0 == holds->Err_0
            },
{
    reveal(attempted);
    let holds = choose|holds: Result<bool, AdapterErrorView>|
        {
            &&& #[trigger] examined(before, after, action->assertion, config, holds)
            &&& r == (match holds {
                Ok(true) => Ok(Seq::<ArtifactView>::empty()),
                Ok(false) => Err(crate::story::assertion_error()),
                Err(e) => Err(e),
            })
        };
    assert(holds is Ok ==> holds == Ok::<bool, AdapterErrorView>(true) || holds == Ok::<
        bool,
        AdapterErrorView,
    >(false));
    assert(examined(before, after, action->assertion, config, holds));
}

/// A wait for some time leaves the adapter alone. It succeeds only where it is no longer than the
/// step allows, and otherwise it is cancelled or out of time.
pub proof fn waits_for_some_time_leave_the_adapter_alone<A: ExecutionAdapter, C: ExecutionClock>(
    duration: DurationSpec,
    config: RunConfigView,
    timeout: Option<DurationSpec>,
    control: &RunControl,
    clock: &C,
    before: A,
    after: A,
    r: Result<(), AdapterErrorView>,
)
    requires
        waited(
            WaitConditionView::Duration { duration },
            config,
            timeout,
            control,
            clock,
            before,
            after,
            r,
        ),
    ensures
        before == after,
        r is Ok ==> timeout is None || duration.millis <= timeout->0.millis,
        r is Err ==> r->Err_0.kind == RunErrorKind::Cancelled || r->Err_0.kind
            == RunErrorKind::Timeout && timeout is Some && duration.millis > timeout->0.millis,
{
    reveal(waited);
}

/// A wait for a condition is given the time that the step allows, and half a minute where it sets
/// none. It succeeds with a look that found the condition to hold. It runs out of time only after
/// that time, unless there were more looks than can be counted.
pub proof fn waits_end_with_what_they_saw<A: ExecutionAdapter, C: ExecutionClock>(
    condition: WaitConditionView,
    config: RunConfigView,
    timeout: Option<DurationSpec>,
    control: &RunControl,
    clock: &C,
    before: A,
    after: A,
    r: Result<(), AdapterErrorView>,
)
    requires
        waited(condition, config, timeout, control, clock, before, after, r),
        !(condition is Duration),
    ensures
        exists|w: WaitPlan, story: WaitStory<A>|
            {
                &&& #[trigger] wait_went(w, control, clock, before, story)
                &&& w.condition == condition && w.config == config
                &&& timeout is Some ==> w.limit.nanos == timeout->0.millis * 1_000_000
                &&& timeout is None ==> w.limit.nanos == 30_000_000_000
                &&& story.looks.len() > 0 ==> after == story.looks.last().after
                &&& story.looks.len() == 0 ==> after == before
                &&& r is Ok ==> story.looks.len() > 0 && story.looks.last().answer == Ok::<
                    ConditionState,
                    AdapterErrorView,
                >(ConditionState::Satisfied)
                &&& story.end is TimedOut ==> r is Err && r->Err_0.kind == RunErrorKind::Timeout
                    && story.looks.last().seen_at.nanos - story.started.nanos >= w.limit.nanos
                    || w.limit.nanos == 0
                &&& story.end is Answered && r is Err ==> story.looks.last().answer == Err::<
                    ConditionState,
                    AdapterErrorView,
                >(r->Err_0)
            },
{
    reveal(waited);
    reveal(wait_went);
    reveal(crate::story::after_looks);
    let limit = crate::story::patience(timeout);
    let w = WaitPlan { condition, config, limit };
    let story = choose|story: WaitStory<A>|
        {
            &&& #[trigger] wait_went(w, control, clock, before, story)
            &&& after == crate::story::after_looks(before, story.looks)
            &&& r == crate::story::wait_result(story)
        };
    if story.end is Answered {
        let answer = story.looks.last().answer;
        if let Ok(state) = answer {
            assert(state == ConditionState::Pending || state == ConditionState::Satisfied);
        }
    }
    assert(wait_went(w, control, clock, before, story));
}

/// A run succeeds only once every step has had its turn and none ended it; it fails with a step
/// that failed and was not to be passed over.
pub proof fn outcomes_are_those_of_the_steps<A: ExecutionAdapter, C: ExecutionClock>(
    p: Plan,
    control: &RunControl,
    clock: &C,
    before: A,
    story: RunStory<A>,
)
    requires
        run_went(p, control, clock, before, story),
    ensures
        ({
            let outcome = run_outcome(p, story);
            let last = (story.turns.len() - 1) as nat;
            &&& outcome == RunOutcome::Succeeded ==> story.turns.len() == p.definition.steps.len()
                && !story.stopped && story.refusal is None
            &&& outcome == RunOutcome::Failed ==> story.turns.len() > 0 && step_end(
                p,
                last,
                story.turns.last().story,
            ) is Failed && p.definition.steps[last as int].on_error != OnErrorPolicy::Continue
            &&& story.refusal is Some && !crate::story::ended_early(p, story) ==> outcome
                == RunOutcome::Cancelled
            &&& run_events(p, story).len() > 0
            &&& outcome == RunOutcome::Succeeded ==> run_events(p, story).last() == (
            RunEventView::Completed {
                run_id: p.run_id,
                automation_id: p.definition.id,
                status: RunStatus::Succeeded,
            })
            &&& outcome == RunOutcome::Failed ==> run_events(p, story).last() == (
            RunEventView::Completed {
                run_id: p.run_id,
                automation_id: p.definition.id,
                status: RunStatus::Failed,
            })
            &&& outcome == RunOutcome::Cancelled ==> run_events(p, story).last() == (
            RunEventView::Cancelled { run_id: p.run_id, automation_id: p.definition.id })
        }),
{
    reveal(run_went);
    reveal(run_outcome);
    reveal(run_events);
    reveal(crate::story::goes_on);
    let ends = last_events(p, story);
    assert(ends.len() > 0);
    assert(run_events(p, story).last() == ends.last());
}

/// Evidence of a step is asked for once where the run captures it and is no dry run, and each
/// artifact is told by an event of its own, in order; where none could be had, a warning is.
pub proof fn evidence_is_told_piece_by_piece<A: ExecutionAdapter>(
    p: Plan,
    step: nat,
    phase: EvidencePhase,
    before: A,
    after: A,
    taken: Option<Result<Seq<ArtifactView>, AdapterErrorView>>,
    i: int,
)
    requires
        evidence_taken(p, step, phase, before, after, taken),
    ensures
        taken is Some <==> p.config.capture_step_evidence && !p.config.dry_run,
        taken is Some ==> captured(p, step, phase, before, after, taken->0),
        taken is None ==> before == after && evidence_events(p, step, taken).len() == 0,
        taken matches Some(Ok(artifacts)) ==> {
            let events = evidence_events(p, step, taken);
            &&& events.len() == artifacts.len()
            &&& 0 <= i < artifacts.len() ==> events[i] == (RunEventView::Artifact {
                run_id: p.run_id,
                automation_id: p.definition.id,
                step_id: Some(p.definition.steps[step as int].id),
                artifact: artifacts[i],
            })
        },
        taken matches Some(Err(_)) ==> {
            let events = evidence_events(p, step, taken);
            &&& events.len() == 1
            &&& events[0] is Log
            &&& events[0]->Log_level == LogLevel::Warn
            &&& events[0]->Log_step_id == Some(p.definition.steps[step as int].id)
        },
{
    reveal(evidence_taken);
}

} // verus!
