//! What happens in a run, one thing after another.
use vstd::arithmetic::power2::{lemma2_to64, lemma_pow2_unfold};
use vstd::prelude::*;
use crate::adapter::AdapterError;
use crate::definition::{
    Action, AutomationDefinitionView, BackoffPolicy, OnErrorPolicy, Portability, Step,
};
use crate::executor::{
    all_diagnostics, judge_attempt, multiplier_after, phase_after, prefix_possible, retry_delay,
    step_in_range, Plan, PreflightReport, Verdict,
};
use crate::platform::portability_of;
use crate::run::{
    Artifact, PreflightDiagnosticView, PreflightSeverity, RunErrorKind, RunEventView, RunStatus,
};
use crate::time::Duration;

verus! {

/// How long a step waits after a failed attempt: not at all without a delay; for its delay after
/// the first one; and after a later one for as long, for its delay once more per attempt, or for
/// twice as long as the time before, as the policy says.
pub proof fn delays_grow_as_the_policy_says(
    step: &Step,
    attempt: u32,
    waited: Duration,
    next: Duration,
)
    requires
        1 <= attempt < u32::MAX,
        call_ensures(retry_delay, (step, attempt), waited),
        call_ensures(retry_delay, (step, (attempt + 1) as u32), next),
    ensures
        step.retry.delay is None ==> waited.nanos == 0,
        step.retry.delay is Some ==> ({
            let first = step.retry.delay->0.millis * 1_000_000;
            let most = u64::MAX * 1_000_000;
            &&& attempt == 1 ==> waited.nanos == first
            &&& match step.retry.backoff {
                BackoffPolicy::Constant => waited.nanos == first,
                BackoffPolicy::Linear => waited.nanos == if first * attempt <= most {
                    first * attempt
                } else {
                    most
                },
                BackoffPolicy::Exponential => first > 0 ==> next.nanos == if 2 * waited.nanos
                    <= most {
                    2 * waited.nanos as int
                } else {
                    most
                },
            }
        }),
{
    if step.retry.delay is Some {
        let millis = step.retry.delay->0.millis as int;
        let m = multiplier_after(step@.retry, attempt) as int;
        let n = multiplier_after(step@.retry, (attempt + 1) as u32) as int;
        lemma2_to64();
        vstd::arithmetic::power2::lemma2_to64_rest();
        match step.retry.backoff {
            BackoffPolicy::Constant => {
                assert(millis * 1 == millis);
            },
            BackoffPolicy::Linear => {
                assert(millis * 1_000_000 * attempt == millis * attempt * 1_000_000)
                    by (nonlinear_arith);
                assert(millis * 1 == millis);
                assert(m == attempt);
            },
            BackoffPolicy::Exponential => {
                assert(millis * 1 == millis);
                if attempt < 64 {
                    lemma_pow2_unfold(attempt as nat);
                    assert(n == 2 * m);
                    assert(millis * n == 2 * (millis * m)) by (nonlinear_arith)
                        requires
                            n == 2 * m,
                    ;
                } else if millis > 0 {
                    assert(n == u64::MAX as int);
                    assert(m == 0x8000000000000000 || m == u64::MAX);
                    assert(millis * n >= u64::MAX) by (nonlinear_arith)
                        requires
                            millis >= 1,
                            n == u64::MAX,
                    ;
                    assert(millis * m >= m) by (nonlinear_arith)
                        requires
                            millis >= 1,
                            m >= 0,
                    ;
                }
            },
        }
    }
}

/// What an attempt comes to. A run that was cancelled ends there. Of a step with a time limit, an
/// attempt that took as long or longer fails with a timeout, whatever the adapter said, unless the
/// step is there to wait. Every other attempt is what the adapter said. After a failure there is
/// another attempt until there were as many as the policy allows.
pub proof fn attempts_end_in_time(
    step: &Step,
    action: &Action,
    result: Result<Vec<Artifact>, AdapterError>,
    elapsed: Duration,
    cancelled: bool,
    attempt: u32,
    verdict: Verdict,
)
    requires
        1 <= attempt <= step.retry.max_attempts,
        call_ensures(
            judge_attempt,
            (step, action, result, elapsed, cancelled, attempt),
            verdict,
        ),
    ensures
        cancelled <==> verdict is Cancelled,
        ({
            let waits = action matches Action::WaitFor { condition } && condition is Duration;
            let late = !waits && step.timeout is Some && elapsed.nanos
                >= step.timeout->0.millis * 1_000_000;
            &&& !cancelled && !late && result is Ok ==> verdict == Verdict::Succeeded(result->Ok_0)
            &&& !cancelled && (late || result is Err) ==> {
                &&& attempt < step.retry.max_attempts <==> verdict is Retry
                &&& attempt == step.retry.max_attempts <==> verdict is Failed
            }
            &&& !cancelled && late && verdict is Failed ==> verdict->Failed_0@.kind
                == RunErrorKind::Timeout && verdict->Failed_0@.message == "step timed out"@
            &&& !cancelled && late && verdict is Retry ==> verdict->error@.kind
                == RunErrorKind::Timeout
            &&& !cancelled && !late && result is Err && verdict is Failed ==> verdict->Failed_0@
                == result->Err_0@
            &&& !cancelled && !late && result is Err && verdict is Retry ==> verdict->error@
                == result->Err_0@
        }),
{
}

/// What follows the failure of a step. Where its policy is to stop, the run is over and has failed.
/// Where it is to prompt, the user is asked about the failure, and then the run is over and has
/// failed. Where it is to continue, the run goes on with the next step.
pub proof fn failures_are_followed_by_what_the_policy_says(
    p: Plan,
    events: Seq<RunEventView>,
    i: int,
)
    requires
        phase_after(p, events) is Some,
        0 <= i,
        i + 1 < events.len(),
        events[i] is StepFailed,
    ensures
        exists|k: nat|
            {
                let step = #[trigger] p.definition.steps[k as int];
                let next = events[i + 1];
                &&& k < p.definition.steps.len()
                &&& events[i]->StepFailed_step_id == step.id
                &&& match step.on_error {
                    OnErrorPolicy::Stop => next == (RunEventView::Completed {
                        run_id: p.run_id,
                        automation_id: p.definition.id,
                        status: RunStatus::Failed,
                    }),
                    OnErrorPolicy::Prompt => {
                        &&& next is ManualIntervention
                        &&& next->ManualIntervention_step_id == step.id
                        &&& next->ManualIntervention_error == events[i]->StepFailed_error
                        &&& i + 2 < events.len() ==> events[i + 2] == (RunEventView::Completed {
                            run_id: p.run_id,
                            automation_id: p.definition.id,
                            status: RunStatus::Failed,
                        })
                    },
                    OnErrorPolicy::Continue => goes_on(p, k + 1, next),
                }
            },
{
    prefix_possible(p, events, i);
    prefix_possible(p, events, i + 1);
    prefix_possible(p, events, i + 2);
    step_in_range(p, events.take(i));
    let before = events.take(i);
    let upto = events.take(i + 1);
    let then = events.take(i + 2);
    assert(upto.drop_last() =~= before && upto.last() == events[i]);
    assert(then.drop_last() =~= upto && then.last() == events[i + 1]);
    let phase = phase_after(p, before)->0;
    assert(phase is Running);
    let k = phase->Running_step;
    let step = p.definition.steps[k as int];
    if i + 2 < events.len() {
        prefix_possible(p, events, i + 3);
        let more = events.take(i + 3);
        assert(more.drop_last() =~= then && more.last() == events[i + 2]);
    }
    assert(events[i]->StepFailed_step_id == step.id);
}

/// Whether an event is one with which a run goes on: the step with this number begins, or is held;
/// where there is no such step, the run has succeeded; or it was cancelled.
pub open spec fn goes_on(p: Plan, k: nat, event: RunEventView) -> bool {
    let steps = p.definition.steps;
    ||| event == (RunEventView::Cancelled { run_id: p.run_id, automation_id: p.definition.id })
    ||| k >= steps.len() && event == (RunEventView::Completed {
        run_id: p.run_id,
        automation_id: p.definition.id,
        status: RunStatus::Succeeded,
    })
    ||| k < steps.len() && event == (RunEventView::StepStarted {
        run_id: p.run_id,
        automation_id: p.definition.id,
        step_id: steps[k as int].id,
        step_kind: event->StepStarted_step_kind,
    })
    ||| k < steps.len() && event == (RunEventView::Paused {
        run_id: p.run_id,
        automation_id: p.definition.id,
        step_id: Some(steps[k as int].id),
    })
}

/// A run goes on with the next step once a step has succeeded, and it begins with the first.
pub proof fn runs_go_from_step_to_step(p: Plan, events: Seq<RunEventView>, i: int)
    requires
        phase_after(p, events) is Some,
        0 <= i,
        i + 1 < events.len(),
    ensures
        events[i] is Started ==> goes_on(p, 0, events[i + 1]),
        events[i] is StepSucceeded ==> exists|k: nat|
            k < p.definition.steps.len() && events[i]->StepSucceeded_step_id == (
            #[trigger] p.definition.steps[k as int]).id && goes_on(p, k + 1, events[i + 1]),
        events[i] is Paused ==> events[i + 1] is Resumed || events[i + 1] is Cancelled,
        !(events[i] is Completed || events[i] is Cancelled),
{
    prefix_possible(p, events, i);
    prefix_possible(p, events, i + 1);
    prefix_possible(p, events, i + 2);
    step_in_range(p, events.take(i));
    let before = events.take(i);
    let upto = events.take(i + 1);
    let then = events.take(i + 2);
    assert(upto.drop_last() =~= before && upto.last() == events[i]);
    assert(then.drop_last() =~= upto && then.last() == events[i + 1]);
    let phase = phase_after(p, before)->0;
    if events[i] is StepSucceeded {
        let k = phase->Running_step;
        assert(events[i]->StepSucceeded_step_id == p.definition.steps[k as int].id);
    }
}

/// Whether a diagnostic is another one, told of a step where the other names none.
pub open spec fn told_of(
    told: PreflightDiagnosticView,
    found: PreflightDiagnosticView,
    step: Seq<char>,
) -> bool {
    &&& told.severity == found.severity && told.code == found.code && told.message == found.message
    &&& found.step_id is Some ==> told.step_id == found.step_id
    &&& found.step_id is None ==> told.step_id == Some(step)
}

/// How many diagnostics were found for the steps before one.
pub open spec fn found_before(found: Seq<Seq<PreflightDiagnosticView>>, k: int) -> int
    decreases k,
{
    if k <= 0 {
        0
    } else {
        found_before(found, k - 1) + found[k - 1].len()
    }
}

/// A preflight tells what was found for each step, step by step and each in its place, and nothing
/// else but that a definition is not portable.
pub proof fn preflight_tells_what_was_found(
    d: AutomationDefinitionView,
    found: Seq<Seq<PreflightDiagnosticView>>,
    n: nat,
    k: int,
    j: int,
)
    requires
        n <= found.len(),
        found.len() == d.steps.len(),
        0 <= k < n,
        0 <= j < found[k].len(),
    ensures
        ({
            let all = all_diagnostics(d, found, n);
            let own = if portability_of(d) == Portability::Portable {
                0int
            } else {
                1
            };
            &&& all.len() == own + found_before(found, n as int)
            &&& 0 <= own + found_before(found, k) + j < all.len()
            &&& told_of(all[own + found_before(found, k) + j], found[k][j], d.steps[k].id)
            &&& own == 1 ==> all[0].severity == PreflightSeverity::Warning && all[0].step_id is None
        }),
    decreases n,
{
    lengths_of_diagnostics(d, found, n);
    lengths_of_diagnostics(d, found, (n - 1) as nat);
    lengths_of_diagnostics(d, found, k as nat);
    if k < n - 1 {
        preflight_tells_what_was_found(d, found, (n - 1) as nat, k, j);
    } else if portability_of(d) != Portability::Portable {
        first_diagnostic(d, found, (n - 1) as nat);
    }
}

proof fn first_diagnostic(
    d: AutomationDefinitionView,
    found: Seq<Seq<PreflightDiagnosticView>>,
    n: nat,
)
    requires
        n <= found.len(),
        found.len() == d.steps.len(),
        portability_of(d) != Portability::Portable,
    ensures
        all_diagnostics(d, found, n).len() > 0,
        all_diagnostics(d, found, n)[0].severity == PreflightSeverity::Warning,
        all_diagnostics(d, found, n)[0].step_id is None,
    decreases n,
{
    if n > 0 {
        first_diagnostic(d, found, (n - 1) as nat);
    }
}

proof fn lengths_of_diagnostics(
    d: AutomationDefinitionView,
    found: Seq<Seq<PreflightDiagnosticView>>,
    n: nat,
)
    requires
        n <= found.len(),
        found.len() == d.steps.len(),
    ensures
        all_diagnostics(d, found, n).len() == found_before(found, n as int) + if portability_of(d)
            == Portability::Portable {
            0int
        } else {
            1
        },
        found_before(found, n as int) >= 0,
    decreases n,
{
    if n > 0 {
        lengths_of_diagnostics(d, found, (n - 1) as nat);
    }
}

/// A run may begin exactly where no diagnostic is an error; warnings keep nothing from beginning.
pub proof fn errors_keep_runs_from_beginning(report: &PreflightReport, can: bool, i: int)
    requires
        call_ensures(PreflightReport::can_run, (report,), can),
    ensures
        0 <= i < report.diagnostics@.len() && report.diagnostics@[i].severity
            == PreflightSeverity::Error ==> !can,
        (forall|j: int|
            0 <= j < report.diagnostics@.len() ==> (#[trigger] report.diagnostics@[j]).severity
                == PreflightSeverity::Warning) ==> can,
{
    let all = crate::views::views(report.diagnostics@);
    if 0 <= i < report.diagnostics@.len() {
        assert(all[i] == report.diagnostics@[i]@);
    }
    if forall|j: int|
        0 <= j < report.diagnostics@.len() ==> (#[trigger] report.diagnostics@[j]).severity
            == PreflightSeverity::Warning {
        assert forall|j: int| 0 <= j < all.len() implies !crate::executor::is_error(
            #[trigger] all[j],
        ) by {
            assert(all[j] == report.diagnostics@[j]@);
            assert(report.diagnostics@[j].severity == PreflightSeverity::Warning);
        }
    }
}

} // verus!
