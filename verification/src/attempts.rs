//! One attempt of an action: sleeping, waiting for a condition, and having the adapter act.
use vstd::prelude::*;
use crate::adapter::{plain_error, AdapterError, AdapterErrorView, ConditionState, ExecutionAdapter};
use crate::control::RunControl;
use crate::definition::{Action, DurationSpec, WaitCondition};
use crate::executor::{timeout_error, ExecutionClock};
use crate::run::{Artifact, ArtifactView, RunConfig, RunErrorKind};
use crate::story::{
    after_last, after_looks, answer_view, artifacts_result, attempted, cancelled_error, clock_read,
    examine, examined, look, look_made, look_slept, looked, looks_made, looks_more, patience,
    perform, performed, sleep_at, slept, stop_at, stop_read, time_at, time_limit, wait_told,
    wait_went, waited, Look, WaitEnd, WaitMoment, WaitPlace, WaitPlan, WaitStory,
};
use crate::time::{lesser, millis_long, minus, Duration};
use crate::views::views;

verus! {

/// What to do after a condition has been looked at.
#[derive(Debug, Clone, Copy, PartialEq, Eq, Structural)]
pub enum Poll {
    Done,
    TimedOut,
    SleepFor(Duration),
}

/// What to do after a condition has been looked at: a pending one is looked at again after a tenth
/// of a second, or what is left of the time.
pub fn judge_poll(state: ConditionState, elapsed: Duration, timeout: Duration) -> (r: Poll)
    ensures
        r == (if state == ConditionState::Satisfied {
            Poll::Done
        } else if elapsed.nanos >= timeout.nanos {
            Poll::TimedOut
        } else {
            Poll::SleepFor(lesser(minus(timeout, elapsed), millis_long(100)))
        }),
{
    match state {
        ConditionState::Satisfied => Poll::Done,
        ConditionState::Pending => if elapsed.nanos >= timeout.nanos {
            Poll::TimedOut
        } else {
            Poll::SleepFor(timeout.saturating_sub(elapsed).shorter(Duration::from_millis(100)))
        },
    }
}

/// How long a wait for some time sleeps: as long as it says, but no longer than the step allows.
pub open spec fn sleep_time(requested: DurationSpec, timeout: Option<DurationSpec>) -> Duration {
    match timeout {
        Some(limit) => lesser(millis_long(requested.millis), millis_long(limit.millis)),
        None => millis_long(requested.millis),
    }
}

/// What a wait for some time comes to once it has slept.
pub fn judge_sleep(requested: DurationSpec, timeout: Option<DurationSpec>, completed: bool) -> (r:
    Result<(), AdapterError>)
    ensures
        match r {
            Ok(_) => completed && (timeout is Some ==> requested.millis <= timeout->0.millis),
            Err(e) => if completed {
                timeout is Some && requested.millis > timeout->0.millis && e@ == timeout_error()
            } else {
                e@ == plain_error(RunErrorKind::Cancelled, "run cancelled"@)
            },
        },
{
    if !completed {
        return Err(AdapterError::cancelled());
    }
    if let Some(limit) = timeout {
        if requested.millis > limit.millis {
            return Err(AdapterError::timeout());
        }
    }
    Ok(())
}

/// How long some lengths of time are together.
pub open spec fn total_nanos(naps: Seq<Duration>) -> nat
    decreases naps.len(),
{
    if naps.len() == 0 {
        0
    } else {
        total_nanos(naps.drop_last()) + naps.last().nanos as nat
    }
}

/// How a sleep of some length went: in slices of ten milliseconds, or what was left, with a look
/// before each slice, and at the end, at whether the run is to stop.
pub open spec fn dozed<C: ExecutionClock>(
    clock: &C,
    control: &RunControl,
    d: Duration,
    naps: Seq<Duration>,
    completed: bool,
) -> bool {
    &&& forall|i: int|
        0 <= i < naps.len() ==> {
            &&& total_nanos(naps.take(i)) < d.nanos
            &&& stop_read(control, total_nanos(naps.take(i)), false)
            &&& (#[trigger] naps[i]).nanos == if d.nanos - total_nanos(naps.take(i))
                <= millis_long(10).nanos {
                d.nanos - total_nanos(naps.take(i))
            } else {
                millis_long(10).nanos as int
            }
            &&& call_ensures(C::sleep, (clock, naps[i]), ())
        }
    &&& total_nanos(naps) <= d.nanos
    &&& completed ==> total_nanos(naps) == d.nanos
    &&& stop_read(control, total_nanos(naps), !completed)
}

/// Sleeps in short slices, so that a cancelled run is noticed. False where the run was cancelled.
pub fn sleep_with_control<C: ExecutionClock>(clock: &C, control: &RunControl, duration: Duration) -> (r:
    bool)
    ensures
        exists|naps: Seq<Duration>| #[trigger] dozed(clock, control, duration, naps, r),
{
    let mut remaining: Duration = duration;
    let ghost mut naps: Seq<Duration> = Seq::empty();
    while !remaining.is_zero()
        invariant
            total_nanos(naps) + remaining.nanos == duration.nanos,
            forall|i: int|
                0 <= i < naps.len() ==> {
                    &&& total_nanos(naps.take(i)) < duration.nanos
                    &&& stop_read(control, total_nanos(naps.take(i)), false)
                    &&& (#[trigger] naps[i]).nanos == if duration.nanos - total_nanos(naps.take(i))
                        <= millis_long(10).nanos {
                        duration.nanos - total_nanos(naps.take(i))
                    } else {
                        millis_long(10).nanos as int
                    }
                    &&& call_ensures(C::sleep, (clock, naps[i]), ())
                },
        decreases remaining.nanos,
    {
        if stop_at(control, Ghost(total_nanos(naps))) {
            assert(dozed(clock, control, duration, naps, false));
            return false;
        }
        let slice = remaining.shorter(Duration::from_millis(10));
        clock.sleep(slice);
        proof {
            let more = naps.push(slice);
            assert(more.drop_last() =~= naps);
            assert forall|i: int| 0 <= i < more.len() implies #[trigger] more.take(i) == naps.take(
                i,
            ) by {
                assert(more.take(i) =~= naps.take(i));
            }
            assert(naps.take(naps.len() as int) =~= naps);
            naps = more;
        }
        remaining = remaining.saturating_sub(slice);
    }
    let stopped = stop_at(control, Ghost(total_nanos(naps)));
    assert(dozed(clock, control, duration, naps, !stopped));
    !stopped
}

/// Waits until a condition holds. Without a time limit it waits for half a minute. The adapter is
/// given what is left of the time with every look. There are at most `u64::MAX` looks.
pub fn wait_for_condition<A: ExecutionAdapter, C: ExecutionClock>(
    adapter: &mut A,
    condition: &WaitCondition,
    config: &RunConfig,
    timeout: Option<DurationSpec>,
    control: &RunControl,
    clock: &C,
) -> (r: Result<(), AdapterError>)
    ensures
        waited(
            condition@,
            config@,
            timeout,
            control,
            clock,
            *old(adapter),
            *final(adapter),
            answer_view(r),
        ),
{
    let ghost first = *adapter;
    let ghost start = WaitMoment { adapter: first, looks: 0, place: WaitPlace::Start };
    if let WaitCondition::Duration { duration } = condition {
        let limit = match timeout {
            Some(limit) => Duration::from_millis(duration.millis).shorter(
                Duration::from_millis(limit.millis),
            ),
            None => Duration::from_millis(duration.millis),
        };
        let completed = sleep_at(clock, control, limit, Ghost(start));
        assert(slept(clock, control, start, sleep_time(*duration, timeout), completed));
        let done = judge_sleep(*duration, timeout, completed);
        let ghost came_to: Result<(), AdapterErrorView> = if !completed {
            Err(cancelled_error())
        } else if timeout is Some && duration.millis > timeout->0.millis {
            Err(timeout_error())
        } else {
            Ok(())
        };
        assert(answer_view(done) == came_to);
        assert(waited(
            condition@,
            config@,
            timeout,
            control,
            clock,
            first,
            first,
            answer_view(done),
        )) by {
            reveal(waited);
        }
        return done;
    }
    let started = time_at(clock, Ghost(start));
    let limit = match timeout {
        Some(limit) => Duration::from_millis(limit.millis),
        None => Duration::from_millis(30_000),
    };
    let ghost w = WaitPlan { condition: condition@, config: config@, limit };
    let ghost mut looks: Seq<Look<A>> = Seq::empty();
    let mut count: u64 = 0;
    assert(looks_made(w, control, clock, started, first, looks)) by {
        reveal(looks_made);
    }
    proof {
        after_last(first, looks, Seq::empty(), Seq::empty());
    }
    loop
        invariant
            !(condition@ is Duration),
            limit == patience(timeout),
            w == (WaitPlan { condition: condition@, config: config@, limit }),
            start == (WaitMoment { adapter: first, looks: 0, place: WaitPlace::Start }),
            first == *old(adapter),
            clock_read(clock, start, started),
            looks.len() == count,
            looks_made(w, control, clock, started, first, looks),
            *adapter == after_looks(first, looks),
        decreases u64::MAX - count,
    {
        if count == u64::MAX {
            proof {
                let story = WaitStory { started, looks, end: WaitEnd::Uncountable };
                assert(wait_went(w, control, clock, first, story)) by {
                    reveal(wait_went);
                }
                wait_told(condition@, config@, timeout, control, clock, first, story);
            }
            return Err(AdapterError::timeout());
        }
        let ghost before = *adapter;
        let ghost at = WaitMoment {
            adapter: before,
            looks: count as nat,
            place: WaitPlace::Before,
        };
        if stop_at(control, Ghost(at)) {
            proof {
                let story = WaitStory { started, looks, end: WaitEnd::Stopped };
                assert(wait_went(w, control, clock, first, story)) by {
                    reveal(wait_went);
                }
                wait_told(condition@, config@, timeout, control, clock, first, story);
            }
            return Err(AdapterError::cancelled());
        }
        let asked_at = time_at(clock, Ghost(at));
        let left = limit.saturating_sub(asked_at.saturating_sub(started));
        let (answer, states) = look(adapter, condition, config, control, Some(left));
        let ghost answered = answer_view(answer);
        assert(looked(before, *adapter, w.condition, w.config, control, Some(left), answered))
            by {
            reveal(looked);
        }
        let ghost after = WaitMoment {
            adapter: *adapter,
            looks: count as nat,
            place: WaitPlace::After,
        };
        let seen_at = time_at(clock, Ghost(after));
        let ghost l = Look { before, asked_at, answer: answered, after: *adapter, seen_at };
        let ghost more = looks.push(l);
        proof {
            assert(more.drop_last() =~= looks);
            after_last(first, more, Seq::empty(), Seq::empty());
            assert(look_made(w, control, clock, started, count as nat, l)) by {
                reveal(look_made);
            }
        }
        let state = match answer {
            Ok(state) => state,
            Err(e) => {
                proof {
                    let story = WaitStory { started, looks: more, end: WaitEnd::Answered };
                    assert(wait_went(w, control, clock, first, story)) by {
                        reveal(wait_went);
                    }
                    wait_told(condition@, config@, timeout, control, clock, first, story);
                }
                return Err(e);
            },
        };
        let elapsed = seen_at.saturating_sub(started);
        match judge_poll(state, elapsed, limit) {
            Poll::Done => {
                proof {
                    let story = WaitStory { started, looks: more, end: WaitEnd::Answered };
                    assert(wait_went(w, control, clock, first, story)) by {
                        reveal(wait_went);
                    }
                    wait_told(condition@, config@, timeout, control, clock, first, story);
                }
                return Ok(());
            },
            Poll::TimedOut => {
                proof {
                    let story = WaitStory { started, looks: more, end: WaitEnd::TimedOut };
                    assert(wait_went(w, control, clock, first, story)) by {
                        reveal(wait_went);
                    }
                    wait_told(condition@, config@, timeout, control, clock, first, story);
                }
                return Err(AdapterError::timeout());
            },
            Poll::SleepFor(slice) => {
                if !sleep_at(clock, control, slice, Ghost(after)) {
                    proof {
                        let story = WaitStory { started, looks: more, end: WaitEnd::Interrupted };
                        assert(look_slept(w, control, clock, started, count as nat, l, false)) by {
                            reveal(look_slept);
                        }
                        assert(wait_went(w, control, clock, first, story)) by {
                            reveal(wait_went);
                        }
                        wait_told(condition@, config@, timeout, control, clock, first, story);
                    }
                    return Err(AdapterError::cancelled());
                }
                proof {
                    assert(look_slept(w, control, clock, started, count as nat, l, true)) by {
                        reveal(look_slept);
                    }
                    looks_more(w, control, clock, started, first, looks, l);
                    looks = more;
                }
            },
        }
        count = count + 1;
    }
}

/// What an assertion comes to.
pub fn judge_assertion(result: Result<bool, AdapterError>) -> (r: Result<
    Vec<Artifact>,
    AdapterError,
>)
    ensures
        match result {
            Ok(true) => r matches Ok(artifacts) && views(artifacts@) == Seq::<ArtifactView>::empty(),
            Ok(false) => r matches Err(e) && e@ == plain_error(
                RunErrorKind::Assertion,
                "assertion failed"@,
            ),
            Err(error) => r == Err::<Vec<Artifact>, AdapterError>(error),
        },
{
    match result {
        Ok(true) => Ok(no_artifacts()),
        Ok(false) => Err(AdapterError::assertion("assertion failed".to_owned())),
        Err(e) => Err(e),
    }
}

/// Has the adapter do what an action asks for.
pub fn execute_action<A: ExecutionAdapter, C: ExecutionClock>(
    adapter: &mut A,
    action: &Action,
    config: &RunConfig,
    timeout: Option<DurationSpec>,
    control: &RunControl,
    clock: &C,
) -> (r: Result<Vec<Artifact>, AdapterError>)
    ensures
        attempted(
            action@,
            config@,
            timeout,
            control,
            clock,
            *old(adapter),
            *final(adapter),
            artifacts_result(r),
        ),
{
    let ghost before = *adapter;
    proof {
        reveal(attempted);
        reveal(examined);
        reveal(performed);
    }
    match action {
        Action::WaitFor { condition } => {
            let done = wait_for_condition(adapter, condition, config, timeout, control, clock);
            assert(waited(
                condition@,
                config@,
                timeout,
                control,
                clock,
                before,
                *adapter,
                answer_view(done),
            ));
            match done {
                Ok(_) => Ok(no_artifacts()),
                Err(e) => Err(e),
            }
        },
        Action::Assert { assertion } => {
            let (answer, states) = examine(adapter, assertion, config);
            assert(examined(before, *adapter, assertion@, config@, answer_view(answer)));
            judge_assertion(answer)
        },
        _ => {
            let limit = match timeout {
                Some(limit) => Some(Duration::from_millis(limit.millis)),
                None => None,
            };
            let (answer, states) = perform(adapter, action, config, control, limit);
            assert(performed(
                before,
                *adapter,
                action@,
                config@,
                control,
                time_limit(timeout),
                artifacts_result(answer),
            ));
            answer
        },
    }
}

pub fn no_artifacts() -> (r: Vec<Artifact>)
    ensures
        views(r@) == Seq::<ArtifactView>::empty(),
{
    let none: Vec<Artifact> = Vec::new();
    assert(views(none@) =~= Seq::empty());
    none
}

} // verus!
