//! Cancelling, pausing and resuming a run from another thread.
use vstd::prelude::*;
use std::sync::Arc;

verus! {

/// `std::sync::Condvar`, which a thread can sleep on until another one wakes it.
#[verifier::external_type_specification]
#[verifier::external_body]
pub struct ExCondvar(std::sync::Condvar);

/// `std::sync::Mutex`.
#[verifier::external_type_specification]
#[verifier::external_body]
#[verifier::reject_recursive_types(T)]
pub struct ExMutex<T: ?Sized>(std::sync::Mutex<T>);

/// `std::sync::MutexGuard`, which keeps a mutex locked.
#[verifier::external_type_specification]
#[verifier::external_body]
#[verifier::reject_recursive_types(T)]
pub struct ExMutexGuard<'a, T: ?Sized + 'a>(std::sync::MutexGuard<'a, T>);

/// What was asked of a run.
#[derive(Debug, Clone, Copy, PartialEq, Eq, Structural)]
pub struct Switches {
    pub cancelled: bool,
    pub paused: bool,
}

impl Switches {
    /// Nothing was asked.
    pub fn off() -> (r: Self)
        ensures
            r == (Switches { cancelled: false, paused: false }),
    {
        Switches { cancelled: false, paused: false }
    }

    pub fn cancel(self) -> (r: Self)
        ensures
            r == (Switches { cancelled: true, ..self }),
    {
        Switches { cancelled: true, ..self }
    }

    pub fn pause(self) -> (r: Self)
        ensures
            r == (Switches { paused: true, ..self }),
    {
        Switches { paused: true, ..self }
    }

    pub fn resume(self) -> (r: Self)
        ensures
            r == (Switches { paused: false, ..self }),
    {
        Switches { paused: false, ..self }
    }

    /// Whether the run is to hold. One that is cancelled holds no longer.
    pub fn holds(self) -> (r: bool)
        ensures
            r == (self.paused && !self.cancelled),
    {
        self.paused && !self.cancelled
    }
}

#[derive(Debug)]
struct Shared {
    switches: std::sync::Mutex<Switches>,
    changed: std::sync::Condvar,
}

/// A handle on a run. Its clones are handles on the same run.
///
/// Any thread may use a handle at any time, so nothing is claimed of what another use of it shows:
/// what each use makes of the switches that it finds is what the functions of [`Switches`] say.
#[derive(Debug)]
pub struct RunControl {
    shared: Arc<Shared>,
}

/// `std::sync::Mutex::new`.
///
/// Trusted: nothing is claimed of the result.
#[verifier::external_body]
fn new_mutex(switches: Switches) -> (r: std::sync::Mutex<Switches>) {
    std::sync::Mutex::new(switches)
}

/// `std::sync::Condvar::new`.
///
/// Trusted: nothing is claimed of the result.
#[verifier::external_body]
fn new_signal() -> (r: std::sync::Condvar) {
    std::sync::Condvar::new()
}

/// `std::sync::Condvar::notify_all`.
///
/// Trusted: it returns; nothing is claimed of other threads.
#[verifier::external_body]
fn wake_all(signal: &std::sync::Condvar) {
    signal.notify_all();
}

/// `std::sync::Mutex::lock`. A mutex that another thread left locked in a panic is locked all the
/// same.
///
/// Trusted: nothing is claimed of the result.
#[verifier::external_body]
fn lock(mutex: &std::sync::Mutex<Switches>) -> (r: std::sync::MutexGuard<'_, Switches>) {
    match mutex.lock() {
        Ok(guard) => guard,
        Err(poisoned) => poisoned.into_inner(),
    }
}

/// `std::sync::Condvar::wait`.
///
/// Trusted: nothing is claimed of the result.
#[verifier::external_body]
fn sleep_on<'a>(signal: &std::sync::Condvar, guard: std::sync::MutexGuard<'a, Switches>) -> (r:
    std::sync::MutexGuard<'a, Switches>) {
    match signal.wait(guard) {
        Ok(guard) => guard,
        Err(poisoned) => poisoned.into_inner(),
    }
}

/// `std::sync::MutexGuard::deref`: what the mutex holds.
///
/// Trusted: nothing is claimed of the result, which is what some thread put there last.
#[verifier::external_body]
fn held(guard: &std::sync::MutexGuard<'_, Switches>) -> (r: Switches) {
    **guard
}

/// `std::sync::MutexGuard::deref_mut`: puts something into the mutex, and lets go of it.
///
/// Trusted: it returns; nothing is claimed of what other threads see.
#[verifier::external_body]
fn put(guard: std::sync::MutexGuard<'_, Switches>, switches: Switches) {
    let mut guard = guard;
    *guard = switches;
}

impl Default for RunControl {
    /// A handle on a run of which nothing was asked.
    fn default() -> (r: Self)
        ensures
            r.made_with(Switches { cancelled: false, paused: false }),
    {
        let switches = new_mutex(Switches::off());
        RunControl { shared: Arc::new(Shared { switches, changed: new_signal() }) }
    }
}

impl Clone for RunControl {
    /// Another handle on the same run.
    fn clone(&self) -> (r: Self)
        ensures
            r == *self,
    {
        RunControl { shared: self.shared.clone() }
    }
}

impl RunControl {
    /// The handle was made with these switches.
    pub closed spec fn made_with(self, s: Switches) -> bool {
        call_ensures(new_mutex, (s,), self.shared.switches)
    }

    /// The handle was locked, and showed these switches.
    pub closed spec fn showed(self, s: Switches) -> bool {
        exists|guard: std::sync::MutexGuard<'_, Switches>| #[trigger]
            call_ensures(lock, (&self.shared.switches,), guard) && call_ensures(held, (&guard,), s)
    }

    /// The handle was locked, showed some switches, and others were put in their place.
    pub closed spec fn turned(self, from: Switches, to: Switches) -> bool {
        exists|guard: std::sync::MutexGuard<'_, Switches>| #[trigger]
            call_ensures(lock, (&self.shared.switches,), guard) && call_ensures(
                held,
                (&guard,),
                from,
            ) && call_ensures(put, (guard, to), ())
    }

    /// The threads that sleep on the handle were woken.
    pub closed spec fn woke(self) -> bool {
        call_ensures(wake_all, (&self.shared.changed,), ())
    }

    /// The handle was locked, and the thread slept `times` times, each time because the switches
    /// said that the run is to hold.
    spec fn held_off(self, times: nat, guard: std::sync::MutexGuard<'_, Switches>) -> bool
        decreases times,
    {
        if times == 0 {
            call_ensures(lock, (&self.shared.switches,), guard)
        } else {
            exists|before: std::sync::MutexGuard<'_, Switches>, s: Switches|
                self.held_off((times - 1) as nat, before) && #[trigger] call_ensures(
                    held,
                    (&before,),
                    s,
                ) && s.paused && !s.cancelled && #[trigger] call_ensures(
                    sleep_on,
                    (&self.shared.changed, before),
                    guard,
                )
        }
    }

    /// The handle showed these switches after the thread had slept `times` times, each time
    /// because the switches said that the run is to hold.
    pub closed spec fn showed_after(self, times: nat, s: Switches) -> bool {
        exists|guard: std::sync::MutexGuard<'_, Switches>| #[trigger]
            self.held_off(times, guard) && call_ensures(held, (&guard,), s)
    }

    /// Asks the run to stop. It cannot be taken back.
    pub fn cancel(&self)
        ensures
            exists|s: Switches| #[trigger]
                self.turned(s, Switches { cancelled: true, ..s }),
            self.woke(),
    {
        let guard = lock(&self.shared.switches);
        let found = held(&guard);
        put(guard, found.cancel());
        wake_all(&self.shared.changed);
        assert(self.turned(found, Switches { cancelled: true, ..found }));
    }

    /// Asks the run to hold before its next attempt.
    pub fn pause(&self)
        ensures
            exists|s: Switches| #[trigger] self.turned(s, Switches { paused: true, ..s }),
    {
        let guard = lock(&self.shared.switches);
        let found = held(&guard);
        put(guard, found.pause());
        assert(self.turned(found, Switches { paused: true, ..found }));
    }

    /// Lets a held run go on.
    pub fn resume(&self)
        ensures
            exists|s: Switches| #[trigger]
                self.turned(s, Switches { paused: false, ..s }),
            self.woke(),
    {
        let guard = lock(&self.shared.switches);
        let found = held(&guard);
        put(guard, found.resume());
        wake_all(&self.shared.changed);
        assert(self.turned(found, Switches { paused: false, ..found }));
    }

    pub fn is_cancelled(&self) -> (r: bool)
        ensures
            exists|s: Switches| #[trigger] self.showed(s) && r == s.cancelled,
    {
        let guard = lock(&self.shared.switches);
        let found = held(&guard);
        assert(self.showed(found));
        found.cancelled
    }

    pub fn is_paused(&self) -> (r: bool)
        ensures
            exists|s: Switches| #[trigger] self.showed(s) && r == s.paused,
    {
        let guard = lock(&self.shared.switches);
        let found = held(&guard);
        assert(self.showed(found));
        found.paused
    }

    /// Sleeps until the run is resumed or cancelled; true where it may go on. The thread is woken
    /// at most `u64::MAX` times.
    pub fn wait_for_resume(&self) -> (r: bool)
        ensures
            exists|times: nat, s: Switches| #[trigger]
                self.showed_after(times, s) && r == !s.cancelled && (s.paused && !s.cancelled
                    ==> times == u64::MAX),
    {
        let mut guard = lock(&self.shared.switches);
        let mut found = held(&guard);
        let mut times: u64 = 0;
        while times < u64::MAX && found.holds()
            invariant
                self.held_off(times as nat, guard),
                call_ensures(held, (&guard,), found),
            decreases u64::MAX - times,
        {
            guard = sleep_on(&self.shared.changed, guard);
            found = held(&guard);
            times = times + 1;
        }
        assert(self.showed_after(times as nat, found));
        !found.cancelled
    }
}

/// One of the things that can be asked of a run.
#[derive(Debug, Clone, Copy, PartialEq, Eq, Structural)]
pub enum Request {
    Cancel,
    Pause,
    Resume,
}

/// The switches after some requests.
pub open spec fn after(s: Switches, requests: Seq<Request>) -> Switches
    decreases requests.len(),
{
    if requests.len() == 0 {
        s
    } else {
        let before = after(s, requests.drop_last());
        match requests.last() {
            Request::Cancel => Switches { cancelled: true, ..before },
            Request::Pause => Switches { paused: true, ..before },
            Request::Resume => Switches { paused: false, ..before },
        }
    }
}

/// A run that was cancelled stays cancelled whatever else is asked, and never holds again.
pub proof fn cancelling_is_final(s: Switches, requests: Seq<Request>)
    requires
        s.cancelled,
    ensures
        after(s, requests).cancelled,
        !(after(s, requests).paused && !after(s, requests).cancelled),
    decreases requests.len(),
{
    if requests.len() > 0 {
        cancelling_is_final(s, requests.drop_last());
    }
}

/// Resuming a run undoes every pause and nothing else, however often it was paused.
pub proof fn resuming_undoes_pausing(s: Switches, requests: Seq<Request>)
    ensures
        ({
            let before = after(s, requests);
            let resumed = after(s, requests.push(Request::Resume));
            !resumed.paused && resumed.cancelled == before.cancelled
        }),
{
    assert(requests.push(Request::Resume).drop_last() =~= requests);
}

/// Cancelling a run leaves it as paused as it was.
pub proof fn cancelling_keeps_pauses(s: Switches, requests: Seq<Request>)
    ensures
        ({
            let before = after(s, requests);
            let cancelled = after(s, requests.push(Request::Cancel));
            cancelled.cancelled && cancelled.paused == before.paused
        }),
{
    assert(requests.push(Request::Cancel).drop_last() =~= requests);
}

/// Whether a handle was used for these requests, one after the other, each use finding the switches
/// that the one before it had put there.
pub open spec fn used_in_turn(control: RunControl, s: Switches, requests: Seq<Request>) -> bool
    decreases requests.len(),
{
    requests.len() == 0 || (used_in_turn(control, s, requests.drop_last()) && control.turned(
        after(s, requests.drop_last()),
        after(s, requests),
    ))
}

/// A handle and its clones control the same run: where nobody else uses them, a request that was
/// made with one is found by the other, and once it was to cancel, every later use finds the run
/// cancelled.
pub proof fn clones_share_requests(
    control: RunControl,
    clone: RunControl,
    s: Switches,
    requests: Seq<Request>,
    later: Seq<Request>,
)
    requires
        clone == control,
        used_in_turn(control, s, requests),
        used_in_turn(clone, after(s, requests), later),
    ensures
        used_in_turn(control, s, requests + later),
        after(s, requests + later) == after(after(s, requests), later),
        requests.contains(Request::Cancel) ==> after(s, requests + later).cancelled,
    decreases later.len(),
{
    if later.len() == 0 {
        assert(requests + later =~= requests);
        if requests.contains(Request::Cancel) {
            cancelled_by(s, requests);
        }
    } else {
        clones_share_requests(control, clone, s, requests, later.drop_last());
        assert((requests + later).drop_last() =~= requests + later.drop_last());
        assert((requests + later).last() == later.last());
    }
}

proof fn cancelled_by(s: Switches, requests: Seq<Request>)
    requires
        requests.contains(Request::Cancel),
    ensures
        after(s, requests).cancelled,
    decreases requests.len(),
{
    if requests.last() != Request::Cancel {
        let i = choose|i: int| 0 <= i < requests.len() && requests[i] == Request::Cancel;
        assert(requests.drop_last()[i] == Request::Cancel);
        cancelled_by(s, requests.drop_last());
    }
}

/// What `is_cancelled`, `is_paused` and `wait_for_resume` return on a handle or a clone of it that
/// nobody else uses, so that each finds what the requests before had left: once a request was to
/// cancel, the run is cancelled and a run that waits is released and may not go on; after a request
/// to resume it is not paused, however often it was paused before, and no more or less cancelled
/// than it was; and after a request to pause it is paused.
pub proof fn looks_return_what_was_asked(
    control: RunControl,
    clone: RunControl,
    s: Switches,
    requests: Seq<Request>,
    found: Switches,
    times: nat,
    is_cancelled: bool,
    is_paused: bool,
    may_go_on: bool,
)
    requires
        clone == control,
        used_in_turn(control, s, requests),
        found == after(s, requests),
        clone.showed(found) && is_cancelled == found.cancelled,
        clone.showed(found) && is_paused == found.paused,
        clone.showed_after(times, found) && may_go_on == !found.cancelled,
    ensures
        requests.contains(Request::Cancel) || s.cancelled ==> is_cancelled && !may_go_on,
        !requests.contains(Request::Cancel) && !s.cancelled ==> !is_cancelled && may_go_on,
        requests.len() > 0 && requests.last() == Request::Resume ==> !is_paused,
        requests.len() > 0 && requests.last() == Request::Pause ==> is_paused,
        requests.len() > 0 && requests.last() == Request::Resume ==> is_cancelled == after(
            s,
            requests.drop_last(),
        ).cancelled,
        requests.len() > 0 && requests.last() == Request::Cancel ==> is_paused == after(
            s,
            requests.drop_last(),
        ).paused,
{
    if requests.contains(Request::Cancel) {
        cancelled_by(s, requests);
    } else if s.cancelled {
        cancelling_is_final(s, requests);
    } else {
        not_cancelled_by(s, requests);
    }
}

proof fn not_cancelled_by(s: Switches, requests: Seq<Request>)
    requires
        !s.cancelled,
        !requests.contains(Request::Cancel),
    ensures
        !after(s, requests).cancelled,
    decreases requests.len(),
{
    if requests.len() > 0 {
        let front = requests.drop_last();
        assert(requests.contains(requests.last()));
        assert forall|i: int| 0 <= i < front.len() implies front[i] != Request::Cancel by {
            assert(requests.contains(requests[i]));
        }
        not_cancelled_by(s, front);
    }
}

} // verus!
