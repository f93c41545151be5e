//! What elements and windows are found to be, and how long they are waited for.
use vstd::prelude::*;
use crate::{macos, windows};
use crate::accessibility::{
    bounds_roughly_equal, click_point_for_bounds, AccessibilityBounds, AccessibilityPoint,
};
use crate::adapter::AdapterError;
use crate::bitmap::VisualMatch;
use crate::definition::Platform;
use crate::elements::ElementFacts;
use crate::laws::search::case_is_that_of_letters;
use crate::laws::windows::same_letters;
use crate::looking::{image_click_point, judge_focus, judge_foreground, window_is_focused};
use crate::run::FailureKind;
use crate::text::{contains_text, lowercase_of};
use crate::time::Duration;
use crate::waiting::{
    command_overdue, judge_command, judge_launch, launch_goes_on, CommandStep, LaunchStep,
};

verus! {

/// Something can be done to an element on Windows where it is known to be enabled, known to be on
/// the screen, and known to cover at least one pixel.
pub proof fn windows_acts_on_what_is_ready(facts: &ElementFacts, r: Result<(), AdapterError>)
    requires
        call_ensures(windows::search::ensure_semantic_target_actionable, (facts,), r),
    ensures
        r is Ok <==> facts.enabled == Some(true) && facts.offscreen == Some(false) && facts.bounds
            is Some && facts.bounds->0.left < facts.bounds->0.right && facts.bounds->0.top
            < facts.bounds->0.bottom,
        facts.enabled == Some(false) ==> r is Err && r->Err_0@.failure_kind == Some(
            FailureKind::Disabled,
        ),
        facts.enabled == Some(true) && facts.offscreen == Some(true) ==> r is Err
            && r->Err_0@.failure_kind == Some(FailureKind::Offscreen),
{
    assert(facts.enabled == Some(true) || facts.enabled == Some(false) || facts.enabled is None);
    assert(facts.offscreen == Some(true) || facts.offscreen == Some(false) || facts.offscreen
        is None);
}

/// What is asked of an element on Windows is answered by what the element says; where it says
/// nothing there is no answer.
pub proof fn windows_answers_what_elements_say(
    facts: &ElementFacts,
    text: &str,
    focused: Result<bool, AdapterError>,
    enabled: Result<bool, AdapterError>,
    visible: Result<bool, AdapterError>,
    named: Result<bool, AdapterError>,
    valued: bool,
    actionable: Result<bool, AdapterError>,
)
    requires
        call_ensures(windows::search::semantic_target_focused, (facts,), focused),
        call_ensures(windows::search::semantic_target_enabled, (facts,), enabled),
        call_ensures(windows::search::semantic_target_visible, (facts,), visible),
        call_ensures(windows::search::semantic_target_name_contains, (facts, text), named),
        call_ensures(windows::search::semantic_target_value_contains, (facts, text), valued),
        call_ensures(windows::search::semantic_target_actionable, (facts,), actionable),
    ensures
        facts.has_keyboard_focus is Some <==> focused is Ok,
        focused is Ok ==> focused->Ok_0 == facts.has_keyboard_focus->0,
        facts.enabled is Some <==> enabled is Ok,
        enabled is Ok ==> enabled->Ok_0 == facts.enabled->0,
        facts.offscreen is Some <==> visible is Ok,
        visible is Ok ==> visible->Ok_0 != facts.offscreen->0,
        facts.name is Some <==> named is Ok,
        named is Ok ==> named->Ok_0 == contains_text(facts.name->0@, text@),
        valued <==> facts.value is Some && contains_text(facts.value->0@, text@) && facts.password
            != Some(true),
        facts.offscreen == Some(true) ==> actionable is Ok && !actionable->Ok_0,
        facts.offscreen == Some(false) && facts.control_type is Some && same_letters(
            windows::titles::normalized(facts.control_type->0@),
            "window"@,
        ) ==> actionable is Ok && actionable->Ok_0,
        facts.offscreen == Some(false) && facts.control_type is Some && !same_letters(
            windows::titles::normalized(facts.control_type->0@),
            "window"@,
        ) && facts.bounds is Some && facts.enabled is Some ==> actionable is Ok
            && actionable->Ok_0 == (facts.enabled == Some(true) && facts.bounds->0.left
            < facts.bounds->0.right && facts.bounds->0.top < facts.bounds->0.bottom),
{
    if facts.control_type is Some {
        case_is_that_of_letters(
            windows::titles::normalized(facts.control_type->0@),
            "window"@,
        );
    }
}

/// Something can be done to an element on macOS unless it says that it is disabled, and where it is
/// known to cover at least one pixel. What is asked of an element is answered by what it says.
pub proof fn macos_answers_what_elements_say(
    facts: &ElementFacts,
    text: &str,
    ready: Result<(), AdapterError>,
    focused: bool,
    enabled: bool,
    visible: bool,
    actionable: bool,
    named: bool,
    valued: bool,
)
    requires
        call_ensures(macos::search::ensure_semantic_target_actionable, (facts,), ready),
        call_ensures(macos::search::semantic_target_focused, (facts,), focused),
        call_ensures(macos::search::semantic_target_enabled, (facts,), enabled),
        call_ensures(macos::search::semantic_target_visible, (facts,), visible),
        call_ensures(macos::search::semantic_target_actionable, (facts,), actionable),
        call_ensures(macos::search::semantic_target_name_contains, (facts, text), named),
        call_ensures(macos::search::semantic_target_value_contains, (facts, text), valued),
    ensures
        ready is Ok <==> actionable,
        actionable <==> enabled && visible,
        enabled <==> facts.enabled != Some(false),
        visible <==> facts.bounds is Some && facts.bounds->0.left < facts.bounds->0.right
            && facts.bounds->0.top < facts.bounds->0.bottom,
        focused <==> facts.has_keyboard_focus == Some(true),
        facts.name is Some ==> (named <==> contains_text(
            lowercase_of(facts.name->0@),
            lowercase_of(text@),
        )),
        facts.value is Some ==> (valued <==> contains_text(
            lowercase_of(facts.value->0@),
            lowercase_of(text@),
        )),
        !enabled ==> ready is Err && ready->Err_0@.failure_kind == Some(FailureKind::Disabled),
        enabled && !visible ==> ready is Err && ready->Err_0@.failure_kind == Some(
            FailureKind::Offscreen,
        ),
{
}

/// An element or a window that is not there is in no state; what is there is in the state that was
/// found; and on Windows an element that cannot be read just now is in none.
pub proof fn what_is_not_there_is_in_no_state(
    found: Result<bool, AdapterError>,
    place: Result<usize, AdapterError>,
    in_front: bool,
    on_windows: Result<bool, AdapterError>,
    on_macos: Result<bool, AdapterError>,
    focused: Result<bool, AdapterError>,
)
    requires
        call_ensures(windows::search::semantic_target_readiness, (found,), on_windows),
        call_ensures(macos::search::semantic_target_readiness, (found,), on_macos),
        call_ensures(window_is_focused, (place, in_front), focused),
    ensures
        found is Ok ==> on_windows == found && on_macos == found,
        found is Err && found->Err_0@.failure_kind == Some(FailureKind::NotFound) ==> on_windows
            is Ok && !on_windows->Ok_0 && on_macos is Ok && !on_macos->Ok_0,
        found is Err && found->Err_0@.failure_kind == Some(FailureKind::Transient) ==> on_windows
            is Ok && !on_windows->Ok_0 && on_macos == found,
        found is Err && found->Err_0@.failure_kind == Some(FailureKind::Ambiguous) && found->Err_0@
            .diagnostics is Some ==> on_windows == found && on_macos == found,
        place is Ok ==> focused is Ok && focused->Ok_0 == in_front,
        place is Err && place->Err_0@.failure_kind == Some(FailureKind::NotFound) ==> focused is Ok
            && !focused->Ok_0,
        place is Err && place->Err_0@.failure_kind == Some(FailureKind::Ambiguous) ==> focused
            is Err,
{
}

/// The window of a launched program is looked for until the time is up, which is five seconds where
/// none is given, or until the run is cancelled; and after an error only where there was no window
/// yet, or more than one.
pub proof fn launches_are_waited_for(
    elapsed: Duration,
    timeout: Option<Duration>,
    cancelled: bool,
    step: LaunchStep,
    error: &AdapterError,
    again: bool,
)
    requires
        call_ensures(judge_launch, (elapsed, timeout, cancelled), step),
        call_ensures(launch_goes_on, (error,), again),
    ensures
        timeout is Some ==> (step is GiveUp <==> elapsed.nanos >= timeout->0.nanos),
        timeout is None ==> (step is GiveUp <==> elapsed.nanos >= 5_000_000_000),
        step is Cancelled <==> cancelled && !(step is GiveUp),
        step is Look ==> !cancelled,
        again <==> error@.failure_kind == Some(FailureKind::NotFound) || error@.failure_kind
            == Some(FailureKind::Ambiguous),
{
}

/// A command is stopped where the run is cancelled, and otherwise once its time is up.
pub proof fn commands_are_stopped_in_time(
    elapsed: Duration,
    timeout: Option<Duration>,
    cancelled: bool,
    step: CommandStep,
    overdue: bool,
)
    requires
        call_ensures(judge_command, (elapsed, timeout, cancelled), step),
        call_ensures(command_overdue, (elapsed, timeout), overdue),
    ensures
        overdue <==> timeout is Some && elapsed.nanos >= timeout->0.nanos,
        step == CommandStep::StopCancelled <==> cancelled,
        step == CommandStep::StopTimedOut <==> !cancelled && overdue,
{
}

/// A window that was asked to come to the front is given three quarters of a second; one that is in
/// front by then has come, and one that is not has not. An element has the focus or it was denied.
pub proof fn focus_is_given_in_time(
    platform: Platform,
    elapsed: Duration,
    in_front: bool,
    label: &str,
    r: Option<Result<(), AdapterError>>,
    has_focus: bool,
    given: Result<(), AdapterError>,
)
    requires
        call_ensures(judge_foreground, (platform, elapsed, in_front, label), r),
        call_ensures(judge_focus, (platform, has_focus), given),
    ensures
        elapsed.nanos >= 750_000_000 ==> r is Some && r->0 is Err && r->0->Err_0@.failure_kind
            == Some(FailureKind::FocusDenied),
        elapsed.nanos < 750_000_000 && in_front ==> r is Some && r->0 is Ok,
        elapsed.nanos < 750_000_000 && !in_front ==> r is None,
        given is Ok <==> has_focus,
        given is Err ==> given->Err_0@.failure_kind == Some(FailureKind::FocusDenied),
{
}

/// What is clicked is the middle of what is there: as far from one edge as from the other, up to a
/// pixel, and inside.
pub proof fn clicks_go_to_the_middle(
    bounds: AccessibilityBounds,
    r: Option<AccessibilityPoint>,
    other: Option<AccessibilityBounds>,
    close: bool,
)
    requires
        call_ensures(click_point_for_bounds, (bounds,), r),
        call_ensures(bounds_roughly_equal, (bounds, other), close),
    ensures
        r is Some <==> bounds.left < bounds.right && bounds.top < bounds.bottom,
        r is Some ==> ({
            let p = r->0;
            &&& bounds.left <= p.x < bounds.right && bounds.top <= p.y < bounds.bottom
            &&& 0 <= (bounds.right - p.x) - (p.x - bounds.left) <= 1
            &&& 0 <= (bounds.bottom - p.y) - (p.y - bounds.top) <= 1
        }),
        other is None ==> close,
        other is Some ==> (close <==> ({
            let o = other->0;
            &&& -2 <= bounds.left - o.left <= 2 && -2 <= bounds.right - o.right <= 2
            &&& -2 <= bounds.top - o.top <= 2 && -2 <= bounds.bottom - o.bottom <= 2
        })),
{
}

/// A picture that was found is clicked in its middle, where the window is.
pub proof fn pictures_are_clicked_in_the_middle(
    window: AccessibilityBounds,
    found: Option<VisualMatch>,
    r: Result<Option<(i32, i32)>, AdapterError>,
)
    requires
        found is Some ==> found->0.width >= 0 && found->0.height >= 0,
        call_ensures(image_click_point, (window, found), r),
    ensures
        found is None ==> r is Err && r->Err_0@.failure_kind == Some(FailureKind::NotFound),
        found is Some ==> r is Ok,
        r is Ok && r->Ok_0 is Some ==> ({
            let m = found->0;
            let (x, y) = r->Ok_0->0;
            &&& found is Some
            &&& 0 <= (window.left + m.left + m.width - x) - (x - window.left - m.left) <= 1
            &&& 0 <= (window.top + m.top + m.height - y) - (y - window.top - m.top) <= 1
        }),
        found is Some && -1_000_000_000 <= window.left + found->0.left <= 1_000_000_000
            && -1_000_000_000 <= window.top + found->0.top <= 1_000_000_000 && found->0.width
            <= 1_000_000_000 && found->0.height <= 1_000_000_000 ==> r->Ok_0 is Some,
{
}

} // verus!
