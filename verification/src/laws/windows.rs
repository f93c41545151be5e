//! Which windows are found, and how elements are told.
use vstd::prelude::*;
use crate::accessibility::{AccessibilityNode, AccessibilitySelectorCandidate, SelectorConfidence};
use crate::adapter::AdapterError;
use crate::definition::{AccessibilityTarget, AccessibilityTargetView, Platform, Target};
use crate::laws::search::{alike, case_is_that_of_letters, same_letter};
use crate::run::FailureKind;
use crate::selectors::{
    changes, node_matches_accessibility, repair_candidate_matches, selector_candidates,
    selector_candidates_for_node,
};
use crate::text::{contains_text, lowercase_of};
use crate::views::views;
use crate::windows::titles::{find_window, matching, normalized, title_matches, SeenWindow};

verus! {

/// Whether a title is the one that a target asks for: one with the same words, but for their case;
/// or one in which the words stand that the target asks for.
pub open spec fn titled(target: &Target, title: Seq<char>) -> bool {
    ||| target.window_title is Some && target.title_contains is None && alike(
        title,
        target.window_title->0@,
    )
    ||| target.window_title is None && target.title_contains is Some && contains_text(
        lowercase_of(normalized(title)),
        lowercase_of(normalized(target.title_contains->0@)),
    )
}

proof fn titles_are_compared(target: &Target, title: Seq<char>)
    ensures
        title_matches(target@, title) == titled(target, title),
{
    if target.window_title is Some {
        case_is_that_of_letters(normalized(title), normalized(target.window_title->0@));
    }
}

proof fn matching_windows(target: &Target, windows: Seq<SeenWindow>, n: nat)
    requires
        n <= windows.len(),
    ensures
        ({
            let found = matching(target@, windows, n);
            &&& forall|i: int|
                0 <= i < found.len() ==> 0 <= #[trigger] found[i] < n && titled(
                    target,
                    windows[found[i]].title@,
                )
            &&& forall|i: int, j: int| 0 <= i < j < found.len() ==> found[i] < found[j]
            &&& forall|k: int|
                0 <= k < n && titled(target, (#[trigger] windows[k]).title@) ==> found.contains(k)
        }),
    decreases n,
{
    if n > 0 {
        let m = (n - 1) as nat;
        matching_windows(target, windows, m);
        titles_are_compared(target, windows[n - 1].title@);
        let front = matching(target@, windows, m);
        let found = matching(target@, windows, n);
        assert forall|k: int|
            0 <= k < n && titled(
                target,
                (#[trigger] windows[k]).title@,
            ) implies found.contains(k) by {
            if k < m {
                assert(front.contains(k));
                let i = choose|i: int| 0 <= i < front.len() && front[i] == k;
                assert(found[i] == k);
            } else {
                assert(found[found.len() - 1] == k);
            }
        }
    }
}

/// A window is found where it is the only one with the title that the target asks for. Where there
/// is none it was not found, and where there are more it cannot be told which is meant. A target
/// that asks for no title, or in two ways, is refused.
pub proof fn the_only_window_is_found(
    target: &Target,
    windows: &Vec<SeenWindow>,
    r: Result<usize, AdapterError>,
    k: int,
    l: int,
)
    requires
        call_ensures(find_window, (target, windows), r),
        0 <= k < windows@.len(),
        0 <= l < windows@.len(),
    ensures
        (target.window_title is Some) == (target.title_contains is Some) ==> r is Err,
        r is Ok ==> r->Ok_0 < windows@.len() && titled(target, windows@[r->Ok_0 as int].title@),
        r is Ok && titled(target, windows@[k].title@) ==> r->Ok_0 == k,
        (target.window_title is Some) != (target.title_contains is Some) ==> {
            &&& titled(target, windows@[k].title@) && (forall|j: int|
                0 <= j < windows@.len() && j != k ==> !titled(
                    target,
                    (#[trigger] windows@[j]).title@,
                )) ==> r is Ok && r->Ok_0 == k
            &&& k != l && titled(target, windows@[k].title@) && titled(target, windows@[l].title@)
                ==> r is Err && r->Err_0@.failure_kind == Some(FailureKind::Ambiguous)
            &&& (forall|j: int|
                0 <= j < windows@.len() ==> !titled(target, (#[trigger] windows@[j]).title@))
                ==> r is Err && r->Err_0@.failure_kind == Some(FailureKind::NotFound)
        },
{
    let n = windows@.len();
    let found = matching(target@, windows@, n);
    matching_windows(target, windows@, n);
    if r is Ok {
        assert(found[0] == r->Ok_0);
        if titled(target, windows@[k].title@) {
            assert(found.contains(k));
        }
    }
    if (target.window_title is Some) != (target.title_contains is Some) {
        if titled(target, windows@[k].title@) && (forall|j: int|
            0 <= j < windows@.len() && j != k ==> !titled(
                target,
                (#[trigger] windows@[j]).title@,
            )) {
            assert(found.contains(k));
            let i = choose|i: int| 0 <= i < found.len() && found[i] == k;
            if found.len() > 1 {
                let other = if i == 0 {
                    1int
                } else {
                    0
                };
                assert(titled(target, windows@[found[other]].title@));
                assert(found[other] == k);
                assert(found[0] < found[1] || found.len() > 2);
                if i > 1 {
                    assert(found[0] < found[i]);
                }
            }
        }
        if k != l && titled(target, windows@[k].title@) && titled(target, windows@[l].title@) {
            assert(found.contains(k) && found.contains(l));
            let a = choose|a: int| 0 <= a < found.len() && found[a] == k;
            let b = choose|b: int| 0 <= b < found.len() && found[b] == l;
            assert(a != b);
            assert(found.len() >= 2);
        }
        if forall|j: int|
            0 <= j < windows@.len() ==> !titled(target, (#[trigger] windows@[j]).title@) {
            if found.len() > 0 {
                assert(titled(target, windows@[found[0]].title@));
            }
        }
    }
}

/// The part of a selector that names an element is what is known of the element, or left out.
pub open spec fn says_only(
    a: AccessibilityTargetView,
    path: Seq<u32>,
    automation_id: Seq<char>,
    name: Seq<char>,
    control_type: Seq<char>,
) -> bool {
    &&& a.id is Some ==> a.id->0 == automation_id && automation_id.len() > 0
    &&& a.name is Some ==> a.name->0 == name && name.len() > 0
    &&& a.control_type is Some ==> a.control_type->0 == control_type
    &&& a.path is Some ==> a.path->0 == path
    &&& a.id is Some || a.name is Some || a.path is Some
}

/// The selectors for an element on Windows say of it what is known of it. One with an id is among
/// them exactly where the id is known, one with a name where that and the type are, one with the
/// path where there is one; and the more stable come first.
pub proof fn windows_selectors_say_what_is_known(
    title: &str,
    path: &Vec<u32>,
    automation_id: &str,
    name: &str,
    control_type: &str,
    r: Vec<AccessibilitySelectorCandidate>,
    i: int,
)
    requires
        call_ensures(selector_candidates, (title, path, automation_id, name, control_type), r),
    ensures
        0 <= i < r@.len() ==> ({
            let c = r@[i]@;
            let a = c.target.accessibility->0;
            &&& c.target.accessibility is Some
            &&& c.target.window_title == Some(title@)
            &&& says_only(a, path@, automation_id@, name@, control_type@)
            &&& (a.id is Some ==> c.score >= 90 && c.confidence == SelectorConfidence::High)
            &&& (a.id is None && a.name is Some ==> c.score == 70 && c.confidence
                == SelectorConfidence::Medium)
            &&& (a.id is None && a.name is None ==> c.score == 45 && c.confidence
                == SelectorConfidence::Low && a.path is Some)
            &&& i > 0 ==> r@[i - 1]@.score > c.score
        }),
        r@.len() == (if automation_id@.len() > 0 && control_type@.len() > 0 {
            1int
        } else {
            0
        }) + (if automation_id@.len() > 0 {
            1int
        } else {
            0
        }) + (if name@.len() > 0 && control_type@.len() > 0 {
            1int
        } else {
            0
        }) + (if path@.len() > 0 {
            1int
        } else {
            0
        }),
{
    let all = views(r@);
    assert(all.len() == r@.len());
    if 0 <= i < r@.len() {
        assert(all[i] == r@[i]@);
        if i > 0 {
            assert(all[i - 1] == r@[i - 1]@);
        }
    }
}

/// The selectors for an element on macOS say of it what is known of it, each with its path.
pub proof fn macos_selectors_say_what_is_known(
    path: &Vec<u32>,
    automation_id: &str,
    name: &str,
    control_type: &str,
    r: Vec<AccessibilitySelectorCandidate>,
    i: int,
)
    requires
        call_ensures(selector_candidates_for_node, (path, automation_id, name, control_type), r),
    ensures
        0 <= i < r@.len() ==> ({
            let c = r@[i]@;
            let a = c.target.accessibility->0;
            &&& c.target.accessibility is Some
            &&& says_only(a, path@, automation_id@, name@, control_type@)
            &&& a.path == Some(path@)
            &&& (a.id is Some ==> c.score == 95 && c.confidence == SelectorConfidence::High)
            &&& (a.id is None && a.name is Some ==> c.score == 75 && c.confidence
                == SelectorConfidence::Medium)
            &&& (a.id is None && a.name is None ==> c.score == 35 && c.confidence
                == SelectorConfidence::LastResort)
            &&& i > 0 ==> r@[i - 1]@.score > c.score
        }),
        r@.len() == (if automation_id@.len() > 0 {
            1int
        } else {
            0
        }) + (if name@.len() > 0 && control_type@.len() > 0 {
            1int
        } else {
            0
        }) + (if path@.len() > 0 {
            1int
        } else {
            0
        }),
{
    let all = views(r@);
    assert(all.len() == r@.len());
    if 0 <= i < r@.len() {
        assert(all[i] == r@[i]@);
        if i > 0 {
            assert(all[i - 1] == r@[i - 1]@);
        }
    }
}

/// Whether two texts are the same but for the case of their letters.
pub open spec fn same_letters(a: Seq<char>, b: Seq<char>) -> bool {
    a.len() == b.len() && forall|i: int| 0 <= i < a.len() ==> same_letter(#[trigger] a[i], b[i])
}

/// An element fits a selector on macOS where it has each part that the selector gives: the same id,
/// the same name, and the type as its type or its class.
pub proof fn fitting_nodes_have_every_part(
    node: &AccessibilityNode,
    desired: &AccessibilityTarget,
    r: bool,
)
    requires
        call_ensures(node_matches_accessibility, (node, desired), r),
    ensures
        r <==> {
            &&& desired.id is Some ==> node.automation_id@ == desired.id->0@
            &&& desired.name is Some ==> node.name@ == desired.name->0@
            &&& desired.control_type is Some ==> same_letters(
                node.control_type@,
                desired.control_type->0@,
            ) || same_letters(node.class_name@, desired.control_type->0@)
        },
{
    if desired.control_type is Some {
        case_is_that_of_letters(node.control_type@, desired.control_type->0@);
        case_is_that_of_letters(node.class_name@, desired.control_type->0@);
    }
}

/// A selector may take the place of another on Windows where both have an id, a name or a type in
/// common, or where the other gives none of these and the first gives a path.
pub proof fn fitting_candidates_have_something_in_common(
    candidate: &AccessibilitySelectorCandidate,
    desired: &Option<AccessibilityTarget>,
    r: bool,
)
    requires
        call_ensures(repair_candidate_matches, (candidate, desired), r),
    ensures
        desired is None ==> r,
        desired is Some && candidate.target.accessibility is None ==> !r,
        desired is Some && candidate.target.accessibility is Some ==> ({
            let d = desired->0@;
            let a = candidate.target.accessibility->0@;
            r <==> {
                ||| d.id is Some && a.id is Some && d.id->0 == a.id->0
                ||| d.name is Some && a.name is Some && d.name->0 == a.name->0
                ||| d.control_type is Some && a.control_type is Some && d.control_type->0
                    == a.control_type->0
                ||| d.id is None && d.name is None && d.control_type is None && a.path is Some
            }
        }),
{
}

/// There is one line for each part of a selector that changes, and none for a part that stays.
pub proof fn changes_are_told_part_by_part(
    platform: Platform,
    before: AccessibilityTargetView,
    after: AccessibilityTargetView,
)
    ensures
        changes(platform, Some(before), Some(after)).len() == (if before.id == after.id {
            0int
        } else {
            1
        }) + (if before.name == after.name {
            0int
        } else {
            1
        }) + (if before.control_type == after.control_type {
            0int
        } else {
            1
        }) + (if before.path == after.path {
            0int
        } else {
            1
        }),
        changes(platform, None, Some(after)).len() == (if after.id is None {
            0int
        } else {
            1
        }) + (if after.name is None {
            0int
        } else {
            1
        }) + (if after.control_type is None {
            0int
        } else {
            1
        }) + (if after.path is None {
            0int
        } else {
            1
        }),
{
}

} // verus!
