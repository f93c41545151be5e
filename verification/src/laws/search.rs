//! What searching a window for an element comes to.
use vstd::prelude::*;
use crate::adapter::{AdapterError, AdapterErrorView};
use crate::definition::{AccessibilityTarget, AccessibilityTargetView, Target, TargetView};
use crate::elements::{Element, ElementFactsView};
use crate::run::FailureKind;
use crate::text::{ascii_lower, same_but_case};
use crate::windows::search::{
    accessibility_matches, element_at, element_fits, find_semantic_target, first_unreadable,
    fitting, semantic_search, walk, walk_children, SEMANTIC_SEARCH_MAX_DEPTH,
    SEMANTIC_SEARCH_MAX_NODES, Visit, VisitView,
};
use crate::windows::titles::normalized;

verus! {

/// The element at a place: the root, or a child of the element one level above.
pub open spec fn reached(root: Element, place: Seq<u32>) -> Option<Element>
    decreases place.len(),
{
    if place.len() == 0 {
        Some(root)
    } else if root.children is Ok && place[0] < root.children->Ok_0@.len() {
        match root.children->Ok_0@[place[0] as int] {
            Some(child) => reached(child, place.drop_first()),
            None => None,
        }
    } else {
        None
    }
}

/// Whether two characters are the same, or the two cases of an ASCII letter.
pub open spec fn same_letter(a: char, b: char) -> bool {
    ||| a == b
    ||| 'A' <= a <= 'Z' && b as u32 == a as u32 + 32
    ||| 'A' <= b <= 'Z' && a as u32 == b as u32 + 32
}

/// Texts are the same but for case where they have the same letters, one by one.
pub proof fn case_is_that_of_letters(a: Seq<char>, b: Seq<char>)
    ensures
        same_but_case(a, b) <==> a.len() == b.len() && forall|i: int|
            0 <= i < a.len() ==> same_letter(#[trigger] a[i], b[i]),
{
    if same_but_case(a, b) {
        assert forall|i: int| 0 <= i < a.len() implies same_letter(#[trigger] a[i], b[i]) by {
            assert(ascii_lower(a[i]) == ascii_lower(b[i]));
            letter_cases(a[i], b[i]);
        }
    }
    if a.len() == b.len() && forall|i: int|
        0 <= i < a.len() ==> same_letter(#[trigger] a[i], b[i]) {
        assert forall|i: int| 0 <= i < a.len() implies ascii_lower(#[trigger] a[i]) == ascii_lower(
            b[i],
        ) by {
            assert(same_letter(a[i], b[i]));
            letter_cases(a[i], b[i]);
        }
    }
}

proof fn letter_cases(a: char, b: char)
    ensures
        ascii_lower(a) == ascii_lower(b) <==> same_letter(a, b),
{
    lowered(a);
    lowered(b);
    assert(a as u32 == b as u32 ==> a == b);
    assert(ascii_lower(a) as u32 == ascii_lower(b) as u32 ==> ascii_lower(a) == ascii_lower(b));
}

proof fn lowered(c: char)
    ensures
        ascii_lower(c) as u32 == (if 'A' <= c <= 'Z' {
            (c as u32 + 32) as u32
        } else {
            c as u32
        }),
{
}

/// Whether two texts are the same up to the case of ASCII letters and up to spacing.
pub open spec fn alike(a: Seq<char>, b: Seq<char>) -> bool {
    let x = normalized(a);
    let y = normalized(b);
    x.len() == y.len() && forall|i: int| 0 <= i < x.len() ==> same_letter(#[trigger] x[i], y[i])
}

/// Whether an element with these facts, at this place, has every part that a selector gives.
pub open spec fn meets(
    facts: ElementFactsView,
    place: Seq<u32>,
    selector: AccessibilityTargetView,
) -> bool {
    &&& selector.id is Some ==> facts.automation_id == selector.id
    &&& selector.name is Some ==> facts.name is Some && alike(facts.name->0, selector.name->0)
    &&& selector.control_type is Some ==> facts.control_type is Some && alike(
        facts.control_type->0,
        selector.control_type->0,
    )
    &&& selector.path is Some ==> selector.path->0 == place
}

proof fn fits_where_it_meets(v: VisitView, a: AccessibilityTargetView)
    ensures
        element_fits(v, a) == meets(v.facts, v.path, a),
{
    if v.facts.name is Some && a.name is Some {
        case_is_that_of_letters(normalized(v.facts.name->0), normalized(a.name->0));
    }
    if v.facts.control_type is Some && a.control_type is Some {
        case_is_that_of_letters(
            normalized(v.facts.control_type->0),
            normalized(a.control_type->0),
        );
    }
}

/// Following a path leads to the element at that place.
pub proof fn paths_lead_to_places(root: Element, path: Seq<u32>)
    ensures
        element_at(root, path) == reached(root, path),
    decreases path.len(),
{
    if path.len() > 0 && root.children is Ok && path[0] < root.children->Ok_0@.len() {
        if let Some(child) = root.children->Ok_0@[path[0] as int] {
            paths_lead_to_places(child, path.drop_first());
        }
    }
}

/// Whether no element has more children than can be numbered.
pub open spec fn numbered(e: Element) -> bool
    decreases e, 0nat,
{
    e.children is Ok ==> e.children->Ok_0@.len() <= u32::MAX && all_numbered(
        e.children->Ok_0@,
        e.children->Ok_0@.len(),
    )
}

pub open spec fn all_numbered(children: Seq<Option<Element>>, n: nat) -> bool
    decreases children, n,
{
    if n == 0 || n > children.len() {
        true
    } else {
        all_numbered(children, (n - 1) as nat) && (children[n - 1] matches Some(child) ==> numbered(
            child,
        ))
    }
}

/// Whether a visit is of an element below another.
spec fn visit_below(e: Element, path: Seq<u32>, v: VisitView) -> bool {
    &&& v.path.len() >= path.len()
    &&& v.path.take(path.len() as int) == path
    &&& reached(e, v.path.skip(path.len() as int)) matches Some(x) && x.facts@ == v.facts
}

/// Whether a visit is of an element below one of the first children of another.
spec fn visit_inside(children: Seq<Option<Element>>, n: nat, path: Seq<u32>, v: VisitView) -> bool {
    &&& v.path.len() > path.len()
    &&& v.path.take(path.len() as int) == path
    &&& v.path[path.len() as int] < n <= children.len()
    &&& children[v.path[path.len() as int] as int] matches Some(child) && (reached(
        child,
        v.path.skip(path.len() as int + 1),
    ) matches Some(x) && x.facts@ == v.facts)
}

proof fn visits_are_places(e: Element, path: Seq<u32>, depth: nat, left: nat)
    requires
        numbered(e),
    ensures
        forall|i: int|
            0 <= i < walk(e, path, depth, left).visits.len() ==> visit_below(
                e,
                path,
                #[trigger] walk(e, path, depth, left).visits[i],
            ),
        forall|i: int, j: int|
            0 <= i < j < walk(e, path, depth, left).visits.len() ==> (#[trigger] walk(
                e,
                path,
                depth,
                left,
            ).visits[i]).path != (#[trigger] walk(e, path, depth, left).visits[j]).path,
    decreases e, 0nat,
{
    let w = walk(e, path, depth, left);
    let here = VisitView { path, facts: e.facts@ };
    assert(path.take(path.len() as int) =~= path);
    assert(path.skip(path.len() as int) =~= Seq::empty());
    if left > 0 && depth > 0 && e.children is Ok {
        let children = e.children->Ok_0@;
        assert(e.children->Ok_0@ == children);
        visits_are_inside(
            children,
            children.len(),
            path,
            (depth - 1) as nat,
            (left - 1) as nat,
        );
        let inside = walk_children(
            children,
            children.len(),
            path,
            (depth - 1) as nat,
            (left - 1) as nat,
        );
        assert(w.visits == seq![here] + inside.visits);
        assert forall|i: int| 0 <= i < w.visits.len() implies visit_below(
            e,
            path,
            #[trigger] w.visits[i],
        ) by {
            if i > 0 {
                let v = inside.visits[i - 1];
                assert(visit_inside(children, children.len(), path, v));
                let rest = v.path.skip(path.len() as int);
                assert(rest[0] == v.path[path.len() as int]);
                assert(rest.drop_first() =~= v.path.skip(path.len() as int + 1));
            }
        }
        assert forall|i: int, j: int| 0 <= i < j < w.visits.len() implies (
        #[trigger] w.visits[i]).path != (#[trigger] w.visits[j]).path by {
            assert(visit_inside(children, children.len(), path, inside.visits[j - 1]));
            if i > 0 {
                assert(w.visits[i] == inside.visits[i - 1]);
                assert(w.visits[j] == inside.visits[j - 1]);
            }
        }
    }
}

proof fn visits_are_inside(
    children: Seq<Option<Element>>,
    n: nat,
    path: Seq<u32>,
    depth: nat,
    left: nat,
)
    requires
        children.len() <= u32::MAX,
        n <= children.len(),
        all_numbered(children, n),
    ensures
        forall|i: int|
            0 <= i < walk_children(children, n, path, depth, left).visits.len() ==> visit_inside(
                children,
                n,
                path,
                #[trigger] walk_children(children, n, path, depth, left).visits[i],
            ),
        forall|i: int, j: int|
            0 <= i < j < walk_children(children, n, path, depth, left).visits.len() ==> (
            #[trigger] walk_children(children, n, path, depth, left).visits[i]).path != (
            #[trigger] walk_children(children, n, path, depth, left).visits[j]).path,
    decreases children, n,
{
    if n > 0 {
        let w = walk_children(children, n, path, depth, left);
        let before = walk_children(children, (n - 1) as nat, path, depth, left);
        visits_are_inside(children, (n - 1) as nat, path, depth, left);
        if before.left > 0 && children[n - 1] is Some {
            let child = children[n - 1]->0;
            let deeper = path.push((n - 1) as u32);
            visits_are_places(child, deeper, depth, before.left);
            let one = walk(child, deeper, depth, before.left);
            assert(w.visits == before.visits + one.visits);
            assert forall|i: int| 0 <= i < w.visits.len() implies visit_inside(
                children,
                n,
                path,
                #[trigger] w.visits[i],
            ) by {
                if i < before.visits.len() {
                    assert(visit_inside(children, (n - 1) as nat, path, before.visits[i]));
                } else {
                    let v = one.visits[i - before.visits.len()];
                    assert(visit_below(child, deeper, v));
                    assert(v.path.take(deeper.len() as int)[path.len() as int] == (n - 1) as u32);
                    assert(v.path.take(path.len() as int) =~= deeper.take(path.len() as int));
                    assert(deeper.take(path.len() as int) =~= path);
                }
            }
            assert forall|i: int, j: int| 0 <= i < j < w.visits.len() implies (
            #[trigger] w.visits[i]).path != (#[trigger] w.visits[j]).path by {
                let k = before.visits.len();
                if j < k {
                    assert(w.visits[i] == before.visits[i] && w.visits[j] == before.visits[j]);
                } else if i >= k {
                    assert(w.visits[i] == one.visits[i - k] && w.visits[j] == one.visits[j - k]);
                } else {
                    assert(visit_inside(children, (n - 1) as nat, path, before.visits[i]));
                    let v = one.visits[j - k];
                    assert(visit_below(child, deeper, v));
                    assert(v.path.take(deeper.len() as int)[path.len() as int] == (n - 1) as u32);
                }
            }
        }
    }
}

/// Whether a window shows all its elements, none as deep as `depth` levels.
pub open spec fn whole(e: Element, depth: nat) -> bool
    decreases e, 0nat,
{
    &&& depth > 0
    &&& e.children is Ok
    &&& e.children->Ok_0@.len() <= u32::MAX
    &&& all_whole(e.children->Ok_0@, e.children->Ok_0@.len(), (depth - 1) as nat)
}

pub open spec fn all_whole(children: Seq<Option<Element>>, n: nat, depth: nat) -> bool
    decreases children, n,
{
    if n == 0 || n > children.len() {
        true
    } else {
        &&& all_whole(children, (n - 1) as nat, depth)
        &&& children[n - 1] matches Some(child) && whole(child, depth)
    }
}

/// How many elements there are.
pub open spec fn population(e: Element) -> nat
    decreases e, 0nat,
{
    if e.children is Ok {
        1 + population_of(e.children->Ok_0@, e.children->Ok_0@.len())
    } else {
        1
    }
}

pub open spec fn population_of(children: Seq<Option<Element>>, n: nat) -> nat
    decreases children, n,
{
    if n == 0 || n > children.len() {
        0
    } else {
        population_of(children, (n - 1) as nat) + match children[n - 1] {
            Some(child) => population(child),
            None => 0,
        }
    }
}

proof fn whole_is_numbered(e: Element, depth: nat)
    requires
        whole(e, depth),
    ensures
        numbered(e),
    decreases e, 0nat,
{
    let children = e.children->Ok_0@;
    assert(e.children->Ok_0@ == children);
    all_whole_are_numbered(children, children.len(), (depth - 1) as nat);
}

proof fn all_whole_are_numbered(children: Seq<Option<Element>>, n: nat, depth: nat)
    requires
        n <= children.len(),
        all_whole(children, n, depth),
    ensures
        all_numbered(children, n),
    decreases children, n,
{
    if n > 0 {
        all_whole_are_numbered(children, (n - 1) as nat, depth);
        whole_is_numbered(children[n - 1]->0, depth);
    }
}

spec fn visited(w: Seq<VisitView>, place: Seq<u32>, facts: ElementFactsView) -> bool {
    exists|i: int| 0 <= i < w.len() && #[trigger] w[i] == (VisitView { path: place, facts })
}

proof fn every_place_is_visited(e: Element, path: Seq<u32>, depth: nat, left: nat)
    requires
        whole(e, depth),
        population(e) <= left,
    ensures
        !walk(e, path, depth, left).truncated,
        walk(e, path, depth, left).left == left - population(e),
        forall|q: Seq<u32>| #[trigger]
            reached(e, q) is Some ==> visited(
                walk(e, path, depth, left).visits,
                path + q,
                reached(e, q)->0.facts@,
            ),
    decreases e, 0nat,
{
    let children = e.children->Ok_0@;
    assert(e.children->Ok_0@ == children);
    let w = walk(e, path, depth, left);
    let inside = walk_children(
        children,
        children.len(),
        path,
        (depth - 1) as nat,
        (left - 1) as nat,
    );
    every_place_inside_is_visited(
        children,
        children.len(),
        path,
        (depth - 1) as nat,
        (left - 1) as nat,
    );
    let here = VisitView { path, facts: e.facts@ };
    assert(w.visits == seq![here] + inside.visits);
    assert forall|q: Seq<u32>| #[trigger] reached(e, q) is Some implies visited(
        w.visits,
        path + q,
        reached(e, q)->0.facts@,
    ) by {
        if q.len() == 0 {
            assert(path + q =~= path);
            assert(w.visits[0] == here);
        } else {
            let k = q[0];
            let rest = q.drop_first();
            let child = children[k as int]->0;
            assert(reached(child, rest) is Some);
            assert(path.push(k) + rest =~= path + q);
            let i = choose|i: int|
                0 <= i < inside.visits.len() && #[trigger] inside.visits[i] == (VisitView {
                    path: path.push(k) + rest,
                    facts: reached(child, rest)->0.facts@,
                });
            assert(visited(
                inside.visits,
                path.push(k) + rest,
                reached(child, rest)->0.facts@,
            ));
            assert(w.visits[i + 1] == inside.visits[i]);
        }
    }
}

proof fn every_place_inside_is_visited(
    children: Seq<Option<Element>>,
    n: nat,
    path: Seq<u32>,
    depth: nat,
    left: nat,
)
    requires
        children.len() <= u32::MAX,
        n <= children.len(),
        all_whole(children, n, depth),
        population_of(children, n) <= left,
    ensures
        !walk_children(children, n, path, depth, left).truncated,
        walk_children(children, n, path, depth, left).left == left - population_of(children, n),
        forall|k: u32, q: Seq<u32>|
            k < n && children[k as int] is Some && (#[trigger] reached(
                children[k as int]->0,
                q,
            )) is Some ==> visited(
                walk_children(children, n, path, depth, left).visits,
                path.push(k) + q,
                reached(children[k as int]->0, q)->0.facts@,
            ),
    decreases children, n,
{
    if n > 0 {
        let w = walk_children(children, n, path, depth, left);
        let before = walk_children(children, (n - 1) as nat, path, depth, left);
        let child = children[n - 1]->0;
        let deeper = path.push((n - 1) as u32);
        assert(population(child) >= 1);
        every_place_inside_is_visited(children, (n - 1) as nat, path, depth, left);
        every_place_is_visited(child, deeper, depth, before.left);
        let one = walk(child, deeper, depth, before.left);
        assert(w.visits == before.visits + one.visits);
        assert forall|k: u32, q: Seq<u32>|
            k < n && children[k as int] is Some && (#[trigger] reached(
                children[k as int]->0,
                q,
            )) is Some implies visited(
            w.visits,
            path.push(k) + q,
            reached(children[k as int]->0, q)->0.facts@,
        ) by {
            let facts = reached(children[k as int]->0, q)->0.facts@;
            if k < n - 1 {
                assert(visited(before.visits, path.push(k) + q, facts));
                let i = choose|i: int|
                    0 <= i < before.visits.len() && #[trigger] before.visits[i] == (VisitView {
                        path: path.push(k) + q,
                        facts,
                    });
                assert(w.visits[i] == before.visits[i]);
            } else {
                assert(visited(one.visits, deeper + q, facts));
                let i = choose|i: int|
                    0 <= i < one.visits.len() && #[trigger] one.visits[i] == (VisitView {
                        path: deeper + q,
                        facts,
                    });
                assert(w.visits[before.visits.len() + i] == one.visits[i]);
            }
        }
    }
}

/// What is picked out of some visits is what has every part that the selector gives.
proof fn picked_meet(visits: Seq<VisitView>, a: AccessibilityTargetView)
    ensures
        forall|i: int|
            0 <= i < fitting(visits, a).len() ==> visits.contains(
                #[trigger] fitting(visits, a)[i],
            ) && meets(fitting(visits, a)[i].facts, fitting(visits, a)[i].path, a),
        forall|i: int|
            0 <= i < visits.len() && meets((#[trigger] visits[i]).facts, visits[i].path, a)
                ==> fitting(visits, a).contains(visits[i]),
        fitting(visits, a).len() <= visits.len(),
    decreases visits.len(),
{
    if visits.len() > 0 {
        let front = visits.drop_last();
        picked_meet(front, a);
        fits_where_it_meets(visits.last(), a);
        let picked = fitting(visits, a);
        let earlier = fitting(front, a);
        assert forall|i: int| 0 <= i < picked.len() implies visits.contains(#[trigger] picked[i])
            && meets(picked[i].facts, picked[i].path, a) by {
            if i < earlier.len() {
                assert(picked[i] == earlier[i]);
                assert(front.contains(earlier[i]));
                let j = choose|j: int| 0 <= j < front.len() && front[j] == earlier[i];
                assert(visits[j] == picked[i]);
            } else {
                assert(picked[i] == visits[visits.len() - 1]);
            }
        }
        assert forall|i: int|
            0 <= i < visits.len() && meets((#[trigger] visits[i]).facts, visits[i].path, a) implies
            picked.contains(visits[i]) by {
            if i < front.len() {
                assert(front[i] == visits[i]);
                assert(earlier.contains(front[i]));
                let j = choose|j: int| 0 <= j < earlier.len() && earlier[j] == front[i];
                assert(picked[j] == visits[i]);
            } else {
                assert(picked[picked.len() - 1] == visits[i]);
            }
        }
    }
}

/// What is picked out of visits with different places has different places.
proof fn picked_differ(visits: Seq<VisitView>, a: AccessibilityTargetView)
    requires
        forall|i: int, j: int|
            0 <= i < j < visits.len() ==> (#[trigger] visits[i]).path != (
            #[trigger] visits[j]).path,
    ensures
        forall|i: int, j: int|
            0 <= i < j < fitting(visits, a).len() ==> (#[trigger] fitting(visits, a)[i]).path != (
            #[trigger] fitting(visits, a)[j]).path,
    decreases visits.len(),
{
    if visits.len() > 0 {
        let front = visits.drop_last();
        assert forall|i: int, j: int| 0 <= i < j < front.len() implies (#[trigger] front[i]).path
            != (#[trigger] front[j]).path by {
            assert(front[i] == visits[i] && front[j] == visits[j]);
        }
        picked_differ(front, a);
        picked_meet(front, a);
        let earlier = fitting(front, a);
        let picked = fitting(visits, a);
        assert forall|i: int, j: int| 0 <= i < j < picked.len() implies (#[trigger] picked[i]).path
            != (#[trigger] picked[j]).path by {
            if j < earlier.len() {
                assert(picked[i] == earlier[i] && picked[j] == earlier[j]);
            } else {
                assert(picked[i] == earlier[i]);
                assert(front.contains(earlier[i]));
                let k = choose|k: int| 0 <= k < front.len() && front[k] == earlier[i];
                assert(visits[k] == front[k]);
                assert(visits[visits.len() - 1] == picked[j]);
            }
        }
    }
}

/// An element that a search finds is in the window, at the place that the search gives, and has
/// every part that the selector gives: its id, and its name and control type up to case and
/// spacing, and its place.
pub proof fn found_elements_meet_the_selector(
    t: TargetView,
    selector: AccessibilityTargetView,
    root: Element,
    place: Seq<u32>,
)
    requires
        t.accessibility == Some(selector),
        numbered(root),
        semantic_search(t, root) == Ok::<Seq<u32>, AdapterErrorView>(place),
    ensures
        reached(root, place) matches Some(found) && meets(found.facts@, place, selector),
{
    if let Some(path) = selector.path {
        paths_lead_to_places(root, path);
        let e = element_at(root, path)->0;
        fits_where_it_meets(VisitView { path, facts: e.facts@ }, selector);
    } else {
        let top = Seq::<u32>::empty();
        let w = walk(
            root,
            top,
            SEMANTIC_SEARCH_MAX_DEPTH as nat,
            SEMANTIC_SEARCH_MAX_NODES as nat,
        );
        visits_are_places(
            root,
            top,
            SEMANTIC_SEARCH_MAX_DEPTH as nat,
            SEMANTIC_SEARCH_MAX_NODES as nat,
        );
        picked_meet(w.visits, selector);
        let one = fitting(w.visits, selector)[0];
        assert(w.visits.contains(one));
        let i = choose|i: int| 0 <= i < w.visits.len() && w.visits[i] == one;
        assert(visit_below(root, top, w.visits[i]));
        assert(one.path.skip(0) =~= one.path);
    }
}

/// Whether an element shows what it is described by.
pub open spec fn described(facts: ElementFactsView) -> bool {
    facts.automation_id is Some && facts.name is Some && facts.control_type is Some
}

proof fn all_described(visits: Seq<VisitView>)
    requires
        forall|i: int| 0 <= i < visits.len() ==> described((#[trigger] visits[i]).facts),
    ensures
        first_unreadable(visits) is None,
    decreases visits.len(),
{
    if visits.len() > 0 {
        let front = visits.drop_last();
        assert forall|i: int| 0 <= i < front.len() implies described((#[trigger] front[i]).facts) by {
            assert(front[i] == visits[i]);
        }
        all_described(front);
        assert(visits[visits.len() - 1] == visits.last());
    }
}

/// A window that a search can look through: it shows all its elements, they are not too deep or too
/// many, and each shows what it is described by.
pub open spec fn searchable(root: Element) -> bool {
    &&& whole(root, 16)
    &&& population(root) <= 2000
    &&& forall|q: Seq<u32>| (#[trigger] reached(root, q)) is Some ==> described(
        reached(root, q)->0.facts@,
    )
}

/// A search through the whole window finds the one element that has every part of the selector; it
/// says that there is none where none has, and that there are several where two have.
pub proof fn searches_find_the_one_that_meets(
    t: TargetView,
    selector: AccessibilityTargetView,
    root: Element,
)
    requires
        t.accessibility == Some(selector),
        selector.path is None,
        searchable(root),
    ensures
        forall|place: Seq<u32>|
            {
                &&& (#[trigger] reached(root, place)) matches Some(e) && meets(
                    e.facts@,
                    place,
                    selector,
                )
                &&& forall|other: Seq<u32>|
                    ((#[trigger] reached(root, other)) matches Some(e) && meets(
                        e.facts@,
                        other,
                        selector,
                    )) ==> other == place
            } ==> semantic_search(t, root) == Ok::<Seq<u32>, AdapterErrorView>(place),
        (forall|place: Seq<u32>|
            (#[trigger] reached(root, place)) matches Some(e) ==> !meets(
                e.facts@,
                place,
                selector,
            )) ==> (semantic_search(t, root) matches Err(e) && e.failure_kind == Some(
            FailureKind::NotFound,
        )),
        (exists|one: Seq<u32>, other: Seq<u32>|
            {
                &&& one != other
                &&& (#[trigger] reached(root, one)) matches Some(e)
                        && meets(e.facts@, one, selector)
                &&& (#[trigger] reached(root, other)) matches Some(e) && meets(
                    e.facts@,
                    other,
                    selector,
                )
            }) ==> (semantic_search(t, root) matches Err(e) && e.failure_kind == Some(
            FailureKind::Ambiguous,
        )),
{
    let top = Seq::<u32>::empty();
    let w = walk(root, top, 16, 2000);
    whole_is_numbered(root, 16);
    visits_are_places(root, top, 16, 2000);
    every_place_is_visited(root, top, 16, 2000);
    assert forall|i: int| 0 <= i < w.visits.len() implies described((#[trigger] w.visits[i]).facts)
        && reached(root, w.visits[i].path) is Some && reached(
        root,
        w.visits[i].path,
    )->0.facts@ == w.visits[i].facts by {
        assert(visit_below(root, top, w.visits[i]));
        assert(w.visits[i].path.skip(0) =~= w.visits[i].path);
    }
    all_described(w.visits);
    picked_meet(w.visits, selector);
    picked_differ(w.visits, selector);
    let picked = fitting(w.visits, selector);
    // Each picked visit is of an element that has every part, and each such element is picked.
    assert forall|i: int| 0 <= i < picked.len() implies (reached(
        root,
        (#[trigger] picked[i]).path,
    ) matches Some(e) && meets(e.facts@, picked[i].path, selector)) by {
        assert(w.visits.contains(picked[i]));
        let j = choose|j: int| 0 <= j < w.visits.len() && w.visits[j] == picked[i];
        assert(described(w.visits[j].facts));
    }
    assert forall|place: Seq<u32>|
        ((#[trigger] reached(root, place)) matches Some(e) && meets(e.facts@, place, selector))
            implies exists|i: int| 0 <= i < picked.len()
                && (#[trigger] picked[i]).path == place by {
        let facts = reached(root, place)->0.facts@;
        assert(top + place =~= place);
        assert(visited(w.visits, top + place, facts));
        let i = choose|i: int|
            0 <= i < w.visits.len() && #[trigger] w.visits[i] == (VisitView {
                path: top + place,
                facts,
            });
        assert(picked.contains(w.visits[i]));
        let j = choose|j: int| 0 <= j < picked.len() && picked[j] == w.visits[i];
        assert(picked[j].path == place);
    }
    assert forall|place: Seq<u32>|
        {
            &&& (#[trigger] reached(root, place)) matches Some(e) && meets(
                e.facts@,
                place,
                selector,
            )
            &&& forall|other: Seq<u32>|
                ((#[trigger] reached(root, other)) matches Some(e) && meets(
                    e.facts@,
                    other,
                    selector,
                )) ==> other == place
        } implies semantic_search(t, root) == Ok::<Seq<u32>, AdapterErrorView>(place) by {
        let i = choose|i: int| 0 <= i < picked.len() && (#[trigger] picked[i]).path == place;
        assert(picked[0].path == place);
        if picked.len() > 1 {
            assert(picked[1].path == place);
        }
    }
    if exists|one: Seq<u32>, other: Seq<u32>|
        {
            &&& one != other
            &&& (#[trigger] reached(root, one)) matches Some(e) && meets(e.facts@, one, selector)
            &&& (#[trigger] reached(root, other)) matches Some(e) && meets(
                e.facts@,
                other,
                selector,
            )
        } {
        let (one, other) = choose|one: Seq<u32>, other: Seq<u32>|
            {
                &&& one != other
                &&& (#[trigger] reached(root, one)) matches Some(e) && meets(
                    e.facts@,
                    one,
                    selector,
                )
                &&& (#[trigger] reached(root, other)) matches Some(e) && meets(
                    e.facts@,
                    other,
                    selector,
                )
            };
        let i = choose|i: int| 0 <= i < picked.len() && (#[trigger] picked[i]).path == one;
        let j = choose|j: int| 0 <= j < picked.len() && (#[trigger] picked[j]).path == other;
        assert(i != j);
    }
    if forall|place: Seq<u32>|
        (#[trigger] reached(root, place)) matches Some(e) ==> !meets(e.facts@, place, selector) {
        if picked.len() > 0 {
            assert(reached(root, picked[0].path) is Some);
        }
    }
}

/// A search by place looks at the element there and no other: it is found where it has every part
/// of the selector, and there is none where it has not.
pub proof fn searches_by_place_look_there(
    t: TargetView,
    selector: AccessibilityTargetView,
    root: Element,
    place: Seq<u32>,
)
    requires
        t.accessibility == Some(selector),
        selector.path == Some(place),
        described(root.facts@),
        reached(root, place) matches Some(e) && described(e.facts@),
    ensures
        meets(reached(root, place)->0.facts@, place, selector) ==> semantic_search(t, root) == Ok::<
            Seq<u32>,
            AdapterErrorView,
        >(place),
        !meets(reached(root, place)->0.facts@, place, selector) ==> (semantic_search(
            t,
            root,
        ) matches Err(e) && e.failure_kind == Some(FailureKind::NotFound)),
{
    paths_lead_to_places(root, place);
    let e = element_at(root, place)->0;
    fits_where_it_meets(VisitView { path: place, facts: e.facts@ }, selector);
}

/// The element that is given for a target is the one that the search finds: it stands where the
/// path says and has every part that the selector gives; and in a window that a search can look
/// through the one element that has every part is given.
pub proof fn given_elements_meet_the_selector(
    target: &Target,
    root: &Element,
    r: Result<Vec<u32>, AdapterError>,
    place: Seq<u32>,
)
    requires
        call_ensures(find_semantic_target, (target, root), r),
        numbered(*root),
        target.accessibility is Some,
    ensures
        ({
            let selector = target.accessibility->0@;
            &&& r is Ok ==> (reached(*root, r->Ok_0@) matches Some(found) && meets(
                found.facts@,
                r->Ok_0@,
                selector,
            ))
            &&& searchable(*root) && selector.path is None && (reached(
                *root,
                place,
            ) matches Some(e) && meets(e.facts@, place, selector)) && (forall|other: Seq<u32>|
                ((#[trigger] reached(*root, other)) matches Some(e) && meets(
                    e.facts@,
                    other,
                    selector,
                )) ==> other == place) ==> r is Ok && r->Ok_0@ == place
        }),
{
    let selector = target.accessibility->0@;
    if r is Ok {
        found_elements_meet_the_selector(target@, selector, *root, r->Ok_0@);
    }
    if searchable(*root) && selector.path is None {
        searches_find_the_one_that_meets(target@, selector, *root);
    }
}

/// Whether an element is the one that a selector asks for is decided by each part that the selector
/// gives.
pub proof fn every_part_decides(visit: &Visit, selector: &AccessibilityTarget, r: bool)
    requires
        call_ensures(accessibility_matches, (visit, selector), r),
    ensures
        r <==> meets(visit.facts@, visit.path@, selector@),
{
    fits_where_it_meets(visit@, selector@);
}

proof fn nothing_left_out(e: Element, path: Seq<u32>, depth: nat, left: nat)
    requires
        numbered(e),
        !walk(e, path, depth, left).truncated,
    ensures
        whole(e, depth),
        population(e) <= left,
        walk(e, path, depth, left).left == left - population(e),
    decreases e, 0nat,
{
    let children = e.children->Ok_0@;
    assert(e.children->Ok_0@ == children);
    nothing_inside_left_out(
        children,
        children.len(),
        path,
        (depth - 1) as nat,
        (left - 1) as nat,
    );
}

proof fn nothing_inside_left_out(
    children: Seq<Option<Element>>,
    n: nat,
    path: Seq<u32>,
    depth: nat,
    left: nat,
)
    requires
        n <= children.len(),
        all_numbered(children, n),
        !walk_children(children, n, path, depth, left).truncated,
    ensures
        all_whole(children, n, depth),
        population_of(children, n) <= left,
        walk_children(children, n, path, depth, left).left == left - population_of(children, n),
    decreases children, n,
{
    if n > 0 {
        let m = (n - 1) as nat;
        nothing_inside_left_out(children, m, path, depth, left);
        let before = walk_children(children, m, path, depth, left);
        nothing_left_out(children[n - 1]->0, path.push(m as u32), depth, before.left);
    }
}

/// A search that finds an element has looked at all there are: every element of the window was
/// shown, none deeper than it looks and no more than it may look at; and no other element has every
/// part that the selector gives. A search that had to leave something out finds nothing.
pub proof fn found_elements_are_the_only_ones(
    t: TargetView,
    selector: AccessibilityTargetView,
    root: Element,
    place: Seq<u32>,
    other: Seq<u32>,
)
    requires
        t.accessibility == Some(selector),
        selector.path is None,
        numbered(root),
        semantic_search(t, root) == Ok::<Seq<u32>, AdapterErrorView>(place),
    ensures
        whole(root, 16),
        population(root) <= 2000,
        (reached(root, other) matches Some(e) && meets(e.facts@, other, selector)) ==> other
            == place,
{
    let top = Seq::<u32>::empty();
    let w = walk(root, top, 16, 2000);
    nothing_left_out(root, top, 16, 2000);
    if reached(root, other) is Some && meets(reached(root, other)->0.facts@, other, selector) {
        let facts = reached(root, other)->0.facts@;
        every_place_is_visited(root, top, 16, 2000);
        picked_meet(w.visits, selector);
        assert(top + other =~= other);
        assert(visited(w.visits, top + other, facts));
        let i = choose|i: int|
            0 <= i < w.visits.len() && #[trigger] w.visits[i] == (VisitView {
                path: top + other,
                facts,
            });
        let picked = fitting(w.visits, selector);
        assert(picked.contains(w.visits[i]));
        let j = choose|j: int| 0 <= j < picked.len() && picked[j] == w.visits[i];
        assert(j == 0);
    }
}

} // verus!
