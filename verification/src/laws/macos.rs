//! What searching a macOS window for an element or a screen for a window comes to.
use vstd::prelude::*;
use crate::adapter::AdapterError;
use crate::definition::{AccessibilityTargetView, Target};
use crate::elements::{facts_from_ax, AxFacts, Element, ElementFacts, ElementFactsView};
use crate::laws::search::{
    all_numbered, case_is_that_of_letters, numbered, paths_lead_to_places, population,
    population_of, reached,
};
use crate::laws::texts::{
    joining_puts_separators_between, joining_undoes_splitting, splitting_undoes_joining,
};
use crate::laws::windows::same_letters;
use crate::macos::desktop::{
    find_window, first_offered, invoke_action, invoke_actions, matching, process_basename,
    scroll_action, scroll_actions, window_fits, MacWindow,
};
use crate::macos::search::{element_fits, find_semantic_target, found_in, found_in_children};
use crate::run::FailureKind;
use crate::text::{contains_text, joined, lowercase_of, pieces, pieces_exist, texts, trimmed};

verus! {

/// Whether an element has every part that a selector gives: its identifier; its name, where no name
/// is an empty one; and its kind, as its role, as its finer role, or as both with a colon between.
pub open spec fn has_every_part(f: ElementFactsView, d: AccessibilityTargetView) -> bool {
    &&& d.id is Some ==> f.automation_id is Some && f.automation_id->0 == d.id->0
    &&& d.name is Some ==> match f.name {
        Some(own) => own == d.name->0,
        None => d.name->0.len() == 0,
    }
    &&& d.control_type is Some ==> same_letters(f.class_name, d.control_type->0) || same_letters(
        f.subrole,
        d.control_type->0,
    ) || same_letters(f.class_name + seq![':'] + f.subrole, d.control_type->0)
}

proof fn fitting_has_every_part(f: ElementFactsView, d: AccessibilityTargetView)
    ensures
        element_fits(f, d) == has_every_part(f, d),
{
    reveal_strlit(":");
    assert(":"@ =~= seq![':']);
    if d.control_type is Some {
        let kind = d.control_type->0;
        case_is_that_of_letters(f.class_name, kind);
        case_is_that_of_letters(f.subrole, kind);
        case_is_that_of_letters(f.class_name + seq![':'] + f.subrole, kind);
    }
    if d.name is Some && f.name is None && d.name->0.len() == 0 {
        assert(d.name->0 =~= Seq::empty());
    }
}

/// Whether a path leads from one place to an element with every part of a selector.
spec fn leads(e: Element, d: AccessibilityTargetView, path: Seq<u32>, p: Seq<u32>) -> bool {
    &&& p.len() >= path.len()
    &&& p.take(path.len() as int) == path
    &&& reached(e, p.skip(path.len() as int)) matches Some(x) && element_fits(x.facts@, d)
}

spec fn leads_inside(
    children: Seq<Option<Element>>,
    n: nat,
    d: AccessibilityTargetView,
    path: Seq<u32>,
    p: Seq<u32>,
) -> bool {
    &&& p.len() > path.len()
    &&& p.take(path.len() as int) == path
    &&& p[path.len() as int] < n <= children.len()
    &&& children[p[path.len() as int] as int] matches Some(child) && (reached(
        child,
        p.skip(path.len() as int + 1),
    ) matches Some(x) && element_fits(x.facts@, d))
}

proof fn found_lead_to_elements(
    e: Element,
    d: AccessibilityTargetView,
    path: Seq<u32>,
    depth: nat,
    left: nat,
)
    requires
        numbered(e),
        found_in(e, d, path, depth, left) is Some,
    ensures
        ({
            let found = found_in(e, d, path, depth, left)->0.paths;
            &&& forall|i: int|
                0 <= i < found.len() ==> leads(e, d, path, #[trigger] found[i])
            &&& forall|i: int, j: int|
                0 <= i < j < found.len() ==> #[trigger] found[i] != #[trigger] found[j]
        }),
    decreases e, 0nat,
{
    let found = found_in(e, d, path, depth, left)->0.paths;
    assert(path.take(path.len() as int) =~= path);
    assert(path.skip(path.len() as int) =~= Seq::empty());
    if depth > 0 && e.children is Ok {
        let children = e.children->Ok_0@;
        assert(e.children->Ok_0@ == children);
        let m = (depth - 1) as nat;
        let k = (left - 1) as nat;
        found_lead_inside(children, children.len(), d, path, m, k);
        let inside = found_in_children(children, children.len(), d, path, m, k)->0.paths;
        let own = if element_fits(e.facts@, d) {
            seq![path]
        } else {
            Seq::empty()
        };
        assert(found == own + inside);
        assert forall|i: int| 0 <= i < found.len() implies leads(
            e,
            d,
            path,
            #[trigger] found[i],
        ) by {
            if i >= own.len() {
                let p = inside[i - own.len()];
                assert(leads_inside(children, children.len(), d, path, p));
                let rest = p.skip(path.len() as int);
                assert(rest[0] == p[path.len() as int]);
                assert(rest.drop_first() =~= p.skip(path.len() as int + 1));
            }
        }
        assert forall|i: int, j: int| 0 <= i < j < found.len() implies #[trigger] found[i]
            != #[trigger] found[j] by {
            assert(leads_inside(children, children.len(), d, path, inside[j - own.len()]));
            if i >= own.len() {
                assert(inside[i - own.len()] != inside[j - own.len()]);
            }
        }
    }
}

proof fn found_lead_inside(
    children: Seq<Option<Element>>,
    n: nat,
    d: AccessibilityTargetView,
    path: Seq<u32>,
    depth: nat,
    left: nat,
)
    requires
        children.len() <= u32::MAX,
        n <= children.len(),
        all_numbered(children, n),
        found_in_children(children, n, d, path, depth, left) is Some,
    ensures
        ({
            let found = found_in_children(children, n, d, path, depth, left)->0.paths;
            &&& forall|i: int|
                0 <= i < found.len() ==> leads_inside(children, n, d, path, #[trigger] found[i])
            &&& forall|i: int, j: int|
                0 <= i < j < found.len() ==> #[trigger] found[i] != #[trigger] found[j]
        }),
    decreases children, n,
{
    if n > 0 {
        let m = (n - 1) as nat;
        found_lead_inside(children, m, d, path, depth, left);
        let before = found_in_children(children, m, d, path, depth, left)->0;
        let found = found_in_children(children, n, d, path, depth, left)->0.paths;
        assert forall|i: int| 0 <= i < before.paths.len() implies leads_inside(
            children,
            n,
            d,
            path,
            #[trigger] before.paths[i],
        ) by {
            assert(leads_inside(children, m, d, path, before.paths[i]));
        }
        if let Some(child) = children[n - 1] {
            let deeper = path.push(m as u32);
            found_lead_to_elements(child, d, deeper, depth, before.left);
            let one = found_in(child, d, deeper, depth, before.left)->0.paths;
            assert(found == before.paths + one);
            let k = before.paths.len();
            assert forall|i: int| 0 <= i < found.len() implies leads_inside(
                children,
                n,
                d,
                path,
                #[trigger] found[i],
            ) by {
                if i < k {
                    assert(leads_inside(children, n, d, path, before.paths[i]));
                } else {
                    let p = one[i - k];
                    assert(leads(child, d, deeper, p));
                    assert(p.take(deeper.len() as int)[path.len() as int] == m as u32);
                    assert(p.take(path.len() as int) =~= deeper.take(path.len() as int));
                    assert(deeper.take(path.len() as int) =~= path);
                }
            }
            assert forall|i: int, j: int| 0 <= i < j < found.len() implies #[trigger] found[i]
                != #[trigger] found[j] by {
                if j < k {
                    assert(before.paths[i] != before.paths[j]);
                } else if i >= k {
                    assert(one[i - k] != one[j - k]);
                } else {
                    assert(leads_inside(children, m, d, path, before.paths[i]));
                    let p = one[j - k];
                    assert(leads(child, d, deeper, p));
                    assert(p.take(deeper.len() as int)[path.len() as int] == m as u32);
                }
            }
        }
    }
}

proof fn fitting_are_found(
    e: Element,
    d: AccessibilityTargetView,
    path: Seq<u32>,
    depth: nat,
    left: nat,
    q: Seq<u32>,
)
    requires
        numbered(e),
        found_in(e, d, path, depth, left) is Some,
        q.len() <= depth,
        reached(e, q) is Some,
        element_fits(reached(e, q)->0.facts@, d),
    ensures
        found_in(e, d, path, depth, left)->0.paths.contains(path + q),
    decreases e, 0nat,
{
    let found = found_in(e, d, path, depth, left)->0.paths;
    if q.len() == 0 {
        assert(path + q =~= path);
        assert(found[0] == path);
    } else {
        let children = e.children->Ok_0@;
        assert(e.children->Ok_0@ == children);
        let m = (depth - 1) as nat;
        let k = (left - 1) as nat;
        fitting_inside_are_found(children, children.len(), d, path, m, k, q);
        let inside = found_in_children(children, children.len(), d, path, m, k)->0.paths;
        let i = choose|i: int| 0 <= i < inside.len() && inside[i] == path + q;
        let own = if element_fits(e.facts@, d) {
            seq![path]
        } else {
            Seq::empty()
        };
        assert(found == own + inside);
        assert(found[own.len() + i] == path + q);
    }
}

proof fn fitting_inside_are_found(
    children: Seq<Option<Element>>,
    n: nat,
    d: AccessibilityTargetView,
    path: Seq<u32>,
    depth: nat,
    left: nat,
    q: Seq<u32>,
)
    requires
        children.len() <= u32::MAX,
        n <= children.len(),
        all_numbered(children, n),
        found_in_children(children, n, d, path, depth, left) is Some,
        0 < q.len() <= depth + 1,
        q[0] < n,
        children[q[0] as int] is Some,
        reached(children[q[0] as int]->0, q.drop_first()) is Some,
        element_fits(reached(children[q[0] as int]->0, q.drop_first())->0.facts@, d),
    ensures
        found_in_children(children, n, d, path, depth, left)->0.paths.contains(path + q),
    decreases children, n,
{
    let m = (n - 1) as nat;
    let before = found_in_children(children, m, d, path, depth, left)->0;
    let found = found_in_children(children, n, d, path, depth, left)->0.paths;
    if q[0] < m {
        fitting_inside_are_found(children, m, d, path, depth, left, q);
        let i = choose|i: int| 0 <= i < before.paths.len() && before.paths[i] == path + q;
        assert(found[i] == path + q);
    } else {
        let child = children[n - 1]->0;
        assert(children[n - 1] is Some);
        let deeper = path.push(m as u32);
        let rest = q.drop_first();
        fitting_are_found(child, d, deeper, depth, before.left, rest);
        let one = found_in(child, d, deeper, depth, before.left)->0.paths;
        assert(deeper + rest =~= path + q);
        let i = choose|i: int| 0 <= i < one.len() && one[i] == path + q;
        assert(found == before.paths + one);
        assert(found[before.paths.len() + i] == path + q);
    }
}

proof fn few_are_searched(
    e: Element,
    d: AccessibilityTargetView,
    path: Seq<u32>,
    depth: nat,
    left: nat,
)
    requires
        population(e) <= left,
    ensures
        found_in(e, d, path, depth, left) is Some,
        found_in(e, d, path, depth, left)->0.left >= left - population(e),
    decreases e, 0nat,
{
    if depth > 0 && e.children is Ok {
        let children = e.children->Ok_0@;
        assert(e.children->Ok_0@ == children);
        few_inside_are_searched(
            children,
            children.len(),
            d,
            path,
            (depth - 1) as nat,
            (left - 1) as nat,
        );
    }
}

proof fn few_inside_are_searched(
    children: Seq<Option<Element>>,
    n: nat,
    d: AccessibilityTargetView,
    path: Seq<u32>,
    depth: nat,
    left: nat,
)
    requires
        n <= children.len(),
        population_of(children, n) <= left,
    ensures
        found_in_children(children, n, d, path, depth, left) is Some,
        found_in_children(children, n, d, path, depth, left)->0.left >= left - population_of(
            children,
            n,
        ),
    decreases children, n,
{
    if n > 0 {
        let m = (n - 1) as nat;
        few_inside_are_searched(children, m, d, path, depth, left);
        let before = found_in_children(children, m, d, path, depth, left)->0;
        if let Some(child) = children[n - 1] {
            few_are_searched(child, d, path.push(m as u32), depth, before.left);
        }
    }
}

/// An element that is found in a macOS window stands where the path says and has every part that
/// the selector gives; no other element down to 16 levels has; and the one element that has is
/// found, in a window of no more than 2000 elements.
pub proof fn the_only_element_is_found(
    target: &Target,
    root: &Element,
    r: Result<Vec<u32>, AdapterError>,
    p: Seq<u32>,
    q: Seq<u32>,
)
    requires
        call_ensures(find_semantic_target, (target, root), r),
        numbered(*root),
        target.accessibility is Some,
        target.accessibility->0.path is None,
    ensures
        ({
            let d = target.accessibility->0@;
            let wanted = |place: Seq<u32>|
                place.len() <= 16 && reached(*root, place) is Some && has_every_part(
                    reached(*root, place)->0.facts@,
                    d,
                );
            let few = population(*root) <= 2000;
            &&& r is Ok ==> reached(*root, r->Ok_0@) is Some && has_every_part(
                reached(*root, r->Ok_0@)->0.facts@,
                d,
            )
            &&& r is Ok && wanted(p) ==> p == r->Ok_0@
            &&& few && wanted(p) && wanted(q) && p != q ==> r is Err && r->Err_0@.failure_kind
                == Some(FailureKind::Ambiguous)
            &&& few && wanted(p) && (forall|o: Seq<u32>|
                reached(*root, o) is Some && o != p ==> !has_every_part(
                    #[trigger] reached(*root, o)->0.facts@,
                    d,
                )) ==> r is Ok && r->Ok_0@ == p
            &&& few && (forall|o: Seq<u32>|
                reached(*root, o) is Some ==> !has_every_part(
                    #[trigger] reached(*root, o)->0.facts@,
                    d,
                )) ==> r is Err && r->Err_0@.failure_kind == Some(FailureKind::NotFound)
        }),
{
    let d = target.accessibility->0@;
    let none = Seq::<u32>::empty();
    let depth = 16nat;
    let left = 2000nat;
    if population(*root) <= 2000 {
        few_are_searched(*root, d, none, depth, left);
    }
    if found_in(*root, d, none, depth, left) is Some {
        let found = found_in(*root, d, none, depth, left)->0.paths;
        found_lead_to_elements(*root, d, none, depth, left);
        assert forall|i: int| 0 <= i < found.len() implies reached(*root, #[trigger] found[i])
            is Some && has_every_part(reached(*root, found[i])->0.facts@, d) by {
            assert(leads(*root, d, none, found[i]));
            assert(found[i].skip(0) =~= found[i]);
            fitting_has_every_part(reached(*root, found[i])->0.facts@, d);
        }
        if p.len() <= 16 && reached(*root, p) is Some {
            fitting_has_every_part(reached(*root, p)->0.facts@, d);
            if has_every_part(reached(*root, p)->0.facts@, d) {
                fitting_are_found(*root, d, none, depth, left, p);
                assert(none + p =~= p);
            }
        }
        if q.len() <= 16 && reached(*root, q) is Some {
            fitting_has_every_part(reached(*root, q)->0.facts@, d);
            if has_every_part(reached(*root, q)->0.facts@, d) {
                fitting_are_found(*root, d, none, depth, left, q);
                assert(none + q =~= q);
            }
        }
        if found.contains(p) {
            let i = choose|i: int| 0 <= i < found.len() && found[i] == p;
            if found.len() > 1 {
                let j = if i == 0 {
                    1int
                } else {
                    0
                };
                assert(found[i] != found[j]);
                assert(has_every_part(reached(*root, found[j])->0.facts@, d));
            }
        }
        if found.contains(p) && found.contains(q) && p != q {
            assert(found.len() > 1) by {
                let i = choose|i: int| 0 <= i < found.len() && found[i] == p;
                let j = choose|j: int| 0 <= j < found.len() && found[j] == q;
                assert(i != j);
            }
        }
        if found.len() > 0 {
            assert(has_every_part(reached(*root, found[0])->0.facts@, d));
        }
    }
}

/// A selector with a path is followed, whatever else it says.
pub proof fn paths_are_followed(
    target: &Target,
    root: &Element,
    r: Result<Vec<u32>, AdapterError>,
)
    requires
        call_ensures(find_semantic_target, (target, root), r),
        target.accessibility is Some,
        target.accessibility->0.path is Some,
    ensures
        reached(*root, target.accessibility->0.path->0@) is Some <==> r is Ok,
        r is Ok ==> r->Ok_0@ == target.accessibility->0.path->0@,
        r is Err ==> r->Err_0@.failure_kind == Some(FailureKind::NotFound),
{
    paths_lead_to_places(*root, target.accessibility->0.path->0@);
}

/// Whether a window is the one that a target asks for: it has the title, holds the words in its
/// title, and belongs to the application, as far as the target names these; and it names one of
/// them.
pub open spec fn asked_for(w: MacWindow, t: &Target) -> bool {
    &&& t.window_title is Some ==> w.title@ == t.window_title->0@
    &&& t.title_contains is Some ==> contains_text(
        lowercase_of(w.title@),
        lowercase_of(t.title_contains->0@),
    )
    &&& t.app_name is Some ==> same_letters(w.app_name@, t.app_name->0@)
    &&& t.process_name is Some ==> same_letters(w.app_name@, t.process_name->0@)
    &&& t.window_title is Some || t.title_contains is Some || t.app_name is Some || t.process_name
        is Some
}

proof fn fitting_windows_are_asked_for(w: MacWindow, t: &Target)
    ensures
        window_fits(w@, t@) == asked_for(w, t),
{
    if t.app_name is Some {
        case_is_that_of_letters(w.app_name@, t.app_name->0@);
    }
    if t.process_name is Some {
        case_is_that_of_letters(w.app_name@, t.process_name->0@);
    }
}

proof fn matching_are_asked_for(t: &Target, windows: Seq<MacWindow>, n: nat)
    requires
        n <= windows.len(),
    ensures
        ({
            let found = matching(t@, windows, n);
            &&& forall|i: int|
                0 <= i < found.len() ==> 0 <= #[trigger] found[i] < n && asked_for(
                    windows[found[i]],
                    t,
                )
            &&& forall|i: int, j: int| 0 <= i < j < found.len() ==> found[i] < found[j]
            &&& forall|k: int|
                0 <= k < n && asked_for(#[trigger] windows[k], t) ==> found.contains(k)
        }),
    decreases n,
{
    if n > 0 {
        let m = (n - 1) as nat;
        matching_are_asked_for(t, windows, m);
        fitting_windows_are_asked_for(windows[n - 1], t);
        let front = matching(t@, windows, m);
        let found = matching(t@, windows, n);
        assert forall|k: int|
            0 <= k < n && asked_for(#[trigger] windows[k], t) implies found.contains(k) by {
            if k < m {
                assert(front.contains(k));
                let i = choose|i: int| 0 <= i < front.len() && front[i] == k;
                assert(found[i] == k);
            } else {
                assert(found[found.len() - 1] == k);
            }
        }
    }
}

/// A window on macOS is found where it is the only one that the target asks for.
pub proof fn the_only_window_on_macos_is_found(
    target: &Target,
    windows: &Vec<MacWindow>,
    r: Result<usize, AdapterError>,
    k: int,
    l: int,
)
    requires
        call_ensures(find_window, (target, windows), r),
        0 <= k < windows@.len(),
        0 <= l < windows@.len(),
    ensures
        target.url is Some || target.file_path is Some ==> r is Err,
        r is Ok ==> r->Ok_0 < windows@.len() && asked_for(windows@[r->Ok_0 as int], target),
        r is Ok && asked_for(windows@[k], target) ==> r->Ok_0 == k,
        target.url is None && target.file_path is None ==> {
            &&& asked_for(windows@[k], target) && (forall|j: int|
                0 <= j < windows@.len() && j != k ==> !asked_for(#[trigger] windows@[j], target))
                ==> r is Ok && r->Ok_0 == k
            &&& k != l && asked_for(windows@[k], target) && asked_for(windows@[l], target) ==> r
                is Err && r->Err_0@.failure_kind == Some(FailureKind::Ambiguous)
            &&& (forall|j: int|
                0 <= j < windows@.len() ==> !asked_for(#[trigger] windows@[j], target)) ==> r is Err
                && r->Err_0@.failure_kind == Some(FailureKind::NotFound)
        },
{
    let n = windows@.len();
    let found = matching(target@, windows@, n);
    matching_are_asked_for(target, windows@, n);
    if r is Ok {
        assert(found[0] == r->Ok_0);
        if asked_for(windows@[k], target) {
            assert(found.contains(k));
        }
    }
    if asked_for(windows@[k], target) {
        assert(found.contains(k));
        let i = choose|i: int| 0 <= i < found.len() && found[i] == k;
        if found.len() > 1 {
            let j = if i == 0 {
                1int
            } else {
                0
            };
            assert(asked_for(windows@[found[j]], target));
            if i == 0 {
                assert(found[0] < found[1]);
            } else {
                assert(found[0] < found[i]);
            }
        }
    }
    if k != l && asked_for(windows@[k], target) && asked_for(windows@[l], target) {
        assert(found.contains(k) && found.contains(l));
        let a = choose|a: int| 0 <= a < found.len() && found[a] == k;
        let b = choose|b: int| 0 <= b < found.len() && found[b] == l;
        assert(a != b);
    }
    if found.len() > 0 {
        assert(asked_for(windows@[found[0]], target));
    }
}

proof fn behind_the_last_separator(text: Seq<char>, separator: char, last: Seq<char>)
    requires
        !last.contains(separator),
    ensures
        pieces(text + seq![separator] + last, separator) == pieces(text, separator).push(last),
{
    let front = pieces(text, separator);
    pieces_exist(text, separator);
    joining_undoes_splitting(text, separator);
    let all = front.push(last);
    joining_puts_separators_between(front, last, seq![separator]);
    assert forall|i: int| 0 <= i < all.len() implies !(#[trigger] all[i]).contains(separator) by {
        if i < front.len() {
            assert(all[i] == front[i]);
        }
    }
    splitting_undoes_joining(all, separator);
}

/// A process is told by the name of its program: what stands behind the last slash of its path,
/// without the extension, in lower case.
pub proof fn processes_are_told_by_their_program(
    path: &str,
    folder: Seq<char>,
    name: Seq<char>,
    extension: Seq<char>,
    r: String,
)
    requires
        call_ensures(process_basename, (path,), r),
        name.len() > 0,
        !name.contains('/') && !name.contains('.'),
        !extension.contains('/') && !extension.contains('.'),
        trimmed(path@) == path@,
    ensures
        path@ == folder + seq!['/'] + name ==> r@ == lowercase_of(name),
        path@ == folder + seq!['/'] + (name + seq!['.'] + extension) ==> r@ == lowercase_of(name),
{
    reveal_strlit(".");
    reveal_strlit("..");
    assert("."@ =~= seq!['.']);
    assert(".."@ =~= seq!['.', '.']);
    let whole = name + seq!['.'] + extension;
    assert(name[0] != '.') by {
        assert(name.contains(name[0]));
    }
    assert(!whole.contains('/')) by {
        if whole.contains('/') {
            let k = choose|k: int| 0 <= k < whole.len() && whole[k] == '/';
            if k < name.len() {
                assert(name[k] == '/');
            } else if k > name.len() {
                assert(extension[k - name.len() - 1] == '/');
            }
        }
    }
    behind_the_last_separator(folder, '/', name);
    behind_the_last_separator(folder, '/', whole);
    assert(whole[0] == name[0]);
    assert(pieces(folder, '/').push(name).last() == name);
    assert(pieces(folder, '/').push(whole).last() == whole);
    let none = seq![name];
    assert(none[0] == name);
    splitting_undoes_joining(none, '.');
    joining_puts_separators_between(Seq::empty(), name, seq!['.']);
    assert(pieces(name, '.') == none);
    behind_the_last_separator(name, '.', extension);
    let two = pieces(whole, '.');
    assert(two == none.push(extension));
    assert(two.drop_last() =~= none);
    assert(two[0] == name);
    assert(joined(none, "."@) == name);
}

/// What macOS tells of an element is kept under its own name: the title names the element, or else
/// the description does; and the kind is the role, with the finer role behind a colon where there
/// is one.
pub proof fn facts_are_kept_under_their_names(ax: AxFacts, r: ElementFacts)
    requires
        call_ensures(facts_from_ax, (ax,), r),
    ensures
        ax.title is Some ==> r@.name == Some(ax.title->0@),
        ax.title is None && ax.description is Some ==> r@.name == Some(ax.description->0@),
        ax.identifier is Some ==> r@.automation_id == Some(ax.identifier->0@),
        ax.identifier is None ==> r@.automation_id is None,
        ax.role is Some ==> r@.class_name == ax.role->0@,
        ax.subrole is Some ==> r@.subrole == ax.subrole->0@,
        ax.role is Some && (ax.subrole is None || ax.subrole->0@.len() == 0) ==> r@.control_type
            == Some(ax.role->0@),
        ax.role is Some && ax.subrole is Some && ax.subrole->0@.len() > 0 ==> r@.control_type
            == Some(ax.role->0@ + seq![':'] + ax.subrole->0@),
        r@.enabled == ax.enabled && r@.bounds == ax.bounds && r@.has_keyboard_focus == ax.focused,
        ax.value is Some ==> r@.value == Some(ax.value->0@),
        ax.value is None ==> r@.value is None,
        r@.actions == texts(ax.actions@),
{
    reveal_strlit(":");
    assert(":"@ =~= seq![':']);
}

/// An element is invoked by pressing it where it can be pressed, else by confirming it, else by
/// showing its menu; and it is scrolled up for a positive number and down for a negative one.
pub proof fn elements_are_invoked_by_the_best_action(
    offered: &Vec<String>,
    delta_y: i32,
    invoked: Result<&'static str, AdapterError>,
    scrolled: Result<Option<&'static str>, AdapterError>,
)
    requires
        call_ensures(invoke_action, (offered,), invoked),
        call_ensures(scroll_action, (offered, delta_y), scrolled),
    ensures
        ({
            let all = texts(offered@);
            &&& all.contains("AXPress"@) ==> invoked is Ok && invoked->Ok_0@ == "AXPress"@
            &&& !all.contains("AXPress"@) && all.contains("AXConfirm"@) ==> invoked is Ok
                && invoked->Ok_0@ == "AXConfirm"@
            &&& !all.contains("AXPress"@) && !all.contains("AXConfirm"@) && all.contains(
                "AXShowMenu"@,
            ) ==> invoked is Ok && invoked->Ok_0@ == "AXShowMenu"@
            &&& !all.contains("AXPress"@) && !all.contains("AXConfirm"@) && !all.contains(
                "AXShowMenu"@,
            ) ==> invoked is Err
            &&& delta_y == 0 ==> scrolled is Ok && scrolled->Ok_0 is None
            &&& delta_y < 0 && all.contains("AXScrollDown"@) ==> scrolled is Ok && scrolled->Ok_0
                is Some && scrolled->Ok_0->0@ == "AXScrollDown"@
            &&& delta_y > 0 && all.contains("AXScrollUp"@) ==> scrolled is Ok && scrolled->Ok_0
                is Some && scrolled->Ok_0->0@ == "AXScrollUp"@
            &&& delta_y < 0 && !all.contains("AXScrollDown"@) && all.contains("AXScrollPageDown"@)
                ==> scrolled is Ok && scrolled->Ok_0 is Some && scrolled->Ok_0->0@
                == "AXScrollPageDown"@
            &&& delta_y > 0 && !all.contains("AXScrollUp"@) && all.contains("AXScrollPageUp"@)
                ==> scrolled is Ok && scrolled->Ok_0 is Some && scrolled->Ok_0->0@
                == "AXScrollPageUp"@
        }),
{
    reveal_with_fuel(first_offered, 4);
    let press = invoke_actions();
    assert(press.drop_first()[0] == "AXConfirm");
    assert(press.drop_first().drop_first()[0] == "AXShowMenu");
    let scroll = scroll_actions(delta_y);
    if delta_y < 0 {
        assert(scroll.drop_first()[0] == "AXScrollPageDown");
    } else {
        assert(scroll.drop_first()[0] == "AXScrollPageUp");
    }
}

} // verus!
