//! Finding an element of a Windows window.
use vstd::prelude::*;
use crate::accessibility::{
    click_point_for_bounds, click_point_of, has_area, non_empty_bounds, AccessibilityPoint,
};
use crate::adapter::{plain_error, AdapterError, AdapterErrorView};
use crate::definition::{AccessibilityTarget, AccessibilityTargetView, Target, TargetView};
use crate::describe::{
    accessibility_fields, accessibility_summary, format_accessibility_path, list_or_none, list_text,
    path_text, window_summary, window_target_summary, QuoteStyle,
};
use crate::elements::{child_index, Element, ElementFacts, ElementFactsView, Unlisted};
use crate::run::{FailureKind, RunErrorKind};
use crate::text::{
    begins_with, concat, concat3, contains, contains_text, debug_of, debug_text, decimal_int,
    eq_ignore_ascii_case, format_i64, joined, opt_text, owned, same_but_case, same_text,
    starts_with, texts,
};
use crate::views::{copy_u32s, views, Faithful};
use crate::windows::policy::first_reason;
use crate::windows::titles::{has_failure_kind, normalize_window_title, normalized};

verus! {

pub const SEMANTIC_SEARCH_MAX_DEPTH: u32 = 16;

pub const SEMANTIC_SEARCH_MAX_NODES: usize = 2_000;

/// An element and its place in the window.
pub struct Visit<'a> {
    pub path: Vec<u32>,
    pub facts: &'a ElementFacts,
}

/// What a [`Visit`] stands for.
pub struct VisitView {
    pub path: Seq<u32>,
    pub facts: ElementFactsView,
}

impl<'a> View for Visit<'a> {
    type V = VisitView;

    open spec fn view(&self) -> VisitView {
        VisitView { path: self.path@, facts: self.facts@ }
    }
}

/// A walk over the elements of a window.
pub struct Walk {
    pub visits: Seq<VisitView>,
    /// How many more elements it may visit.
    pub left: nat,
    /// Whether something was left out.
    pub truncated: bool,
}

/// A walk over an element and what is inside it: each element before what is inside it, no deeper
/// than `depth` levels, and no more than `left` elements. At the last level it is not known what
/// lies below, so something may have been left out.
pub open spec fn walk(e: Element, path: Seq<u32>, depth: nat, left: nat) -> Walk
    decreases e, 0nat,
{
    let here = VisitView { path, facts: e.facts@ };
    if left == 0 {
        Walk { visits: Seq::empty(), left: 0, truncated: true }
    } else if depth == 0 {
        Walk { visits: seq![here], left: (left - 1) as nat, truncated: true }
    } else {
        match e.children {
            Err(_) => Walk { visits: seq![here], left: (left - 1) as nat, truncated: true },
            Ok(children) => {
                let inside = walk_children(
                    children@,
                    children@.len(),
                    path,
                    (depth - 1) as nat,
                    (left - 1) as nat,
                );
                Walk { visits: seq![here] + inside.visits, ..inside }
            },
        }
    }
}

pub open spec fn walk_children(
    children: Seq<Option<Element>>,
    n: nat,
    path: Seq<u32>,
    depth: nat,
    left: nat,
) -> Walk
    decreases children, n,
{
    if n == 0 || n > children.len() {
        Walk { visits: Seq::empty(), left, truncated: false }
    } else {
        let before = walk_children(children, (n - 1) as nat, path, depth, left);
        if before.left == 0 {
            Walk { truncated: true, ..before }
        } else {
            match children[n - 1] {
                None => Walk { truncated: true, ..before },
                Some(child) => {
                    let one = walk(child, path.push((n - 1) as u32), depth, before.left);
                    Walk {
                        visits: before.visits + one.visits,
                        left: one.left,
                        truncated: before.truncated || one.truncated,
                    }
                },
            }
        }
    }
}

/// A walk visits no more elements than it may.
pub proof fn walk_is_bounded(e: Element, path: Seq<u32>, depth: nat, left: nat)
    ensures
        walk(e, path, depth, left).visits.len() + walk(e, path, depth, left).left == left,
    decreases e, 0nat,
{
    if left > 0 && depth > 0 && e.children is Ok {
        let children = e.children->Ok_0@;
        walk_children_is_bounded(
            children,
            children.len(),
            path,
            (depth - 1) as nat,
            (left - 1) as nat,
        );
        assert(e.children->Ok_0@ == children);
    }
}

proof fn walk_children_is_bounded(
    children: Seq<Option<Element>>,
    n: nat,
    path: Seq<u32>,
    depth: nat,
    left: nat,
)
    requires
        n <= children.len(),
    ensures
        walk_children(children, n, path, depth, left).visits.len() + walk_children(
            children,
            n,
            path,
            depth,
            left,
        ).left == left,
    decreases children, n,
{
    if n > 0 {
        walk_children_is_bounded(children, (n - 1) as nat, path, depth, left);
        let before = walk_children(children, (n - 1) as nat, path, depth, left);
        if let Some(child) = children[n - 1] {
            walk_is_bounded(child, path.push((n - 1) as u32), depth, before.left);
        }
    }
}

fn walk_into<'a>(
    element: &'a Element,
    path: &Vec<u32>,
    depth: u32,
    left: &mut usize,
    truncated: &mut bool,
    visits: &mut Vec<Visit<'a>>,
)
    ensures
        ({
            let done = walk(*element, path@, depth as nat, *old(left) as nat);
            &&& views(final(visits)@) == views(old(visits)@) + done.visits
            &&& *final(left) == done.left
            &&& *final(truncated) == (*old(truncated) || done.truncated)
        }),
    decreases element,
{
    let ghost start = views(visits@);
    if *left == 0 {
        *truncated = true;
        assert(start + Seq::<VisitView>::empty() =~= start);
        return;
    }
    *left = *left - 1;
    let here = Visit { path: copy_u32s(path), facts: &element.facts };
    let ghost first = here@;
    visits.push(here);
    assert(views(visits@) =~= start + seq![first]);
    if depth == 0 {
        *truncated = true;
        return;
    }
    let children = match &element.children {
        Err(_) => {
            *truncated = true;
            return;
        },
        Ok(children) => children,
    };
    let ghost start_left = *left as nat;
    let ghost start_truncated = *truncated;
    let ghost all = children@;
    let ghost head = views(visits@);
    let mut i: usize = 0;
    assert(head + Seq::<VisitView>::empty() =~= head);
    while i < children.len()
        invariant
            i <= children@.len(),
            all == children@,
            element.children == Ok::<Vec<Option<Element>>, Unlisted>(*children),
            decreases_to!(element => children@),
            depth > 0,
            ({
                let so_far = walk_children(all, i as nat, path@, (depth - 1) as nat, start_left);
                &&& views(visits@) == head + so_far.visits
                &&& *left == so_far.left
                &&& *truncated == (start_truncated || so_far.truncated)
            }),
        decreases children@.len() - i,
    {
        let ghost so_far = walk_children(all, i as nat, path@, (depth - 1) as nat, start_left);
        if *left == 0 {
            *truncated = true;
        } else {
            match &children[i] {
                None => {
                    *truncated = true;
                },
                Some(child) => {
                    let mut child_path = copy_u32s(path);
                    child_path.push(child_index(i));
                    assert(child_path@ =~= path@.push(i as u32));
                    let ghost one = walk(
                        *child,
                        child_path@,
                        (depth - 1) as nat,
                        *left as nat,
                    );
                    walk_into(child, &child_path, depth - 1, left, truncated, visits);
                    assert((head + so_far.visits) + one.visits =~= head + (so_far.visits
                        + one.visits));
                },
            }
        }
        i = i + 1;
    }
    proof {
        let inside = walk_children(all, all.len(), path@, (depth - 1) as nat, start_left);
        assert((start + seq![first]) + inside.visits =~= start + (seq![first] + inside.visits));
    }
}

/// The message for an element that does not show all that it is described by.
pub open spec fn unreadable(f: ElementFactsView) -> Option<Seq<char>> {
    if f.automation_id is None {
        Some("Windows could read a target automation id"@)
    } else if f.name is None {
        Some("Windows could read a target name"@)
    } else if f.control_type is None {
        Some("Windows could read a target control type"@)
    } else {
        None
    }
}

pub open spec fn point_text(point: Option<AccessibilityPoint>) -> Seq<char> {
    match point {
        Some(p) => decimal_int(p.x as int) + ","@ + decimal_int(p.y as int),
        None => "unknown"@,
    }
}

/// Describes an element and its place.
pub open spec fn element_text(v: VisitView) -> Seq<char> {
    "path="@ + path_text(v.path) + ", id="@ + debug_of(v.facts.automation_id->0) + ", name="@
        + debug_of(v.facts.name->0) + ", controlType="@ + debug_of(v.facts.control_type->0)
        + ", clickPoint="@ + point_text(
        match v.facts.bounds {
            Some(b) => click_point_of(b),
            None => None,
        },
    )
}

fn read_error(message: &str) -> (r: AdapterError)
    ensures
        r@ == plain_error(RunErrorKind::Adapter, message@),
{
    AdapterError::new(owned(message))
}

pub fn element_summary(visit: &Visit) -> (r: Result<String, AdapterError>)
    ensures
        match r {
            Ok(text) => unreadable(visit@.facts) is None && text@ == element_text(visit@),
            Err(e) => unreadable(visit@.facts) matches Some(message) && e@ == plain_error(
                RunErrorKind::Adapter,
                message,
            ),
        },
{
    let id = match &visit.facts.automation_id {
        Some(id) => id,
        None => {
            return Err(read_error("Windows could read a target automation id"));
        },
    };
    let name = match &visit.facts.name {
        Some(name) => name,
        None => {
            return Err(read_error("Windows could read a target name"));
        },
    };
    let control_type = match &visit.facts.control_type {
        Some(control_type) => control_type,
        None => {
            return Err(read_error("Windows could read a target control type"));
        },
    };
    let point = match visit.facts.bounds {
        Some(b) => click_point_for_bounds(b),
        None => None,
    };
    let mut out = owned("path=");
    out.append(format_accessibility_path(&visit.path).as_str());
    out.append(", id=");
    out.append(debug_text(id.as_str()).as_str());
    out.append(", name=");
    out.append(debug_text(name.as_str()).as_str());
    out.append(", controlType=");
    out.append(debug_text(control_type.as_str()).as_str());
    out.append(", clickPoint=");
    let shown = match point {
        Some(p) => concat3(format_i64(p.x as i64).as_str(), ",", format_i64(p.y as i64).as_str()),
        None => owned("unknown"),
    };
    out.append(shown.as_str());
    Ok(out)
}

/// Whether an element is the one that a selector asks for: at its path, with the same id, and with
/// the same name and control type but for case and spacing.
pub open spec fn element_fits(v: VisitView, a: AccessibilityTargetView) -> bool {
    &&& a.path matches Some(path) ==> path == v.path
    &&& a.id matches Some(id) ==> v.facts.automation_id == Some(id)
    &&& a.name matches Some(name) ==> (v.facts.name matches Some(own) && same_but_case(
        normalized(own),
        normalized(name),
    ))
    &&& a.control_type matches Some(kind) ==> (v.facts.control_type matches Some(own)
        && same_but_case(normalized(own), normalized(kind)))
}

fn same_path(a: &Vec<u32>, b: &Vec<u32>) -> (r: bool)
    ensures
        r == (a@ == b@),
{
    if a.len() != b.len() {
        return false;
    }
    let mut i: usize = 0;
    while i < a.len()
        invariant
            i <= a@.len(),
            a@.len() == b@.len(),
            forall|j: int| 0 <= j < i ==> a@[j] == b@[j],
        decreases a@.len() - i,
    {
        if a[i] != b[i] {
            return false;
        }
        i = i + 1;
    }
    assert(a@ =~= b@);
    true
}

fn same_normalized(own: &Option<String>, wanted: &str) -> (r: bool)
    ensures
        r == (opt_text(*own) matches Some(text) && same_but_case(
            normalized(text),
            normalized(wanted@),
        )),
{
    match own {
        Some(text) => {
            let a = normalize_window_title(text.as_str());
            let b = normalize_window_title(wanted);
            eq_ignore_ascii_case(a.as_str(), b.as_str())
        },
        None => false,
    }
}

/// The message for an element that does not show what a selector asks for, as far as it has to be
/// read: what comes after the first difference does not.
pub open spec fn unmatched(v: VisitView, a: AccessibilityTargetView) -> Option<Seq<char>> {
    if a.path is Some && a.path->0 != v.path {
        None
    } else if a.id is Some && v.facts.automation_id != a.id {
        if v.facts.automation_id is None {
            Some("Windows could read a target automation id"@)
        } else {
            None
        }
    } else if a.name is Some && !(v.facts.name matches Some(own) && same_but_case(
        normalized(own),
        normalized(a.name->0),
    )) {
        if v.facts.name is None {
            Some("Windows could read a target name"@)
        } else {
            None
        }
    } else if a.control_type is Some && v.facts.control_type is None {
        Some("Windows could read a target control type"@)
    } else {
        None
    }
}

fn ensure_matchable(visit: &Visit, accessibility: &AccessibilityTarget) -> (r: Result<
    (),
    AdapterError,
>)
    ensures
        match r {
            Ok(_) => unmatched(visit@, accessibility@) is None,
            Err(e) => unmatched(visit@, accessibility@) matches Some(message) && e@ == plain_error(
                RunErrorKind::Adapter,
                message,
            ),
        },
{
    if let Some(path) = &accessibility.path {
        if !same_path(path, &visit.path) {
            return Ok(());
        }
    }
    if let Some(id) = &accessibility.id {
        match &visit.facts.automation_id {
            Some(own) => {
                if !same_text(own.as_str(), id.as_str()) {
                    return Ok(());
                }
            },
            None => {
                return Err(read_error("Windows could read a target automation id"));
            },
        }
    }
    if let Some(name) = &accessibility.name {
        if visit.facts.name.is_none() {
            return Err(read_error("Windows could read a target name"));
        }
        if !same_normalized(&visit.facts.name, name.as_str()) {
            return Ok(());
        }
    }
    if accessibility.control_type.is_some() && visit.facts.control_type.is_none() {
        return Err(read_error("Windows could read a target control type"));
    }
    Ok(())
}

pub fn accessibility_matches(visit: &Visit, accessibility: &AccessibilityTarget) -> (r: bool)
    ensures
        r == element_fits(visit@, accessibility@),
{
    if let Some(path) = &accessibility.path {
        if !same_path(path, &visit.path) {
            return false;
        }
    }
    if let Some(id) = &accessibility.id {
        match &visit.facts.automation_id {
            Some(own) => {
                if !same_text(own.as_str(), id.as_str()) {
                    return false;
                }
            },
            None => {
                return false;
            },
        }
    }
    if let Some(name) = &accessibility.name {
        if !same_normalized(&visit.facts.name, name.as_str()) {
            return false;
        }
    }
    if let Some(kind) = &accessibility.control_type {
        if !same_normalized(&visit.facts.control_type, kind.as_str()) {
            return false;
        }
    }
    true
}

/// The visits of a walk that a selector asks for.
pub open spec fn fitting(visits: Seq<VisitView>, a: AccessibilityTargetView) -> Seq<VisitView>
    decreases visits.len(),
{
    if visits.len() == 0 {
        Seq::empty()
    } else {
        let front = fitting(visits.drop_last(), a);
        if element_fits(visits.last(), a) {
            front.push(visits.last())
        } else {
            front
        }
    }
}

/// The first visit whose element does not show all that it is described by.
pub open spec fn first_unreadable(visits: Seq<VisitView>) -> Option<Seq<char>>
    decreases visits.len(),
{
    if visits.len() == 0 {
        None
    } else {
        match first_unreadable(visits.drop_last()) {
            Some(message) => Some(message),
            None => unreadable(visits.last().facts),
        }
    }
}

pub open spec fn element_texts(visits: Seq<VisitView>) -> Seq<Seq<char>> {
    visits.map_values(|v: VisitView| element_text(v))
}

/// The first twelve of the visits.
pub open spec fn noted(visits: Seq<VisitView>) -> Seq<VisitView> {
    if visits.len() <= 12 {
        visits
    } else {
        visits.take(12)
    }
}

/// What a search for an element found, in words.
pub open spec fn semantic_search_text(
    t: TargetView,
    a: AccessibilityTargetView,
    matched: Seq<Seq<char>>,
    seen: Seq<Seq<char>>,
) -> Seq<char> {
    "window selector: "@ + window_summary(QuoteStyle::Literal, t) + "; accessibility selector: "@
        + joined(accessibility_fields(a), ", "@) + "; matched elements: "@ + list_text(matched)
        + "; inspected elements: "@ + list_text(seen)
}

pub fn semantic_search_diagnostics(
    target: &Target,
    accessibility: &AccessibilityTarget,
    matched: &Vec<String>,
    inspected: &Vec<String>,
) -> (r: String)
    ensures
        r@ == semantic_search_text(target@, accessibility@, texts(matched@), texts(inspected@)),
{
    let mut out = owned("window selector: ");
    out.append(window_target_summary(QuoteStyle::Literal, target).as_str());
    out.append("; accessibility selector: ");
    out.append(accessibility_summary(accessibility).as_str());
    out.append("; matched elements: ");
    out.append(list_or_none(matched).as_str());
    out.append("; inspected elements: ");
    out.append(list_or_none(inspected).as_str());
    out
}

pub open spec fn search_error(
    message: Seq<char>,
    kind: FailureKind,
    label: Seq<char>,
    found: Seq<char>,
) -> AdapterErrorView {
    AdapterErrorView {
        message,
        kind: RunErrorKind::Adapter,
        diagnostics: Some(label + found),
        failure_kind: Some(kind),
    }
}

fn make_search_error(message: &str, kind: FailureKind, label: &str, found: &String) -> (r:
    AdapterError)
    ensures
        r@ == search_error(message@, kind, label@, found@),
{
    AdapterError::new(owned(message)).with_failure_kind(kind).with_source(
        concat(label, found.as_str()),
    )
}

/// The outcome of a search whose elements are all described: there has to be exactly one.
pub open spec fn search_outcome(
    t: TargetView,
    a: AccessibilityTargetView,
    matched: Seq<VisitView>,
    seen: Seq<VisitView>,
) -> Result<Seq<u32>, AdapterErrorView> {
    if matched.len() == 1 {
        Ok(matched[0].path)
    } else if matched.len() == 0 {
        Err(
            search_error(
                "requested semantic target was not found"@,
                FailureKind::NotFound,
                "failureKind=notFound; "@,
                semantic_search_text(t, a, Seq::empty(), element_texts(seen)),
            ),
        )
    } else {
        Err(
            search_error(
                "requested semantic target matched multiple elements"@,
                FailureKind::Ambiguous,
                "failureKind=ambiguous; "@,
                semantic_search_text(t, a, element_texts(matched), element_texts(seen)),
            ),
        )
    }
}

/// What a search without a path comes to. A search that left something out finds nothing.
pub open spec fn wide_search(t: TargetView, a: AccessibilityTargetView, root: Element) -> Result<
    Seq<u32>,
    AdapterErrorView,
> {
    let w = walk(
        root,
        Seq::empty(),
        SEMANTIC_SEARCH_MAX_DEPTH as nat,
        SEMANTIC_SEARCH_MAX_NODES as nat,
    );
    match first_unreadable(w.visits) {
        Some(message) => Err(plain_error(RunErrorKind::Adapter, message)),
        None => if w.truncated {
            Err(
                search_error(
                    "requested semantic target search was truncated"@,
                    FailureKind::TruncatedSearch,
                    "failureKind=truncatedSearch; "@,
                    semantic_search_text(t, a, Seq::empty(), element_texts(noted(w.visits))),
                ),
            )
        } else {
            search_outcome(t, a, fitting(w.visits, a), noted(w.visits))
        },
    }
}

fn summaries_of(visits: &Vec<Visit>) -> (r: Result<Vec<String>, AdapterError>)
    ensures
        match r {
            Ok(items) => first_unreadable(views(visits@)) is None && texts(items@) == element_texts(
                views(visits@),
            ),
            Err(e) => first_unreadable(views(visits@)) matches Some(message) && e@ == plain_error(
                RunErrorKind::Adapter,
                message,
            ),
        },
{
    let ghost all = views(visits@);
    let mut items: Vec<String> = Vec::new();
    let mut i: usize = 0;
    assert(all.take(0) =~= Seq::empty());
    assert(texts(items@) =~= element_texts(Seq::empty()));
    while i < visits.len()
        invariant
            i <= visits@.len(),
            all == views(visits@),
            first_unreadable(all.take(i as int)) is None,
            texts(items@) == element_texts(all.take(i as int)),
        decreases visits@.len() - i,
    {
        let ghost front = texts(items@);
        assert(all.take(i + 1).drop_last() =~= all.take(i as int));
        assert(all.take(i + 1).last() == visits@[i as int]@);
        match element_summary(&visits[i]) {
            Ok(text) => {
                let ghost added = text@;
                items.push(text);
                assert(texts(items@) =~= front.push(added));
                assert(element_texts(all.take(i + 1)) =~= front.push(added));
            },
            Err(e) => {
                proof {
                    unreadable_stays(all, i + 1);
                }
                return Err(e);
            },
        }
        i = i + 1;
    }
    assert(all.take(i as int) =~= all);
    Ok(items)
}

proof fn unreadable_stays(visits: Seq<VisitView>, n: int)
    requires
        0 <= n <= visits.len(),
        first_unreadable(visits.take(n)) is Some,
    ensures
        first_unreadable(visits) == first_unreadable(visits.take(n)),
    decreases visits.len(),
{
    if n < visits.len() {
        assert(visits.drop_last().take(n) =~= visits.take(n));
        unreadable_stays(visits.drop_last(), n);
    } else {
        assert(visits.take(n) =~= visits);
    }
}

/// Finds the elements that a selector asks for, with their descriptions.
fn select_fitting(
    visits: &Vec<Visit>,
    summaries: &Vec<String>,
    accessibility: &AccessibilityTarget,
) -> (r: (Vec<Vec<u32>>, Vec<String>))
    requires
        texts(summaries@) == element_texts(views(visits@)),
    ensures
        r.0@.len() == fitting(views(visits@), accessibility@).len(),
        forall|i: int|
            0 <= i < r.0@.len() ==> (#[trigger] r.0@[i])@ == fitting(
                views(visits@),
                accessibility@,
            )[i].path,
        texts(r.1@) == element_texts(fitting(views(visits@), accessibility@)),
{
    let ghost all = views(visits@);
    let ghost a = accessibility@;
    let mut paths: Vec<Vec<u32>> = Vec::new();
    let mut found: Vec<String> = Vec::new();
    let mut i: usize = 0;
    assert(all.take(0) =~= Seq::empty());
    assert(texts(found@) =~= element_texts(Seq::empty()));
    while i < visits.len()
        invariant
            i <= visits@.len(),
            all == views(visits@),
            a == accessibility@,
            texts(summaries@) == element_texts(all),
            paths@.len() == fitting(all.take(i as int), a).len(),
            forall|k: int|
                0 <= k < paths@.len() ==> (#[trigger] paths@[k])@ == fitting(
                    all.take(i as int),
                    a,
                )[k].path,
            texts(found@) == element_texts(fitting(all.take(i as int), a)),
        decreases visits@.len() - i,
    {
        let ghost front = fitting(all.take(i as int), a);
        let ghost earlier = texts(found@);
        assert(all.take(i + 1).drop_last() =~= all.take(i as int));
        assert(all.take(i + 1).last() == visits@[i as int]@);
        assert(texts(summaries@)[i as int] == element_text(all[i as int]));
        assert(summaries@.len() == texts(summaries@).len());
        if accessibility_matches(&visits[i], accessibility) {
            paths.push(copy_u32s(&visits[i].path));
            let text = summaries[i].clone();
            let ghost added = text@;
            found.push(text);
            assert(texts(found@) =~= earlier.push(added));
            assert(element_texts(front.push(all[i as int])) =~= earlier.push(added));
        }
        i = i + 1;
    }
    assert(all.take(i as int) =~= all);
    (paths, found)
}

fn first_twelve(items: &Vec<String>) -> (r: Vec<String>)
    ensures
        texts(r@) == (if items@.len() <= 12 {
            texts(items@)
        } else {
            texts(items@).take(12)
        }),
{
    let limit: usize = if items.len() <= 12 {
        items.len()
    } else {
        12
    };
    let mut out: Vec<String> = Vec::new();
    let mut i: usize = 0;
    while i < limit
        invariant
            i <= limit <= items@.len(),
            out@.len() == i,
            forall|j: int| 0 <= j < i ==> (#[trigger] out@[j])@ == items@[j]@,
        decreases limit - i,
    {
        out.push(items[i].clone());
        i = i + 1;
    }
    assert(texts(out@) =~= texts(items@).take(limit as int));
    proof {
        if items@.len() <= 12 {
            assert(texts(items@).take(limit as int) =~= texts(items@));
        }
    }
    out
}

/// Finds the one element that a selector without a path asks for.
pub fn find_element(target: &Target, accessibility: &AccessibilityTarget, root: &Element) -> (r: Result<
    Vec<u32>,
    AdapterError,
>)
    ensures
        match r {
            Ok(path) => wide_search(target@, accessibility@, *root) == Ok::<
                Seq<u32>,
                AdapterErrorView,
            >(path@),
            Err(e) => wide_search(target@, accessibility@, *root) == Err::<
                Seq<u32>,
                AdapterErrorView,
            >(e@),
        },
{
    let mut visits: Vec<Visit> = Vec::new();
    let mut left: usize = SEMANTIC_SEARCH_MAX_NODES;
    let mut truncated = false;
    let top: Vec<u32> = Vec::new();
    assert(top@ =~= Seq::empty());
    assert(views(visits@) =~= Seq::empty());
    let ghost w = walk(
        *root,
        Seq::empty(),
        SEMANTIC_SEARCH_MAX_DEPTH as nat,
        SEMANTIC_SEARCH_MAX_NODES as nat,
    );
    walk_into(root, &top, SEMANTIC_SEARCH_MAX_DEPTH, &mut left, &mut truncated, &mut visits);
    assert(views(visits@) =~= w.visits);
    let summaries = match summaries_of(&visits) {
        Ok(summaries) => summaries,
        Err(e) => {
            return Err(e);
        },
    };
    let seen = first_twelve(&summaries);
    proof {
        assert(summaries@.len() == texts(summaries@).len());
        assert(texts(seen@) =~= element_texts(noted(w.visits)));
    }
    let none: Vec<String> = Vec::new();
    assert(texts(none@) =~= Seq::empty());
    if truncated {
        let found = semantic_search_diagnostics(target, accessibility, &none, &seen);
        return Err(
            make_search_error(
                "requested semantic target search was truncated",
                FailureKind::TruncatedSearch,
                "failureKind=truncatedSearch; ",
                &found,
            ),
        );
    }
    let (paths, matched) = select_fitting(&visits, &summaries, accessibility);
    if paths.len() == 1 {
        return Ok(copy_u32s(&paths[0]));
    }
    if paths.len() == 0 {
        let found = semantic_search_diagnostics(target, accessibility, &none, &seen);
        return Err(
            make_search_error(
                "requested semantic target was not found",
                FailureKind::NotFound,
                "failureKind=notFound; ",
                &found,
            ),
        );
    }
    let found = semantic_search_diagnostics(target, accessibility, &matched, &seen);
    Err(
        make_search_error(
            "requested semantic target matched multiple elements",
            FailureKind::Ambiguous,
            "failureKind=ambiguous; ",
            &found,
        ),
    )
}

/// A search that finds an element has looked at all of them, and no other is asked for.
pub proof fn found_element_is_the_only_one(t: TargetView, a: AccessibilityTargetView, root: Element)
    requires
        wide_search(t, a, root) is Ok,
    ensures
        ({
            let w = walk(
                root,
                Seq::empty(),
                SEMANTIC_SEARCH_MAX_DEPTH as nat,
                SEMANTIC_SEARCH_MAX_NODES as nat,
            );
            &&& !w.truncated
            &&& fitting(w.visits, a).len() == 1
            &&& wide_search(t, a, root)->Ok_0 == fitting(w.visits, a)[0].path
        }),
{
}

/// The element at a path, if there is one.
pub open spec fn element_at(e: Element, path: Seq<u32>) -> Option<Element>
    decreases path.len(),
{
    if path.len() == 0 {
        Some(e)
    } else {
        match e.children {
            Err(_) => None,
            Ok(children) => if path[0] < children@.len() {
                match children@[path[0] as int] {
                    Some(child) => element_at(child, path.drop_first()),
                    None => None,
                }
            } else {
                None
            },
        }
    }
}

/// Why the system did not list the children of an element on the way to a path, if it did not.
pub open spec fn unlisted(e: Element, path: Seq<u32>) -> Option<Unlisted>
    decreases path.len(),
{
    if path.len() == 0 {
        None
    } else {
        match e.children {
            Err(why) => Some(why),
            Ok(children) => if path[0] < children@.len() {
                match children@[path[0] as int] {
                    Some(child) => unlisted(child, path.drop_first()),
                    None => None,
                }
            } else {
                None
            },
        }
    }
}

/// What is said where children were not listed.
pub open spec fn unlisted_text(why: Unlisted) -> Seq<char> {
    match why {
        Unlisted::Query => "Windows could not query UI Automation children"@,
        Unlisted::Count => "Windows could not count UI Automation children"@,
    }
}

pub open spec fn not_found_plain() -> AdapterErrorView {
    AdapterErrorView {
        message: "requested semantic target was not found"@,
        kind: RunErrorKind::Adapter,
        diagnostics: Some("failureKind=notFound"@),
        failure_kind: Some(FailureKind::NotFound),
    }
}

pub fn semantic_target_not_found() -> (r: AdapterError)
    ensures
        r@ == not_found_plain(),
{
    AdapterError::new("requested semantic target was not found".to_owned()).with_failure_kind(
        FailureKind::NotFound,
    ).with_source("failureKind=notFound".to_owned())
}

/// Follows a path from the root of a window.
pub fn find_element_by_path<'a>(root: &'a Element, path: &Vec<u32>) -> (r: Result<
    &'a Element,
    AdapterError,
>)
    ensures
        match r {
            Ok(e) => element_at(*root, path@) == Some(*e),
            Err(e) => element_at(*root, path@) is None && e@ == (match unlisted(*root, path@) {
                Some(why) => plain_error(RunErrorKind::Adapter, unlisted_text(why)),
                None => not_found_plain(),
            }),
        },
{
    let mut element: &Element = root;
    let mut i: usize = 0;
    assert(path@.skip(0) =~= path@);
    while i < path.len()
        invariant
            i <= path@.len(),
            element_at(*root, path@) == element_at(*element, path@.skip(i as int)),
            unlisted(*root, path@) == unlisted(*element, path@.skip(i as int)),
        decreases path@.len() - i,
    {
        let ghost rest = path@.skip(i as int);
        assert(rest[0] == path@[i as int]);
        assert(rest.drop_first() =~= path@.skip(i + 1));
        let children = match &element.children {
            Ok(children) => children,
            Err(Unlisted::Query) => {
                return Err(read_error("Windows could not query UI Automation children"));
            },
            Err(Unlisted::Count) => {
                return Err(read_error("Windows could not count UI Automation children"));
            },
        };
        if path[i] as usize >= children.len() {
            return Err(semantic_target_not_found());
        }
        match &children[path[i] as usize] {
            Some(child) => {
                element = child;
            },
            None => {
                return Err(semantic_target_not_found());
            },
        }
        i = i + 1;
    }
    Ok(element)
}

/// What a search by path comes to: the element at the path, if it has what else is asked for.
pub open spec fn path_search(
    t: TargetView,
    a: AccessibilityTargetView,
    root: Element,
    path: Seq<u32>,
) -> Result<Seq<u32>, AdapterErrorView> {
    let top = VisitView { path: Seq::empty(), facts: root.facts@ };
    match unreadable(root.facts@) {
        Some(message) => Err(plain_error(RunErrorKind::Adapter, message)),
        None => match element_at(root, path) {
            None => match unlisted(root, path) {
                Some(why) => Err(plain_error(RunErrorKind::Adapter, unlisted_text(why))),
                None => search_outcome(t, a, Seq::empty(), seq![top]),
            },
            Some(e) => {
                let here = VisitView { path, facts: e.facts@ };
                match first_reason(unmatched(here, a), unreadable(e.facts@)) {
                    Some(message) => Err(plain_error(RunErrorKind::Adapter, message)),
                    None => if element_fits(here, a) {
                        search_outcome(t, a, seq![here], seq![top, here])
                    } else {
                        search_outcome(t, a, Seq::empty(), seq![top, here])
                    },
                }
            },
        },
    }
}

/// What a search for an element comes to.
pub open spec fn semantic_search(t: TargetView, root: Element) -> Result<
    Seq<u32>,
    AdapterErrorView,
> {
    match t.accessibility {
        None => Err(
            plain_error(
                RunErrorKind::Unsupported,
                "semantic target operations require an accessibility selector"@,
            ),
        ),
        Some(a) => match a.path {
            Some(path) => path_search(t, a, root, path),
            None => wide_search(t, a, root),
        },
    }
}

fn find_on_path(
    target: &Target,
    accessibility: &AccessibilityTarget,
    root: &Element,
    path: &Vec<u32>,
) -> (r: Result<Vec<u32>, AdapterError>)
    ensures
        match r {
            Ok(found) => path_search(target@, accessibility@, *root, path@) == Ok::<
                Seq<u32>,
                AdapterErrorView,
            >(found@),
            Err(e) => path_search(target@, accessibility@, *root, path@) == Err::<
                Seq<u32>,
                AdapterErrorView,
            >(e@),
        },
{
    let ghost t = target@;
    let ghost a = accessibility@;
    let nowhere: Vec<u32> = Vec::new();
    assert(nowhere@ =~= Seq::empty());
    let top = Visit { path: nowhere, facts: &root.facts };
    let mut seen: Vec<String> = Vec::new();
    match element_summary(&top) {
        Ok(text) => {
            seen.push(text);
        },
        Err(e) => {
            return Err(e);
        },
    }
    assert(texts(seen@) =~= element_texts(seq![top@]));
    let none: Vec<String> = Vec::new();
    assert(texts(none@) =~= Seq::empty());
    let element = match find_element_by_path(root, path) {
        Ok(element) => element,
        Err(e) => {
            if has_failure_kind(&e, FailureKind::NotFound) {
                let found = semantic_search_diagnostics(target, accessibility, &none, &seen);
                return Err(
                    make_search_error(
                        "requested semantic target was not found",
                        FailureKind::NotFound,
                        "failureKind=notFound; ",
                        &found,
                    ),
                );
            }
            return Err(e);
        },
    };
    let here = Visit { path: copy_u32s(path), facts: &element.facts };
    let ghost here_view = here@;
    match ensure_matchable(&here, accessibility) {
        Ok(_) => {},
        Err(e) => {
            return Err(e);
        },
    }
    match element_summary(&here) {
        Ok(text) => {
            let ghost before = texts(seen@);
            let ghost added = text@;
            seen.push(text);
            assert(texts(seen@) =~= before.push(added));
        },
        Err(e) => {
            return Err(e);
        },
    }
    assert(texts(seen@) =~= element_texts(seq![top@, here_view]));
    if accessibility_matches(&here, accessibility) {
        assert(seq![here_view][0] == here_view);
        return Ok(copy_u32s(path));
    }
    let found = semantic_search_diagnostics(target, accessibility, &none, &seen);
    Err(
        make_search_error(
            "requested semantic target was not found",
            FailureKind::NotFound,
            "failureKind=notFound; ",
            &found,
        ),
    )
}

/// What a target asks of an element, without which none can be searched for.
pub fn semantic_selector(target: &Target) -> (r: Result<&AccessibilityTarget, AdapterError>)
    ensures
        match r {
            Ok(accessibility) => target@.accessibility == Some(accessibility@),
            Err(e) => target@.accessibility is None && e@ == plain_error(
                RunErrorKind::Unsupported,
                "semantic target operations require an accessibility selector"@,
            ),
        },
{
    match &target.accessibility {
        Some(accessibility) => Ok(accessibility),
        None => Err(
            AdapterError::unsupported(
                "semantic target operations require an accessibility selector".to_owned(),
            ),
        ),
    }
}

/// The window that an element is searched in: the target without what it asks of the element.
pub fn semantic_window_target(target: &Target) -> (r: Target)
    ensures
        r@ == (TargetView { accessibility: None, ..target@ }),
{
    let mut window_target = target.clone();
    proof {
        target.clone_keeps_view(&window_target);
    }
    window_target.accessibility = None;
    window_target
}

/// Finds the one element that a target asks for, and gives its path.
pub fn find_semantic_target(target: &Target, root: &Element) -> (r: Result<Vec<u32>, AdapterError>)
    ensures
        match r {
            Ok(path) => semantic_search(target@, *root) == Ok::<Seq<u32>, AdapterErrorView>(path@),
            Err(e) => semantic_search(target@, *root) == Err::<Seq<u32>, AdapterErrorView>(e@),
        },
{
    let accessibility = match semantic_selector(target) {
        Ok(accessibility) => accessibility,
        Err(e) => {
            return Err(e);
        },
    };
    match &accessibility.path {
        Some(path) => find_on_path(target, accessibility, root, path),
        None => find_element(target, accessibility, root),
    }
}

/// Whether an error says that an element is not there.
pub fn is_target_absent(error: &AdapterError) -> (r: bool)
    ensures
        r == (error@.failure_kind == Some(FailureKind::NotFound)),
{
    has_failure_kind(error, FailureKind::NotFound)
}

/// Errors that may go away: those marked so, and those of reading an element, which say nothing of
/// the circumstances.
pub open spec fn passing(e: AdapterErrorView) -> bool {
    e.failure_kind == Some(FailureKind::Transient) || (e.diagnostics is None && begins_with(
        e.message,
        "Windows could "@,
    ))
}

pub fn is_transient_readiness_error(error: &AdapterError) -> (r: bool)
    ensures
        r == passing(error@),
{
    has_failure_kind(error, FailureKind::Transient) || (error.diagnostics().is_none()
        && starts_with(error.message(), "Windows could "))
}

/// What an element that was looked for says of a state: one that is not there, or cannot be read
/// just now, is not in it.
pub fn semantic_target_readiness(found: Result<bool, AdapterError>) -> (r: Result<bool, AdapterError>)
    ensures
        match found {
            Ok(state) => r == Ok::<bool, AdapterError>(state),
            Err(e) => if e@.failure_kind == Some(FailureKind::NotFound) || passing(e@) {
                r == Ok::<bool, AdapterError>(false)
            } else {
                r == Err::<bool, AdapterError>(e)
            },
        },
{
    match found {
        Ok(state) => Ok(state),
        Err(e) => if is_target_absent(&e) || is_transient_readiness_error(&e) {
            Ok(false)
        } else {
            Err(e)
        },
    }
}

/// Whether an element that was looked for exists.
pub fn semantic_target_exists(found: Result<Vec<u32>, AdapterError>) -> (r: Result<
    bool,
    AdapterError,
>)
    ensures
        match found {
            Ok(_) => r == Ok::<bool, AdapterError>(true),
            Err(e) => if e@.failure_kind == Some(FailureKind::NotFound) {
                r == Ok::<bool, AdapterError>(false)
            } else {
                r == Err::<bool, AdapterError>(e)
            },
        },
{
    match found {
        Ok(_) => Ok(true),
        Err(e) => if is_target_absent(&e) {
            Ok(false)
        } else {
            Err(e)
        },
    }
}

pub open spec fn state_error(message: Seq<char>, kind: FailureKind, source: Seq<char>) -> AdapterErrorView {
    AdapterErrorView {
        message,
        kind: RunErrorKind::Adapter,
        diagnostics: Some(source),
        failure_kind: Some(kind),
    }
}

/// Why nothing can be done to an element, if so: it has to be enabled, on the screen, and of some
/// size.
pub open spec fn not_actionable(f: ElementFactsView) -> Option<AdapterErrorView> {
    if f.enabled is None {
        Some(
            plain_error(
                RunErrorKind::Adapter,
                "Windows could not verify target enabled state"@,
            ),
        )
    } else if f.enabled == Some(false) {
        Some(
            state_error(
                "semantic target is disabled"@,
                FailureKind::Disabled,
                "failureKind=disabled"@,
            ),
        )
    } else if f.offscreen is None {
        Some(
            plain_error(
                RunErrorKind::Adapter,
                "Windows could not verify target visibility state"@,
            ),
        )
    } else if f.offscreen == Some(true) {
        Some(
            state_error(
                "semantic target is offscreen"@,
                FailureKind::Offscreen,
                "failureKind=offscreen"@,
            ),
        )
    } else {
        match f.bounds {
            None => Some(
                plain_error(RunErrorKind::Adapter, "Windows could not verify target bounds"@),
            ),
            Some(b) => if has_area(b) {
                None
            } else {
                Some(
                    state_error(
                        "semantic target has empty bounds"@,
                        FailureKind::Offscreen,
                        "failureKind=offscreen; bounds=empty"@,
                    ),
                )
            },
        }
    }
}

fn make_state_error(message: &str, kind: FailureKind, source: &str) -> (r: AdapterError)
    ensures
        r@ == state_error(message@, kind, source@),
{
    AdapterError::new(owned(message)).with_failure_kind(kind).with_source(owned(source))
}

/// Refuses to do anything to an element that is disabled, off the screen or of no size.
pub fn ensure_semantic_target_actionable(facts: &ElementFacts) -> (r: Result<(), AdapterError>)
    ensures
        match r {
            Ok(_) => not_actionable(facts@) is None,
            Err(e) => not_actionable(facts@) == Some(e@),
        },
{
    match facts.enabled {
        None => {
            return Err(read_error("Windows could not verify target enabled state"));
        },
        Some(false) => {
            return Err(
                make_state_error(
                    "semantic target is disabled",
                    FailureKind::Disabled,
                    "failureKind=disabled",
                ),
            );
        },
        Some(true) => {},
    }
    match facts.offscreen {
        None => {
            return Err(read_error("Windows could not verify target visibility state"));
        },
        Some(true) => {
            return Err(
                make_state_error(
                    "semantic target is offscreen",
                    FailureKind::Offscreen,
                    "failureKind=offscreen",
                ),
            );
        },
        Some(false) => {},
    }
    match facts.bounds {
        None => Err(read_error("Windows could not verify target bounds")),
        Some(b) => if non_empty_bounds(b) {
            Ok(())
        } else {
            Err(
                make_state_error(
                    "semantic target has empty bounds",
                    FailureKind::Offscreen,
                    "failureKind=offscreen; bounds=empty",
                ),
            )
        },
    }
}

/// Whether something could be done to an element: it is on the screen, and it is a window, or it
/// is of some size and enabled. An element that does not say whether it is on the screen, of which
/// kind it is, where it is, or whether it is enabled cannot be read.
pub open spec fn actionable(f: ElementFactsView) -> Result<bool, Seq<char>> {
    if f.offscreen is None {
        Err("Windows could read semantic target visibility state"@)
    } else if f.offscreen == Some(true) {
        Ok(false)
    } else if f.control_type is None {
        Err("Windows could read semantic target control type"@)
    } else if same_but_case(normalized(f.control_type->0), "window"@) {
        Ok(true)
    } else if f.bounds is None {
        Err("Windows could read semantic target bounds"@)
    } else if !has_area(f.bounds->0) {
        Ok(false)
    } else if f.enabled is None {
        Err("Windows could read semantic target enabled state"@)
    } else {
        Ok(f.enabled->0)
    }
}

pub fn semantic_target_actionable(facts: &ElementFacts) -> (r: Result<bool, AdapterError>)
    ensures
        match r {
            Ok(state) => actionable(facts@) == Ok::<bool, Seq<char>>(state),
            Err(e) => actionable(facts@) matches Err(message) && e@ == plain_error(
                RunErrorKind::Adapter,
                message,
            ),
        },
{
    match facts.offscreen {
        None => {
            return Err(read_error("Windows could read semantic target visibility state"));
        },
        Some(true) => {
            return Ok(false);
        },
        Some(false) => {},
    }
    let kind = match &facts.control_type {
        None => {
            return Err(read_error("Windows could read semantic target control type"));
        },
        Some(kind) => kind,
    };
    if eq_ignore_ascii_case(normalize_window_title(kind.as_str()).as_str(), "window") {
        return Ok(true);
    }
    match facts.bounds {
        None => {
            return Err(read_error("Windows could read semantic target bounds"));
        },
        Some(b) => {
            if !non_empty_bounds(b) {
                return Ok(false);
            }
        },
    }
    match facts.enabled {
        Some(enabled) => Ok(enabled),
        None => Err(read_error("Windows could read semantic target enabled state")),
    }
}

pub fn semantic_target_focused(facts: &ElementFacts) -> (r: Result<bool, AdapterError>)
    ensures
        match facts@.has_keyboard_focus {
            Some(state) => r == Ok::<bool, AdapterError>(state),
            None => r matches Err(e) && e@ == plain_error(
                RunErrorKind::Adapter,
                "Windows could read semantic target focus state"@,
            ),
        },
{
    match facts.has_keyboard_focus {
        Some(state) => Ok(state),
        None => Err(read_error("Windows could read semantic target focus state")),
    }
}

pub fn semantic_target_enabled(facts: &ElementFacts) -> (r: Result<bool, AdapterError>)
    ensures
        match facts@.enabled {
            Some(state) => r == Ok::<bool, AdapterError>(state),
            None => r matches Err(e) && e@ == plain_error(
                RunErrorKind::Adapter,
                "Windows could read semantic target enabled state"@,
            ),
        },
{
    match facts.enabled {
        Some(state) => Ok(state),
        None => Err(read_error("Windows could read semantic target enabled state")),
    }
}

pub fn semantic_target_visible(facts: &ElementFacts) -> (r: Result<bool, AdapterError>)
    ensures
        match facts@.offscreen {
            Some(offscreen) => r == Ok::<bool, AdapterError>(!offscreen),
            None => r matches Err(e) && e@ == plain_error(
                RunErrorKind::Adapter,
                "Windows could read semantic target visibility state"@,
            ),
        },
{
    match facts.offscreen {
        Some(offscreen) => Ok(!offscreen),
        None => Err(read_error("Windows could read semantic target visibility state")),
    }
}

pub fn semantic_target_name_contains(facts: &ElementFacts, text: &str) -> (r: Result<
    bool,
    AdapterError,
>)
    ensures
        match facts@.name {
            Some(name) => r == Ok::<bool, AdapterError>(contains_text(name, text@)),
            None => r matches Err(e) && e@ == plain_error(
                RunErrorKind::Adapter,
                "Windows could read semantic target name"@,
            ),
        },
{
    match &facts.name {
        Some(name) => Ok(contains(name.as_str(), text)),
        None => Err(read_error("Windows could read semantic target name")),
    }
}

/// Whether the value of an element holds a text. A password field shows no value.
pub fn semantic_target_value_contains(facts: &ElementFacts, text: &str) -> (r: bool)
    ensures
        r == (facts@.password != Some(true) && (facts@.value matches Some(value) && contains_text(
            value,
            text@,
        ))),
{
    let secret = match facts.password {
        Some(password) => password,
        None => false,
    };
    match &facts.value {
        Some(value) => !secret && contains(value.as_str(), text),
        None => false,
    }
}

} // verus!
