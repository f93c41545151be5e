//! Finding an element of a macOS window.
use vstd::prelude::*;
use crate::accessibility::{has_area, non_empty_bounds};
use crate::adapter::{plain_error, AdapterError, AdapterErrorView};
use crate::definition::{AccessibilityTarget, AccessibilityTargetView, Target, TargetView};
use crate::elements::{child_index, Element, ElementFacts, ElementFactsView};
use crate::run::{FailureKind, RunErrorKind};
use crate::text::{
    concat3, contains, contains_text, decimal, eq_ignore_ascii_case, format_u64, lowercase,
    lowercase_of, same_but_case, same_text,
};
use crate::views::copy_u32s;
use crate::windows::search::{element_at, SEMANTIC_SEARCH_MAX_DEPTH, SEMANTIC_SEARCH_MAX_NODES};

verus! {

/// Whether an element is the one that a selector asks for: with the same identifier and name, and
/// of the kind that is asked for by role, by finer role, or by both.
pub open spec fn element_fits(f: ElementFactsView, d: AccessibilityTargetView) -> bool {
    &&& d.id matches Some(id) ==> f.automation_id == Some(id)
    &&& d.name matches Some(name) ==> crate::elements::or_empty(f.name) == name
    &&& d.control_type matches Some(kind) ==> same_but_case(f.class_name, kind) || same_but_case(
        f.subrole,
        kind,
    ) || same_but_case(f.class_name + ":"@ + f.subrole, kind)
}

pub fn element_matches(facts: &ElementFacts, desired: &AccessibilityTarget) -> (r: bool)
    ensures
        r == element_fits(facts@, desired@),
{
    if let Some(id) = &desired.id {
        match &facts.automation_id {
            Some(own) => {
                if !same_text(own.as_str(), id.as_str()) {
                    return false;
                }
            },
            None => {
                return false;
            },
        }
    }
    if let Some(name) = &desired.name {
        let own = crate::elements::text_or_empty(&facts.name);
        if !same_text(own.as_str(), name.as_str()) {
            return false;
        }
    }
    if let Some(kind) = &desired.control_type {
        let both = concat3(facts.class_name.as_str(), ":", facts.subrole.as_str());
        if !eq_ignore_ascii_case(facts.class_name.as_str(), kind.as_str())
            && !eq_ignore_ascii_case(facts.subrole.as_str(), kind.as_str())
            && !eq_ignore_ascii_case(both.as_str(), kind.as_str()) {
            return false;
        }
    }
    true
}

/// The elements that a selector asks for, by their paths, and how many more may be visited.
pub struct Found {
    pub paths: Seq<Seq<u32>>,
    pub left: nat,
}

/// The search in an element and what is inside it, each element before what is inside it, down to
/// the last level. There is no result where more elements would have to be visited than may be.
pub open spec fn found_in(
    e: Element,
    d: AccessibilityTargetView,
    path: Seq<u32>,
    depth: nat,
    left: nat,
) -> Option<Found>
    decreases e, 0nat,
{
    let own = if element_fits(e.facts@, d) {
        seq![path]
    } else {
        Seq::empty()
    };
    if left == 0 {
        None
    } else if depth == 0 || e.children is Err {
        Some(Found { paths: own, left: (left - 1) as nat })
    } else {
        match found_in_children(
            e.children->Ok_0@,
            e.children->Ok_0@.len(),
            d,
            path,
            (depth - 1) as nat,
            (left - 1) as nat,
        ) {
            None => None,
            Some(inside) => Some(Found { paths: own + inside.paths, left: inside.left }),
        }
    }
}

pub open spec fn found_in_children(
    children: Seq<Option<Element>>,
    n: nat,
    d: AccessibilityTargetView,
    path: Seq<u32>,
    depth: nat,
    left: nat,
) -> Option<Found>
    decreases children, n,
{
    if n == 0 || n > children.len() {
        Some(Found { paths: Seq::empty(), left })
    } else {
        match found_in_children(children, (n - 1) as nat, d, path, depth, left) {
            None => None,
            Some(before) => match children[n - 1] {
                None => Some(before),
                Some(child) => match found_in(
                    child,
                    d,
                    path.push((n - 1) as u32),
                    depth,
                    before.left,
                ) {
                    None => None,
                    Some(one) => Some(
                        Found { paths: before.paths + one.paths, left: one.left },
                    ),
                },
            },
        }
    }
}

pub open spec fn paths_view(paths: Seq<Vec<u32>>) -> Seq<Seq<u32>> {
    paths.map_values(|p: Vec<u32>| p@)
}

fn collect_matches(
    element: &Element,
    desired: &AccessibilityTarget,
    path: &Vec<u32>,
    depth: u32,
    left: &mut usize,
    paths: &mut Vec<Vec<u32>>,
) -> (r: bool)
    ensures
        match found_in(*element, desired@, path@, depth as nat, *old(left) as nat) {
            Some(found) => r && *final(left) == found.left && paths_view(final(paths)@)
                == paths_view(old(paths)@) + found.paths,
            None => !r,
        },
    decreases element,
{
    let ghost start = paths_view(paths@);
    let ghost d = desired@;
    if *left == 0 {
        return false;
    }
    *left = *left - 1;
    let ghost own = if element_fits(element.facts@, d) {
        seq![path@]
    } else {
        Seq::<Seq<u32>>::empty()
    };
    if element_matches(&element.facts, desired) {
        paths.push(copy_u32s(path));
        assert(paths_view(paths@) =~= start + own);
    } else {
        assert(paths_view(paths@) =~= start + own);
    }
    if depth == 0 {
        return true;
    }
    let children = match &element.children {
        Err(_) => {
            return true;
        },
        Ok(children) => children,
    };
    assert(decreases_to!(element => children@));
    let done = collect_child_matches(children, desired, path, depth - 1, left, paths);
    proof {
        let inside = found_in_children(
            children@,
            children@.len(),
            d,
            path@,
            (depth - 1) as nat,
            (*old(left) - 1) as nat,
        );
        if inside is Some {
            assert((start + own) + inside->0.paths =~= start + (own + inside->0.paths));
        }
    }
    done
}

fn collect_child_matches(
    children: &Vec<Option<Element>>,
    desired: &AccessibilityTarget,
    path: &Vec<u32>,
    depth: u32,
    left: &mut usize,
    paths: &mut Vec<Vec<u32>>,
) -> (r: bool)
    ensures
        match found_in_children(
            children@,
            children@.len(),
            desired@,
            path@,
            depth as nat,
            *old(left) as nat,
        ) {
            Some(found) => r && *final(left) == found.left && paths_view(final(paths)@)
                == paths_view(old(paths)@) + found.paths,
            None => !r,
        },
    decreases children@,
{
    let ghost all = children@;
    let ghost d = desired@;
    let ghost start = paths_view(paths@);
    let ghost start_left = *left as nat;
    let mut i: usize = 0;
    assert(start + Seq::<Seq<u32>>::empty() =~= start);
    while i < children.len()
        invariant
            i <= children@.len(),
            all == children@,
            d == desired@,
            found_in_children(all, i as nat, d, path@, depth as nat, start_left) is Some,
            *left == found_in_children(
                all,
                i as nat,
                d,
                path@,
                depth as nat,
                start_left,
            )->0.left,
            paths_view(paths@) == start + found_in_children(
                all,
                i as nat,
                d,
                path@,
                depth as nat,
                start_left,
            )->0.paths,
            start_left == *old(left),
        decreases children@.len() - i,
    {
        let ghost so_far = found_in_children(all, i as nat, d, path@, depth as nat, start_left)->0;
        assert(decreases_to!(children@ => children@[i as int]));
        if let Some(child) = &children[i] {
            let mut child_path = copy_u32s(path);
            child_path.push(child_index(i));
            assert(child_path@ =~= path@.push(i as u32));
            assert(all[i as int] == Some(*child));
            assert(decreases_to!(children@[i as int] => children@[i as int]->0));
            if !collect_matches(child, desired, &child_path, depth, left, paths) {
                proof {
                    children_stop(
                        all,
                        (i + 1) as nat,
                        all.len(),
                        d,
                        path@,
                        depth as nat,
                        start_left,
                    );
                }
                return false;
            }
            proof {
                let one = found_in(*child, d, child_path@, depth as nat, so_far.left)->0;
                assert((start + so_far.paths) + one.paths =~= start + (so_far.paths + one.paths));
            }
        }
        i = i + 1;
    }
    true
}

proof fn children_stop(
    children: Seq<Option<Element>>,
    n: nat,
    m: nat,
    d: AccessibilityTargetView,
    path: Seq<u32>,
    depth: nat,
    left: nat,
)
    requires
        n <= m <= children.len(),
        found_in_children(children, n, d, path, depth, left) is None,
    ensures
        found_in_children(children, m, d, path, depth, left) is None,
    decreases m,
{
    if n < m {
        children_stop(children, n, (m - 1) as nat, d, path, depth, left);
    }
}

pub open spec fn marked(message: Seq<char>, kind: FailureKind) -> AdapterErrorView {
    AdapterErrorView {
        message,
        kind: RunErrorKind::Adapter,
        diagnostics: None,
        failure_kind: Some(kind),
    }
}

pub open spec fn not_found() -> AdapterErrorView {
    marked("macOS could not find the requested semantic target"@, FailureKind::NotFound)
}

pub fn semantic_target_not_found() -> (r: AdapterError)
    ensures
        r@ == not_found(),
{
    AdapterError::new(
        "macOS could not find the requested semantic target".to_owned(),
    ).with_failure_kind(FailureKind::NotFound)
}

/// What a search comes to. A selector with a path is followed; any other has to fit exactly one
/// element.
pub open spec fn semantic_search(t: TargetView, root: Element) -> Result<
    Seq<u32>,
    AdapterErrorView,
> {
    match t.accessibility {
        None => Err(
            plain_error(
                RunErrorKind::Unsupported,
                "semantic targets require an accessibility selector"@,
            ),
        ),
        Some(d) => match d.path {
            Some(path) => if element_at(root, path) is Some {
                Ok(path)
            } else {
                Err(not_found())
            },
            None => match found_in(
                root,
                d,
                Seq::empty(),
                SEMANTIC_SEARCH_MAX_DEPTH as nat,
                SEMANTIC_SEARCH_MAX_NODES as nat,
            ) {
                None => Err(
                    marked(
                        "macOS semantic search exceeded the node limit"@,
                        FailureKind::TruncatedSearch,
                    ),
                ),
                Some(found) => if found.paths.len() == 1 {
                    Ok(found.paths[0])
                } else if found.paths.len() == 0 {
                    Err(not_found())
                } else {
                    Err(
                        AdapterErrorView {
                            diagnostics: Some(
                                "matched "@ + decimal(found.paths.len()) + " accessibility elements"@,
                            ),
                            ..marked(
                                "macOS found multiple semantic targets matching the selector"@,
                                FailureKind::Ambiguous,
                            )
                        },
                    )
                },
            },
        },
    }
}

/// What a target asks of an element, without which none can be searched for.
pub fn semantic_selector(target: &Target) -> (r: Result<&AccessibilityTarget, AdapterError>)
    ensures
        match r {
            Ok(desired) => target@.accessibility == Some(desired@),
            Err(e) => target@.accessibility is None && e@ == plain_error(
                RunErrorKind::Unsupported,
                "semantic targets require an accessibility selector"@,
            ),
        },
{
    match &target.accessibility {
        Some(desired) => Ok(desired),
        None => Err(
            AdapterError::unsupported(
                "semantic targets require an accessibility selector".to_owned(),
            ),
        ),
    }
}

/// Finds the one element that a target asks for, and gives its path.
pub fn find_semantic_target(target: &Target, root: &Element) -> (r: Result<Vec<u32>, AdapterError>)
    ensures
        match r {
            Ok(path) => semantic_search(target@, *root) == Ok::<Seq<u32>, AdapterErrorView>(path@),
            Err(e) => semantic_search(target@, *root) == Err::<Seq<u32>, AdapterErrorView>(e@),
        },
{
    let desired = match semantic_selector(target) {
        Ok(desired) => desired,
        Err(e) => {
            return Err(e);
        },
    };
    if let Some(path) = &desired.path {
        return match crate::windows::search::find_element_by_path(root, path) {
            Ok(_) => Ok(copy_u32s(path)),
            Err(_) => Err(semantic_target_not_found()),
        };
    }
    let top: Vec<u32> = Vec::new();
    assert(top@ =~= Seq::empty());
    let mut left: usize = SEMANTIC_SEARCH_MAX_NODES;
    let mut paths: Vec<Vec<u32>> = Vec::new();
    assert(paths_view(paths@) =~= Seq::empty());
    if !collect_matches(
        root,
        desired,
        &top,
        SEMANTIC_SEARCH_MAX_DEPTH,
        &mut left,
        &mut paths,
    ) {
        return Err(
            AdapterError::new(
                "macOS semantic search exceeded the node limit".to_owned(),
            ).with_failure_kind(FailureKind::TruncatedSearch),
        );
    }
    let ghost found = found_in(
        *root,
        desired@,
        Seq::empty(),
        SEMANTIC_SEARCH_MAX_DEPTH as nat,
        SEMANTIC_SEARCH_MAX_NODES as nat,
    )->0;
    assert(paths_view(paths@) =~= found.paths);
    assert(paths@.len() == found.paths.len());
    if paths.len() == 1 {
        assert(found.paths[0] == paths@[0]@);
        return Ok(copy_u32s(&paths[0]));
    }
    if paths.len() == 0 {
        return Err(semantic_target_not_found());
    }
    Err(
        AdapterError::new(
            "macOS found multiple semantic targets matching the selector".to_owned(),
        ).with_failure_kind(FailureKind::Ambiguous).with_source(
            concat3("matched ", format_u64(paths.len() as u64).as_str(), " accessibility elements"),
        ),
    )
}

/// Why nothing can be done to an element, if so.
pub open spec fn not_actionable(f: ElementFactsView) -> Option<AdapterErrorView> {
    if f.enabled == Some(false) {
        Some(marked("macOS semantic target is disabled"@, FailureKind::Disabled))
    } else if f.bounds is None || !has_area(f.bounds->0) {
        Some(
            marked(
                "macOS semantic target is offscreen or has empty bounds"@,
                FailureKind::Offscreen,
            ),
        )
    } else {
        None
    }
}

/// Refuses to do anything to an element that is disabled or of no size.
pub fn ensure_semantic_target_actionable(facts: &ElementFacts) -> (r: Result<(), AdapterError>)
    ensures
        match r {
            Ok(_) => not_actionable(facts@) is None,
            Err(e) => not_actionable(facts@) == Some(e@),
        },
{
    if let Some(false) = facts.enabled {
        return Err(
            AdapterError::new("macOS semantic target is disabled".to_owned()).with_failure_kind(
                FailureKind::Disabled,
            ),
        );
    }
    let sized = match facts.bounds {
        Some(b) => non_empty_bounds(b),
        None => false,
    };
    if !sized {
        return Err(
            AdapterError::new(
                "macOS semantic target is offscreen or has empty bounds".to_owned(),
            ).with_failure_kind(FailureKind::Offscreen),
        );
    }
    Ok(())
}

/// What an element that was looked for says of a state: one that is not there is not in it.
pub fn semantic_target_readiness(found: Result<bool, AdapterError>) -> (r: Result<bool, AdapterError>)
    ensures
        match found {
            Ok(state) => r == Ok::<bool, AdapterError>(state),
            Err(e) => if e@.failure_kind == Some(FailureKind::NotFound) {
                r == Ok::<bool, AdapterError>(false)
            } else {
                r == Err::<bool, AdapterError>(e)
            },
        },
{
    match found {
        Ok(state) => Ok(state),
        Err(e) => if crate::windows::titles::has_failure_kind(&e, FailureKind::NotFound) {
            Ok(false)
        } else {
            Err(e)
        },
    }
}

pub fn semantic_target_focused(facts: &ElementFacts) -> (r: bool)
    ensures
        r == (facts@.has_keyboard_focus == Some(true)),
{
    match facts.has_keyboard_focus {
        Some(focused) => focused,
        None => false,
    }
}

/// An element that does not say otherwise is enabled.
pub fn semantic_target_enabled(facts: &ElementFacts) -> (r: bool)
    ensures
        r == (facts@.enabled != Some(false)),
{
    match facts.enabled {
        Some(enabled) => enabled,
        None => true,
    }
}

pub fn semantic_target_visible(facts: &ElementFacts) -> (r: bool)
    ensures
        r == (facts@.bounds is Some && has_area(facts@.bounds->0)),
{
    match facts.bounds {
        Some(b) => non_empty_bounds(b),
        None => false,
    }
}

pub fn semantic_target_actionable(facts: &ElementFacts) -> (r: bool)
    ensures
        r == (facts@.enabled != Some(false) && facts@.bounds is Some && has_area(facts@.bounds->0)),
{
    semantic_target_enabled(facts) && semantic_target_visible(facts)
}

/// Whether the name of an element holds a text, whatever the case.
pub fn semantic_target_name_contains(facts: &ElementFacts, text: &str) -> (r: bool)
    ensures
        r == contains_text(
            lowercase_of(crate::elements::or_empty(facts@.name)),
            lowercase_of(text@),
        ),
{
    let name = crate::elements::text_or_empty(&facts.name);
    contains(lowercase(name.as_str()).as_str(), lowercase(text).as_str())
}

/// Whether the value of an element holds a text, whatever the case.
pub fn semantic_target_value_contains(facts: &ElementFacts, text: &str) -> (r: bool)
    ensures
        r == contains_text(
            lowercase_of(crate::elements::or_empty(facts@.value)),
            lowercase_of(text@),
        ),
{
    let value = crate::elements::text_or_empty(&facts.value);
    contains(lowercase(value.as_str()).as_str(), lowercase(text).as_str())
}

} // verus!
