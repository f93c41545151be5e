//! Ways to select an element, and what can take the place of a selector that no longer works.
use vstd::prelude::*;
use crate::accessibility::{
    node_children, AccessibilityNode, AccessibilitySelectorCandidate,
    AccessibilitySelectorCandidateView, AccessibilityTree, NodeView, SelectorConfidence,
    SelectorRepairReport,
};
use crate::adapter::AdapterError;
use crate::definition::{
    AccessibilityTarget, AccessibilityTargetView, ImageTarget, Platform, PlatformSelector,
    PlatformSelectors, Target, TargetView,
};
use crate::describe::{
    bool_text, format_bool, format_optional_path, opt_path_text, quote, quoted, QuoteStyle,
};
use crate::platform::empty_target;
use crate::text::{
    concat5, decimal, eq_ignore_ascii_case, format_u64, opt_text, owned, same_but_case, same_text,
    texts,
};
use crate::views::{copy_u32s, opt_view, views};

verus! {

pub open spec fn one_text(text: Seq<char>) -> Seq<Seq<char>> {
    seq![text]
}

fn single(text: &str) -> (r: Vec<String>)
    ensures
        texts(r@) == one_text(text@),
{
    let mut r: Vec<String> = Vec::new();
    r.push(owned(text));
    assert(texts(r@) =~= one_text(text@));
    r
}

fn no_texts() -> (r: Vec<String>)
    ensures
        texts(r@) == Seq::<Seq<char>>::empty(),
{
    let r: Vec<String> = Vec::new();
    assert(texts(r@) =~= Seq::empty());
    r
}

/// A target that is an element, in a window of the given title.
pub open spec fn element_target(title: Option<Seq<char>>, accessibility: AccessibilityTargetView) -> TargetView {
    TargetView { window_title: title, accessibility: Some(accessibility), ..empty_target() }
}

fn make_element_target(title: Option<String>, accessibility: AccessibilityTarget) -> (r: Target)
    ensures
        r@ == element_target(opt_text(title), accessibility@),
{
    Target {
        app_name: None,
        process_name: None,
        window_title: title,
        title_contains: None,
        url: None,
        file_path: None,
        accessibility: Some(accessibility),
        image: None,
        coordinates: None,
        platform_selectors: PlatformSelectors::new(),
    }
}

/// What is known of an element when selectors for it are made.
pub struct Described {
    pub path: Seq<u32>,
    pub automation_id: Seq<char>,
    pub name: Seq<char>,
    pub control_type: Seq<char>,
}

pub open spec fn when(
    condition: bool,
    candidate: AccessibilitySelectorCandidateView,
) -> Seq<AccessibilitySelectorCandidateView> {
    if condition {
        seq![candidate]
    } else {
        Seq::empty()
    }
}

fn add_when(
    candidates: &mut Vec<AccessibilitySelectorCandidate>,
    condition: bool,
    candidate: AccessibilitySelectorCandidate,
)
    ensures
        views(final(candidates)@) == views(old(candidates)@) + when(condition, candidate@),
{
    let ghost before = views(candidates@);
    let ghost added = candidate@;
    if condition {
        candidates.push(candidate);
        assert(views(candidates@) =~= before + seq![added]);
    } else {
        assert(before + Seq::<AccessibilitySelectorCandidateView>::empty() =~= before);
    }
}

pub open spec fn given_text(text: Seq<char>) -> Option<Seq<char>> {
    if text.len() == 0 {
        None
    } else {
        Some(text)
    }
}

/// Selectors for an element of a Windows window, the most stable first.
pub open spec fn windows_candidates(title: Seq<char>, d: Described) -> Seq<
    AccessibilitySelectorCandidateView,
> {
    when(
        d.automation_id.len() > 0 && d.control_type.len() > 0,
        AccessibilitySelectorCandidateView {
            confidence: SelectorConfidence::High,
            score: 95,
            target: element_target(
                Some(title),
                AccessibilityTargetView {
                    id: Some(d.automation_id),
                    name: None,
                    control_type: Some(d.control_type),
                    path: None,
                },
            ),
            rationale: "Automation id plus control type is usually the most stable UIA selector."@,
            changes: Seq::empty(),
            warnings: Seq::empty(),
        },
    ) + when(
        d.automation_id.len() > 0,
        AccessibilitySelectorCandidateView {
            confidence: SelectorConfidence::High,
            score: 90,
            target: element_target(
                Some(title),
                AccessibilityTargetView {
                    id: Some(d.automation_id),
                    name: None,
                    control_type: None,
                    path: None,
                },
            ),
            rationale: "Automation id is stable when the application provides it."@,
            changes: Seq::empty(),
            warnings: Seq::empty(),
        },
    ) + when(
        d.name.len() > 0 && d.control_type.len() > 0,
        AccessibilitySelectorCandidateView {
            confidence: SelectorConfidence::Medium,
            score: 70,
            target: element_target(
                Some(title),
                AccessibilityTargetView {
                    id: None,
                    name: Some(d.name),
                    control_type: Some(d.control_type),
                    path: None,
                },
            ),
            rationale:
                "Name plus control type is readable but can change with localization or content."@,
            changes: Seq::empty(),
            warnings: one_text(
                "Name selectors can change with UI text, localization, or user data."@,
            ),
        },
    ) + when(
        d.path.len() > 0,
        AccessibilitySelectorCandidateView {
            confidence: SelectorConfidence::Low,
            score: 45,
            target: element_target(
                Some(title),
                AccessibilityTargetView {
                    id: None,
                    name: None,
                    control_type: given_text(d.control_type),
                    path: Some(d.path),
                },
            ),
            rationale:
                "Path can target elements without names or ids, but sibling insertions can shift it."@,
            changes: Seq::empty(),
            warnings: one_text(
                "Path-only selectors are positional and should be treated as fragile."@,
            ),
        },
    )
}

fn text_if_given(text: &str) -> (r: Option<String>)
    ensures
        opt_text(r) == given_text(text@),
{
    if text.unicode_len() == 0 {
        None
    } else {
        Some(owned(text))
    }
}

/// Selectors for an element of a Windows window, the most stable first.
pub fn selector_candidates(
    window_title: &str,
    path: &Vec<u32>,
    automation_id: &str,
    name: &str,
    control_type: &str,
) -> (r: Vec<AccessibilitySelectorCandidate>)
    ensures
        views(r@) == windows_candidates(
            window_title@,
            (Described {
                path: path@,
                automation_id: automation_id@,
                name: name@,
                control_type: control_type@,
            }),
        ),
{
    let has_id = automation_id.unicode_len() > 0;
    let has_name = name.unicode_len() > 0;
    let has_type = control_type.unicode_len() > 0;
    let mut candidates: Vec<AccessibilitySelectorCandidate> = Vec::new();
    assert(views(candidates@) =~= Seq::empty());
    add_when(
        &mut candidates,
        has_id && has_type,
        AccessibilitySelectorCandidate {
            confidence: SelectorConfidence::High,
            score: 95,
            target: make_element_target(
                Some(owned(window_title)),
                AccessibilityTarget {
                    id: Some(owned(automation_id)),
                    name: None,
                    control_type: Some(owned(control_type)),
                    path: None,
                },
            ),
            rationale: owned(
                "Automation id plus control type is usually the most stable UIA selector.",
            ),
            changes: no_texts(),
            warnings: no_texts(),
        },
    );
    add_when(
        &mut candidates,
        has_id,
        AccessibilitySelectorCandidate {
            confidence: SelectorConfidence::High,
            score: 90,
            target: make_element_target(
                Some(owned(window_title)),
                AccessibilityTarget {
                    id: Some(owned(automation_id)),
                    name: None,
                    control_type: None,
                    path: None,
                },
            ),
            rationale: owned("Automation id is stable when the application provides it."),
            changes: no_texts(),
            warnings: no_texts(),
        },
    );
    add_when(
        &mut candidates,
        has_name && has_type,
        AccessibilitySelectorCandidate {
            confidence: SelectorConfidence::Medium,
            score: 70,
            target: make_element_target(
                Some(owned(window_title)),
                AccessibilityTarget {
                    id: None,
                    name: Some(owned(name)),
                    control_type: Some(owned(control_type)),
                    path: None,
                },
            ),
            rationale: owned(
                "Name plus control type is readable but can change with localization or content.",
            ),
            changes: no_texts(),
            warnings: single(
                "Name selectors can change with UI text, localization, or user data.",
            ),
        },
    );
    add_when(
        &mut candidates,
        path.len() > 0,
        AccessibilitySelectorCandidate {
            confidence: SelectorConfidence::Low,
            score: 45,
            target: make_element_target(
                Some(owned(window_title)),
                AccessibilityTarget {
                    id: None,
                    name: None,
                    control_type: text_if_given(control_type),
                    path: Some(copy_u32s(path)),
                },
            ),
            rationale: owned(
                "Path can target elements without names or ids, but sibling insertions can shift it.",
            ),
            changes: no_texts(),
            warnings: single(
                "Path-only selectors are positional and should be treated as fragile.",
            ),
        },
    );
    assert(views(candidates@) =~= windows_candidates(
        window_title@,
        (Described {
            path: path@,
            automation_id: automation_id@,
            name: name@,
            control_type: control_type@,
        }),
    ));
    candidates
}

/// Selectors for an element of a macOS window, the most stable first. Each carries the path too.
pub open spec fn macos_candidates(d: Described) -> Seq<AccessibilitySelectorCandidateView> {
    when(
        d.automation_id.len() > 0,
        AccessibilitySelectorCandidateView {
            confidence: SelectorConfidence::High,
            score: 95,
            target: element_target(
                None,
                AccessibilityTargetView {
                    id: Some(d.automation_id),
                    name: None,
                    control_type: Some(d.control_type),
                    path: Some(d.path),
                },
            ),
            rationale: "AXIdentifier plus role is the most stable macOS selector"@,
            changes: Seq::empty(),
            warnings: Seq::empty(),
        },
    ) + when(
        d.name.len() > 0 && d.control_type.len() > 0,
        AccessibilitySelectorCandidateView {
            confidence: SelectorConfidence::Medium,
            score: 75,
            target: element_target(
                None,
                AccessibilityTargetView {
                    id: None,
                    name: Some(d.name),
                    control_type: Some(d.control_type),
                    path: Some(d.path),
                },
            ),
            rationale: "title/name plus role is readable but may be localized"@,
            changes: Seq::empty(),
            warnings: one_text(
                "macOS accessibility titles can be localized or user-content-derived"@,
            ),
        },
    ) + when(
        d.path.len() > 0,
        AccessibilitySelectorCandidateView {
            confidence: SelectorConfidence::LastResort,
            score: 35,
            target: element_target(
                None,
                AccessibilityTargetView {
                    id: None,
                    name: None,
                    control_type: given_text(d.control_type),
                    path: Some(d.path),
                },
            ),
            rationale: "child-index path is a last-resort fallback"@,
            changes: Seq::empty(),
            warnings: one_text("path-only selectors require allowPathOnlySelectors approval"@),
        },
    )
}

/// Selectors for an element of a macOS window, the most stable first.
pub fn selector_candidates_for_node(
    path: &Vec<u32>,
    automation_id: &str,
    name: &str,
    control_type: &str,
) -> (r: Vec<AccessibilitySelectorCandidate>)
    ensures
        views(r@) == macos_candidates(
            (Described {
                path: path@,
                automation_id: automation_id@,
                name: name@,
                control_type: control_type@,
            }),
        ),
{
    let has_id = automation_id.unicode_len() > 0;
    let has_name = name.unicode_len() > 0;
    let has_type = control_type.unicode_len() > 0;
    let mut candidates: Vec<AccessibilitySelectorCandidate> = Vec::new();
    assert(views(candidates@) =~= Seq::empty());
    add_when(
        &mut candidates,
        has_id,
        AccessibilitySelectorCandidate {
            confidence: SelectorConfidence::High,
            score: 95,
            target: make_element_target(
                None,
                AccessibilityTarget {
                    id: Some(owned(automation_id)),
                    name: None,
                    control_type: Some(owned(control_type)),
                    path: Some(copy_u32s(path)),
                },
            ),
            rationale: owned("AXIdentifier plus role is the most stable macOS selector"),
            changes: no_texts(),
            warnings: no_texts(),
        },
    );
    add_when(
        &mut candidates,
        has_name && has_type,
        AccessibilitySelectorCandidate {
            confidence: SelectorConfidence::Medium,
            score: 75,
            target: make_element_target(
                None,
                AccessibilityTarget {
                    id: None,
                    name: Some(owned(name)),
                    control_type: Some(owned(control_type)),
                    path: Some(copy_u32s(path)),
                },
            ),
            rationale: owned("title/name plus role is readable but may be localized"),
            changes: no_texts(),
            warnings: single(
                "macOS accessibility titles can be localized or user-content-derived",
            ),
        },
    );
    add_when(
        &mut candidates,
        path.len() > 0,
        AccessibilitySelectorCandidate {
            confidence: SelectorConfidence::LastResort,
            score: 35,
            target: make_element_target(
                None,
                AccessibilityTarget {
                    id: None,
                    name: None,
                    control_type: text_if_given(control_type),
                    path: Some(copy_u32s(path)),
                },
            ),
            rationale: owned("child-index path is a last-resort fallback"),
            changes: no_texts(),
            warnings: single("path-only selectors require allowPathOnlySelectors approval"),
        },
    );
    assert(views(candidates@) =~= macos_candidates(
        (Described {
            path: path@,
            automation_id: automation_id@,
            name: name@,
            control_type: control_type@,
        }),
    ));
    candidates
}

fn same_opt_text(a: &Option<String>, b: &Option<String>) -> (r: bool)
    ensures
        r == (opt_text(*a) == opt_text(*b)),
{
    match (a, b) {
        (Some(x), Some(y)) => same_text(x.as_str(), y.as_str()),
        (None, None) => true,
        _ => false,
    }
}

fn same_u32s(a: &Vec<u32>, b: &Vec<u32>) -> (r: bool)
    ensures
        r == (a@ == b@),
{
    if a.len() != b.len() {
        return false;
    }
    let mut i: usize = 0;
    while i < a.len()
        invariant
            i <= a@.len(),
            a@.len() == b@.len(),
            forall|j: int| 0 <= j < i ==> a@[j] == b@[j],
        decreases a@.len() - i,
    {
        if a[i] != b[i] {
            return false;
        }
        i = i + 1;
    }
    assert(a@ =~= b@);
    true
}

fn same_opt_path(a: &Option<Vec<u32>>, b: &Option<Vec<u32>>) -> (r: bool)
    ensures
        r == (opt_view(*a) == opt_view(*b)),
{
    match (a, b) {
        (Some(x), Some(y)) => same_u32s(x, y),
        (None, None) => true,
        _ => false,
    }
}

fn same_accessibility(a: &Option<AccessibilityTarget>, b: &Option<AccessibilityTarget>) -> (r: bool)
    ensures
        r == (opt_view(*a) == opt_view(*b)),
{
    match (a, b) {
        (Some(x), Some(y)) => same_opt_text(&x.id, &y.id) && same_opt_text(&x.name, &y.name)
            && same_opt_text(&x.control_type, &y.control_type) && same_opt_path(&x.path, &y.path),
        (None, None) => true,
        _ => false,
    }
}

fn same_image(a: &Option<ImageTarget>, b: &Option<ImageTarget>) -> (r: bool)
    ensures
        r == (opt_view(*a) == opt_view(*b)),
{
    match (a, b) {
        (Some(x), Some(y)) => same_text(x.path.as_str(), y.path.as_str()) && x.confidence
            == y.confidence && x.region == y.region,
        (None, None) => true,
        _ => false,
    }
}

fn same_selector(a: &Option<PlatformSelector>, b: &Option<PlatformSelector>) -> (r: bool)
    ensures
        r == (opt_view(*a) == opt_view(*b)),
{
    match (a, b) {
        (Some(x), Some(y)) => same_opt_text(&x.process_name, &y.process_name) && same_opt_text(
            &x.window_title,
            &y.window_title,
        ) && same_opt_text(&x.accessibility_query, &y.accessibility_query) && same_opt_text(
            &x.command_hint,
            &y.command_hint,
        ),
        (None, None) => true,
        _ => false,
    }
}

/// Whether two targets say the same.
pub fn same_target(a: &Target, b: &Target) -> (r: bool)
    ensures
        r == (a@ == b@),
{
    let texts_agree = same_opt_text(&a.app_name, &b.app_name) && same_opt_text(
        &a.process_name,
        &b.process_name,
    ) && same_opt_text(&a.window_title, &b.window_title) && same_opt_text(
        &a.title_contains,
        &b.title_contains,
    ) && same_opt_text(&a.url, &b.url) && same_opt_text(&a.file_path, &b.file_path);
    texts_agree && same_accessibility(&a.accessibility, &b.accessibility) && same_image(
        &a.image,
        &b.image,
    ) && a.coordinates == b.coordinates && same_selector(
        &a.platform_selectors.windows,
        &b.platform_selectors.windows,
    ) && same_selector(&a.platform_selectors.mac_os, &b.platform_selectors.mac_os)
        && same_selector(&a.platform_selectors.linux, &b.platform_selectors.linux)
}

/// How a missing text is named in a change.
pub open spec fn absent_name(platform: Platform) -> Seq<char> {
    if platform == Platform::MacOs {
        "None"@
    } else {
        "none"@
    }
}

pub open spec fn style_on(platform: Platform) -> QuoteStyle {
    if platform == Platform::MacOs {
        QuoteStyle::Plain
    } else {
        QuoteStyle::Literal
    }
}

pub open spec fn shown_text(platform: Platform, text: Option<Seq<char>>) -> Seq<char> {
    match text {
        Some(t) => quoted(style_on(platform), t),
        None => absent_name(platform),
    }
}

/// What changed in one text field, where something did.
pub open spec fn text_change(
    platform: Platform,
    label: Seq<char>,
    before: Option<Seq<char>>,
    after: Option<Seq<char>>,
) -> Seq<Seq<char>> {
    if before == after {
        Seq::empty()
    } else {
        seq![label + ": "@ + shown_text(platform, before) + " -> "@ + shown_text(platform, after)]
    }
}

pub open spec fn path_change(
    platform: Platform,
    before: Option<Seq<u32>>,
    after: Option<Seq<u32>>,
) -> Seq<Seq<char>> {
    if before == after {
        Seq::empty()
    } else if platform == Platform::MacOs {
        seq!["path updated from current accessibility tree"@]
    } else {
        seq!["path: "@ + opt_path_text(before) + " -> "@ + opt_path_text(after)]
    }
}

pub open spec fn nothing_selected() -> AccessibilityTargetView {
    AccessibilityTargetView { id: None, name: None, control_type: None, path: None }
}

/// How a repaired selector differs from the original, field by field.
pub open spec fn changes(
    platform: Platform,
    original: Option<AccessibilityTargetView>,
    repaired: Option<AccessibilityTargetView>,
) -> Seq<Seq<char>> {
    let before = match original {
        Some(t) => t,
        None => nothing_selected(),
    };
    match repaired {
        None => Seq::empty(),
        Some(after) => text_change(platform, "id"@, before.id, after.id) + text_change(
            platform,
            "name"@,
            before.name,
            after.name,
        ) + text_change(platform, "controlType"@, before.control_type, after.control_type)
            + path_change(platform, before.path, after.path),
    }
}

/// A selector that is not changed is told to have no changes.
pub proof fn no_changes(platform: Platform, t: AccessibilityTargetView)
    ensures
        changes(platform, Some(t), Some(t)) == Seq::<Seq<char>>::empty(),
{
    assert(changes(platform, Some(t), Some(t)) =~= Seq::<Seq<char>>::empty());
}

fn show_text(platform: Platform, text: &Option<String>) -> (r: String)
    ensures
        r@ == shown_text(platform, opt_text(*text)),
{
    let mac = platform == Platform::MacOs;
    match text {
        Some(t) => quote(
            if mac {
                QuoteStyle::Plain
            } else {
                QuoteStyle::Literal
            },
            t.as_str(),
        ),
        None => if mac {
            owned("None")
        } else {
            owned("none")
        },
    }
}

fn push_optional_string_change(
    changes: &mut Vec<String>,
    platform: Platform,
    label: &str,
    original: &Option<String>,
    repaired: &Option<String>,
)
    ensures
        texts(final(changes)@) == texts(old(changes)@) + text_change(
            platform,
            label@,
            opt_text(*original),
            opt_text(*repaired),
        ),
{
    let ghost before = texts(changes@);
    if same_opt_text(original, repaired) {
        assert(before + Seq::<Seq<char>>::empty() =~= before);
        return;
    }
    let item = concat5(
        label,
        ": ",
        show_text(platform, original).as_str(),
        " -> ",
        show_text(platform, repaired).as_str(),
    );
    let ghost added = item@;
    changes.push(item);
    assert(texts(changes@) =~= before + seq![added]);
}

/// How a repaired selector differs from the original, field by field.
pub fn selector_candidate_changes(
    platform: Platform,
    original: &Option<AccessibilityTarget>,
    repaired: &Option<AccessibilityTarget>,
) -> (r: Vec<String>)
    ensures
        texts(r@) == changes(platform, opt_view(*original), opt_view(*repaired)),
{
    let after = match repaired {
        None => {
            return no_texts();
        },
        Some(after) => after,
    };
    let blank = AccessibilityTarget { id: None, name: None, control_type: None, path: None };
    let before = match original {
        Some(before) => before,
        None => &blank,
    };
    let mut found = no_texts();
    push_optional_string_change(&mut found, platform, "id", &before.id, &after.id);
    push_optional_string_change(&mut found, platform, "name", &before.name, &after.name);
    push_optional_string_change(
        &mut found,
        platform,
        "controlType",
        &before.control_type,
        &after.control_type,
    );
    let ghost so_far = texts(found@);
    if !same_opt_path(&before.path, &after.path) {
        let item = if platform == Platform::MacOs {
            owned("path updated from current accessibility tree")
        } else {
            let left = format_optional_path(&before.path);
            let right = format_optional_path(&after.path);
            let mut item = owned("path: ");
            item.append(left.as_str());
            item.append(" -> ");
            item.append(right.as_str());
            item
        };
        let ghost added = item@;
        found.push(item);
        assert(texts(found@) =~= so_far + seq![added]);
    }
    assert(texts(found@) =~= changes(platform, opt_view(*original), opt_view(*repaired)));
    found
}

/// Whether a candidate has something in common with the selector that it would replace, on
/// Windows: the same id, name or control type, or a path where the selector has none of these.
pub open spec fn candidate_fits(
    c: AccessibilitySelectorCandidateView,
    desired: Option<AccessibilityTargetView>,
) -> bool {
    match desired {
        None => true,
        Some(d) => match c.target.accessibility {
            None => false,
            Some(a) => (d.id is Some && a.id == d.id) || (d.name is Some && a.name == d.name) || (
            d.control_type is Some && a.control_type == d.control_type) || (d.id is None
                && d.name is None && d.control_type is None && a.path is Some),
        },
    }
}

pub fn repair_candidate_matches(
    candidate: &AccessibilitySelectorCandidate,
    desired: &Option<AccessibilityTarget>,
) -> (r: bool)
    ensures
        r == candidate_fits(candidate@, opt_view(*desired)),
{
    let wanted = match desired {
        None => {
            return true;
        },
        Some(wanted) => wanted,
    };
    let accessibility = match &candidate.target.accessibility {
        None => {
            return false;
        },
        Some(accessibility) => accessibility,
    };
    (wanted.id.is_some() && same_opt_text(&accessibility.id, &wanted.id)) || (wanted.name.is_some()
        && same_opt_text(&accessibility.name, &wanted.name)) || (wanted.control_type.is_some()
        && same_opt_text(&accessibility.control_type, &wanted.control_type)) || (
    wanted.id.is_none() && wanted.name.is_none() && wanted.control_type.is_none()
        && accessibility.path.is_some())
}

/// Whether an element is the one that a selector asks for, on macOS.
pub open spec fn node_fits(n: NodeView, d: AccessibilityTargetView) -> bool {
    &&& d.id matches Some(id) ==> n.automation_id == id
    &&& d.name matches Some(name) ==> n.name == name
    &&& d.control_type matches Some(t) ==> same_but_case(n.control_type, t) || same_but_case(
        n.class_name,
        t,
    )
}

pub fn node_matches_accessibility(node: &AccessibilityNode, desired: &AccessibilityTarget) -> (r: bool)
    ensures
        r == node_fits(node@, desired@),
{
    if let Some(id) = &desired.id {
        if !same_text(node.automation_id.as_str(), id.as_str()) {
            return false;
        }
    }
    if let Some(name) = &desired.name {
        if !same_text(node.name.as_str(), name.as_str()) {
            return false;
        }
    }
    if let Some(t) = &desired.control_type {
        if !eq_ignore_ascii_case(node.control_type.as_str(), t.as_str()) && !eq_ignore_ascii_case(
            node.class_name.as_str(),
            t.as_str(),
        ) {
            return false;
        }
    }
    true
}

/// The candidates of one element that come into question.
pub open spec fn own_candidates(
    platform: Platform,
    n: NodeView,
    desired: Option<AccessibilityTargetView>,
    k: nat,
) -> Seq<AccessibilitySelectorCandidateView>
    decreases k,
{
    if k == 0 || k > n.selector_candidates.len() {
        Seq::empty()
    } else {
        let front = own_candidates(platform, n, desired, (k - 1) as nat);
        if (if platform == Platform::MacOs {
            desired is None || node_fits(n, desired->0)
        } else {
            candidate_fits(n.selector_candidates[k - 1], desired)
        }) {
            front.push(n.selector_candidates[k - 1])
        } else {
            front
        }
    }
}

/// The candidates of an element and of all elements inside it, each element before what is inside
/// it.
pub open spec fn repair_candidates(
    platform: Platform,
    n: NodeView,
    desired: Option<AccessibilityTargetView>,
) -> Seq<AccessibilitySelectorCandidateView>
    decreases n, 0nat,
{
    own_candidates(platform, n, desired, n.selector_candidates.len()) + child_candidates(
        platform,
        n.children,
        n.children.len(),
        desired,
    )
}

pub open spec fn child_candidates(
    platform: Platform,
    children: Seq<NodeView>,
    k: nat,
    desired: Option<AccessibilityTargetView>,
) -> Seq<AccessibilitySelectorCandidateView>
    decreases children, k,
{
    if k == 0 || k > children.len() {
        Seq::empty()
    } else {
        child_candidates(platform, children, (k - 1) as nat, desired) + repair_candidates(
            platform,
            children[k - 1],
            desired,
        )
    }
}

fn add_own_candidates(
    platform: Platform,
    node: &AccessibilityNode,
    desired: &Option<AccessibilityTarget>,
    candidates: &mut Vec<AccessibilitySelectorCandidate>,
)
    ensures
        views(final(candidates)@) == views(old(candidates)@) + own_candidates(
            platform,
            node@,
            opt_view(*desired),
            node@.selector_candidates.len(),
        ),
{
    let ghost start = views(candidates@);
    let mac = platform == Platform::MacOs;
    let node_is_it = match desired {
        None => true,
        Some(d) => node_matches_accessibility(node, d),
    };
    let mut i: usize = 0;
    assert(start + Seq::<AccessibilitySelectorCandidateView>::empty() =~= start);
    while i < node.selector_candidates.len()
        invariant
            i <= node.selector_candidates@.len(),
            mac == (platform == Platform::MacOs),
            node_is_it == (desired is None || node_fits(node@, desired->0@)),
            views(candidates@) == start + own_candidates(
                platform,
                node@,
                opt_view(*desired),
                i as nat,
            ),
        decreases node.selector_candidates@.len() - i,
    {
        let ghost before = views(candidates@);
        let ghost front = own_candidates(platform, node@, opt_view(*desired), i as nat);
        assert(node@.selector_candidates[i as int] == node.selector_candidates@[i as int]@);
        let fits = if mac {
            node_is_it
        } else {
            repair_candidate_matches(&node.selector_candidates[i], desired)
        };
        if fits {
            let copy = node.selector_candidates[i].clone();
            let ghost added = copy@;
            candidates.push(copy);
            assert(views(candidates@) =~= before.push(added));
            assert(start + front.push(added) =~= (start + front).push(added));
        }
        i = i + 1;
    }
}

/// Collects the candidates of an element and of all elements inside it.
pub fn collect_repair_candidates(
    platform: Platform,
    node: &AccessibilityNode,
    desired: &Option<AccessibilityTarget>,
    candidates: &mut Vec<AccessibilitySelectorCandidate>,
)
    ensures
        views(final(candidates)@) == views(old(candidates)@) + repair_candidates(
            platform,
            node@,
            opt_view(*desired),
        ),
    decreases node,
{
    broadcast use node_children;

    let ghost start = views(candidates@);
    let ghost wanted = opt_view(*desired);
    add_own_candidates(platform, node, desired, candidates);
    let ghost own = own_candidates(platform, node@, wanted, node@.selector_candidates.len());
    let ghost all = views(node.children@);
    let mut i: usize = 0;
    assert(node@.children == all);
    assert((start + own) + Seq::<AccessibilitySelectorCandidateView>::empty() =~= start + own);
    while i < node.children.len()
        invariant
            i <= node.children@.len(),
            all == views(node.children@),
            wanted == opt_view(*desired),
            decreases_to!(node => node.children@),
            views(candidates@) == (start + own) + child_candidates(platform, all, i as nat, wanted),
        decreases node.children@.len() - i,
    {
        let ghost front = child_candidates(platform, all, i as nat, wanted);
        let ghost more = repair_candidates(platform, all[i as int], wanted);
        assert(all[i as int] == node.children@[i as int]@);
        collect_repair_candidates(platform, &node.children[i], desired, candidates);
        assert(((start + own) + front) + more =~= (start + own) + (front + more));
        i = i + 1;
    }
    assert((start + own) + child_candidates(platform, all, all.len(), wanted) =~= start + (own
        + child_candidates(platform, all, all.len(), wanted)));
}

/// `sorted` with one more candidate: behind all that score as high or higher.
pub open spec fn ranked_in(
    sorted: Seq<AccessibilitySelectorCandidateView>,
    c: AccessibilitySelectorCandidateView,
) -> Seq<AccessibilitySelectorCandidateView>
    decreases sorted.len(),
{
    if sorted.len() == 0 || sorted.last().score >= c.score {
        sorted.push(c)
    } else {
        ranked_in(sorted.drop_last(), c).push(sorted.last())
    }
}

/// The candidates by score, the highest first; those of one score stay in their order.
pub open spec fn ranked(all: Seq<AccessibilitySelectorCandidateView>) -> Seq<
    AccessibilitySelectorCandidateView,
>
    decreases all.len(),
{
    if all.len() == 0 {
        Seq::empty()
    } else {
        ranked_in(ranked(all.drop_last()), all.last())
    }
}

pub open spec fn descending(s: Seq<AccessibilitySelectorCandidateView>) -> bool {
    forall|i: int, j: int| 0 <= i < j < s.len() ==> (#[trigger] s[i]).score >= (#[trigger] s[j]).score
}

proof fn ranked_in_descends(
    sorted: Seq<AccessibilitySelectorCandidateView>,
    c: AccessibilitySelectorCandidateView,
)
    requires
        descending(sorted),
    ensures
        descending(ranked_in(sorted, c)),
        ranked_in(sorted, c).to_multiset() == sorted.to_multiset().insert(c),
        forall|i: int|
            0 <= i < ranked_in(sorted, c).len() ==> (#[trigger] ranked_in(sorted, c)[i]).score
                <= c.score || sorted.contains(ranked_in(sorted, c)[i]),
        forall|i: int|
            0 <= i < ranked_in(sorted, c).len() ==> (#[trigger] ranked_in(sorted, c)[i]) == c
                || sorted.contains(ranked_in(sorted, c)[i]),
    decreases sorted.len(),
{
    broadcast use vstd::seq_lib::group_to_multiset_ensures;

    let result = ranked_in(sorted, c);
    if sorted.len() == 0 || sorted.last().score >= c.score {
        assert forall|i: int, j: int| 0 <= i < j < result.len() implies (#[trigger] result[i]).score
            >= (#[trigger] result[j]).score by {
            if j == sorted.len() && i < sorted.len() - 1 {
                assert(sorted[i].score >= sorted[sorted.len() - 1].score);
            }
        }
        assert forall|i: int| 0 <= i < result.len() implies (#[trigger] result[i]) == c
            || sorted.contains(result[i]) by {
            if i < sorted.len() {
                assert(sorted[i] == result[i]);
            }
        }
    } else {
        let front = sorted.drop_last();
        let last = sorted.last();
        assert(sorted =~= front.push(last));
        assert(descending(front)) by {
            assert forall|i: int, j: int| 0 <= i < j < front.len() implies (
            #[trigger] front[i]).score >= (#[trigger] front[j]).score by {
                assert(sorted[i].score >= sorted[j].score);
            }
        }
        ranked_in_descends(front, c);
        let inner = ranked_in(front, c);
        assert(result.to_multiset() =~= sorted.to_multiset().insert(c));
        assert forall|i: int| 0 <= i < result.len() implies (#[trigger] result[i]) == c
            || sorted.contains(result[i]) by {
            if i < inner.len() {
                assert(inner[i] == c || front.contains(inner[i]));
                if front.contains(inner[i]) {
                    let k = choose|k: int| 0 <= k < front.len() && front[k] == inner[i];
                    assert(sorted[k] == result[i]);
                }
            } else {
                assert(sorted[sorted.len() - 1] == result[i]);
            }
        }
        assert forall|i: int, j: int| 0 <= i < j < result.len() implies (#[trigger] result[i]).score
            >= (#[trigger] result[j]).score by {
            if j < inner.len() {
                assert(inner[i].score >= inner[j].score);
            } else {
                assert(inner[i] == c || front.contains(inner[i]));
                if front.contains(inner[i]) {
                    let k = choose|k: int| 0 <= k < front.len() && front[k] == inner[i];
                    assert(sorted[k].score >= sorted[sorted.len() - 1].score);
                }
            }
        }
    }
}

/// Ranking puts the candidates in order of their scores and neither adds nor drops any.
pub proof fn ranked_is_sorted(all: Seq<AccessibilitySelectorCandidateView>)
    ensures
        descending(ranked(all)),
        ranked(all).to_multiset() == all.to_multiset(),
    decreases all.len(),
{
    broadcast use vstd::seq_lib::group_to_multiset_ensures;

    if all.len() > 0 {
        ranked_is_sorted(all.drop_last());
        ranked_in_descends(ranked(all.drop_last()), all.last());
        assert(all =~= all.drop_last().push(all.last()));
    }
}

/// Whether a candidate with the given target is in the list.
pub open spec fn has_target(s: Seq<AccessibilitySelectorCandidateView>, t: TargetView) -> bool {
    exists|i: int| 0 <= i < s.len() && (#[trigger] s[i]).target == t
}

/// The candidates without those whose target comes before.
pub open spec fn distinct(all: Seq<AccessibilitySelectorCandidateView>) -> Seq<
    AccessibilitySelectorCandidateView,
>
    decreases all.len(),
{
    if all.len() == 0 {
        Seq::empty()
    } else {
        let front = distinct(all.drop_last());
        if has_target(front, all.last().target) {
            front
        } else {
            front.push(all.last())
        }
    }
}

pub open spec fn no_target_twice(s: Seq<AccessibilitySelectorCandidateView>) -> bool {
    forall|i: int, j: int|
        0 <= i < j < s.len() ==> (#[trigger] s[i]).target != (#[trigger] s[j]).target
}

/// No two of the distinct candidates have one target; they stay in their order; and every target
/// of the list is still there.
pub proof fn distinct_keeps_each_target_once(all: Seq<AccessibilitySelectorCandidateView>)
    ensures
        no_target_twice(distinct(all)),
        forall|t: TargetView| #[trigger] has_target(distinct(all), t) == has_target(all, t),
        descending(all) ==> descending(distinct(all)),
        forall|i: int|
            0 <= i < distinct(all).len() ==> all.contains(#[trigger] distinct(all)[i]),
    decreases all.len(),
{
    let result = distinct(all);
    if all.len() > 0 {
        let before = all.drop_last();
        let last = all.last();
        let front = distinct(before);
        distinct_keeps_each_target_once(before);
        assert forall|t: TargetView| #[trigger] has_target(result, t) == has_target(all, t) by {
            assert(has_target(front, t) == has_target(before, t));
            if has_target(before, t) {
                let i = choose|i: int| 0 <= i < before.len() && (#[trigger] before[i]).target == t;
                assert(all[i].target == t);
                let k = choose|k: int| 0 <= k < front.len() && (#[trigger] front[k]).target == t;
                assert(result[k].target == t);
            }
            if last.target == t {
                assert(all[all.len() - 1].target == t);
                if !has_target(front, t) {
                    assert(result[front.len() as int].target == t);
                } else {
                    let k = choose|k: int| 0 <= k < front.len() && (#[trigger] front[k]).target == t;
                    assert(result[k].target == t);
                }
            }
            if has_target(all, t) && last.target != t {
                let i = choose|i: int| 0 <= i < all.len() && (#[trigger] all[i]).target == t;
                assert(before[i].target == t);
            }
            if has_target(result, t) && last.target != t {
                let i = choose|i: int| 0 <= i < result.len() && (#[trigger] result[i]).target == t;
                assert(front[i].target == t);
            }
        }
        assert forall|i: int| 0 <= i < result.len() implies all.contains(#[trigger] result[i]) by {
            if i < front.len() {
                assert(before.contains(front[i]));
                let k = choose|k: int| 0 <= k < before.len() && before[k] == front[i];
                assert(all[k] == result[i]);
            } else {
                assert(all[all.len() - 1] == result[i]);
            }
        }
        assert forall|i: int, j: int| 0 <= i < j < result.len() implies (
        #[trigger] result[i]).target != (#[trigger] result[j]).target by {
            if j < front.len() {
                assert(front[i].target != front[j].target);
            } else {
                assert(front[i].target != last.target);
            }
        }
        if descending(all) {
            assert(descending(before)) by {
                assert forall|i: int, j: int| 0 <= i < j < before.len() implies (
                #[trigger] before[i]).score >= (#[trigger] before[j]).score by {
                    assert(all[i].score >= all[j].score);
                }
            }
            assert forall|i: int, j: int| 0 <= i < j < result.len() implies (
            #[trigger] result[i]).score >= (#[trigger] result[j]).score by {
                if j < front.len() {
                    assert(front[i].score >= front[j].score);
                } else {
                    assert(before.contains(front[i]));
                    let k = choose|k: int| 0 <= k < before.len() && before[k] == front[i];
                    assert(all[k].score >= all[all.len() - 1].score);
                }
            }
        }
    }
}

/// The candidates that are offered: by score, each target once, no more than twenty.
pub open spec fn offered(all: Seq<AccessibilitySelectorCandidateView>) -> Seq<
    AccessibilitySelectorCandidateView,
> {
    let best = distinct(ranked(all));
    if best.len() <= 20 {
        best
    } else {
        best.take(20)
    }
}

/// What is offered is sorted by score, names no target twice, is no more than twenty candidates,
/// and comes from what was there.
pub proof fn offered_candidates(all: Seq<AccessibilitySelectorCandidateView>)
    ensures
        offered(all).len() <= 20,
        descending(offered(all)),
        no_target_twice(offered(all)),
        forall|i: int| 0 <= i < offered(all).len() ==> all.contains(#[trigger] offered(all)[i]),
{
    broadcast use vstd::seq_lib::group_to_multiset_ensures;

    ranked_is_sorted(all);
    distinct_keeps_each_target_once(ranked(all));
    let best = distinct(ranked(all));
    let r = offered(all);
    assert forall|i: int, j: int| 0 <= i < j < r.len() implies (#[trigger] r[i]).score >= (
    #[trigger] r[j]).score by {
        assert(best[i].score >= best[j].score);
    }
    assert forall|i: int, j: int| 0 <= i < j < r.len() implies (#[trigger] r[i]).target != (
    #[trigger] r[j]).target by {
        assert(best[i].target != best[j].target);
    }
    assert forall|i: int| 0 <= i < r.len() implies all.contains(#[trigger] r[i]) by {
        assert(best[i] == r[i]);
        assert(ranked(all).contains(best[i]));
        assert(ranked(all).to_multiset().contains(r[i]));
        assert(all.to_multiset().contains(r[i]));
    }
}

fn insert_ranked(
    sorted: &mut Vec<AccessibilitySelectorCandidate>,
    candidate: AccessibilitySelectorCandidate,
)
    ensures
        views(final(sorted)@) == ranked_in(views(old(sorted)@), candidate@),
{
    let ghost start = views(sorted@);
    let ghost c = candidate@;
    let mut at: usize = sorted.len();
    proof {
        assert(start.take(at as int) =~= start);
        assert(ranked_in(start, c) =~= ranked_in(start.take(at as int), c) + start.skip(at as int));
    }
    while at > 0 && sorted[at - 1].score < candidate.score
        invariant
            at <= sorted@.len(),
            start == views(sorted@),
            c == candidate@,
            ranked_in(start, c) == ranked_in(start.take(at as int), c) + start.skip(at as int),
        decreases at,
    {
        proof {
            assert(start.take(at as int).drop_last() =~= start.take(at - 1));
            assert(start.take(at as int).last() == start[at - 1]);
            assert(ranked_in(start.take(at as int), c) + start.skip(at as int) =~= ranked_in(
                start.take(at - 1),
                c,
            ) + start.skip(at - 1));
        }
        at = at - 1;
    }
    proof {
        if at > 0 {
            assert(start.take(at as int).last() == start[at - 1]);
        }
    }
    sorted.insert(at, candidate);
    assert(views(sorted@) =~= start.take(at as int).push(c) + start.skip(at as int));
}

fn rank(all: &Vec<AccessibilitySelectorCandidate>) -> (r: Vec<AccessibilitySelectorCandidate>)
    ensures
        views(r@) == ranked(views(all@)),
{
    let ghost whole = views(all@);
    let mut sorted: Vec<AccessibilitySelectorCandidate> = Vec::new();
    let mut i: usize = 0;
    assert(whole.take(0) =~= Seq::empty());
    assert(views(sorted@) =~= Seq::empty());
    while i < all.len()
        invariant
            i <= all@.len(),
            whole == views(all@),
            views(sorted@) == ranked(whole.take(i as int)),
        decreases all@.len() - i,
    {
        assert(whole.take(i + 1).drop_last() =~= whole.take(i as int));
        assert(whole.take(i + 1).last() == all@[i as int]@);
        insert_ranked(&mut sorted, all[i].clone());
        i = i + 1;
    }
    assert(whole.take(i as int) =~= whole);
    sorted
}

fn target_listed(candidates: &Vec<AccessibilitySelectorCandidate>, target: &Target) -> (r: bool)
    ensures
        r == has_target(views(candidates@), target@),
{
    let mut i: usize = 0;
    while i < candidates.len()
        invariant
            i <= candidates@.len(),
            forall|j: int| 0 <= j < i ==> (#[trigger] views(candidates@)[j]).target != target@,
        decreases candidates@.len() - i,
    {
        if same_target(&candidates[i].target, target) {
            assert(views(candidates@)[i as int].target == target@);
            return true;
        }
        i = i + 1;
    }
    false
}

fn drop_repeats(all: &Vec<AccessibilitySelectorCandidate>) -> (r: Vec<
    AccessibilitySelectorCandidate,
>)
    ensures
        views(r@) == distinct(views(all@)),
{
    let ghost whole = views(all@);
    let mut kept: Vec<AccessibilitySelectorCandidate> = Vec::new();
    let mut i: usize = 0;
    assert(whole.take(0) =~= Seq::empty());
    assert(views(kept@) =~= Seq::empty());
    while i < all.len()
        invariant
            i <= all@.len(),
            whole == views(all@),
            views(kept@) == distinct(whole.take(i as int)),
        decreases all@.len() - i,
    {
        let ghost front = views(kept@);
        assert(whole.take(i + 1).drop_last() =~= whole.take(i as int));
        assert(whole.take(i + 1).last() == all@[i as int]@);
        if !target_listed(&kept, &all[i].target) {
            let copy = all[i].clone();
            let ghost added = copy@;
            kept.push(copy);
            assert(views(kept@) =~= front.push(added));
        }
        i = i + 1;
    }
    assert(whole.take(i as int) =~= whole);
    kept
}

/// The candidates with what each changes about the selector.
pub open spec fn with_changes(
    platform: Platform,
    original: Option<AccessibilityTargetView>,
    all: Seq<AccessibilitySelectorCandidateView>,
) -> Seq<AccessibilitySelectorCandidateView> {
    all.map_values(
        |c: AccessibilitySelectorCandidateView|
            AccessibilitySelectorCandidateView {
                changes: changes(platform, original, c.target.accessibility),
                ..c
            },
    )
}

/// What repair offers for a target.
pub open spec fn repaired(platform: Platform, target: TargetView, root: NodeView) -> Seq<
    AccessibilitySelectorCandidateView,
> {
    offered(
        with_changes(
            platform,
            target.accessibility,
            repair_candidates(platform, root, target.accessibility),
        ),
    )
}

pub open spec fn inspection_text(title: Seq<char>, max_depth: u32, max_nodes: usize, truncated: bool) -> Seq<
    char,
> {
    "inspected "@ + title + " with maxDepth="@ + decimal(max_depth as nat) + " maxNodes="@
        + decimal(max_nodes as nat) + " truncated="@ + bool_text(truncated)
}

/// Offers selectors that could take the place of one that may no longer work. `exists` is what came
/// of searching for the element of the target.
pub fn repair_selector(
    platform: Platform,
    target: &Target,
    tree: &AccessibilityTree,
    exists: &Result<bool, AdapterError>,
) -> (r: SelectorRepairReport)
    ensures
        r.original@ == target@,
        r.matched == still_matches(target@, *exists),
        views(r.candidates@) == repaired(platform, target@, tree.root@),
        texts(r.diagnostics@) == one_text(
            inspection_text(tree.window_title@, tree.max_depth, tree.max_nodes, tree.truncated),
        ),
{
    let mut found: Vec<AccessibilitySelectorCandidate> = Vec::new();
    assert(views(found@) =~= Seq::empty());
    collect_repair_candidates(platform, &tree.root, &target.accessibility, &mut found);
    let ghost all = repair_candidates(platform, tree.root@, target@.accessibility);
    assert(Seq::<AccessibilitySelectorCandidateView>::empty() + all =~= all);
    let mut explained: Vec<AccessibilitySelectorCandidate> = Vec::new();
    let mut i: usize = 0;
    while i < found.len()
        invariant
            i <= found@.len(),
            views(found@) == all,
            explained@.len() == i,
            forall|j: int|
                0 <= j < i ==> (#[trigger] explained@[j])@ == with_changes(
                    platform,
                    target@.accessibility,
                    all,
                )[j],
        decreases found@.len() - i,
    {
        let mut candidate = found[i].clone();
        assert(all[i as int] == found@[i as int]@);
        candidate.changes = selector_candidate_changes(
            platform,
            &target.accessibility,
            &candidate.target.accessibility,
        );
        explained.push(candidate);
        i = i + 1;
    }
    assert(views(explained@) =~= with_changes(platform, target@.accessibility, all));
    let sorted = rank(&explained);
    let mut best = drop_repeats(&sorted);
    let ghost whole = views(best@);
    if best.len() > 20 {
        best.truncate(20);
        assert(views(best@) =~= whole.take(20));
    }
    let mut line = owned("inspected ");
    line.append(tree.window_title.as_str());
    line.append(" with maxDepth=");
    line.append(format_u64(tree.max_depth as u64).as_str());
    line.append(" maxNodes=");
    line.append(format_u64(tree.max_nodes as u64).as_str());
    line.append(" truncated=");
    line.append(format_bool(tree.truncated));
    SelectorRepairReport {
        original: target.clone(),
        matched: selector_matches(target, exists),
        candidates: best,
        diagnostics: single(line.as_str()),
    }
}

/// Whether the selector of a target still works: one that names no element does, and any other
/// where its element was found to exist.
pub open spec fn still_matches(t: TargetView, exists: Result<bool, AdapterError>) -> bool {
    t.accessibility is None || exists == Ok::<bool, AdapterError>(true)
}

pub fn selector_matches(target: &Target, exists: &Result<bool, AdapterError>) -> (r: bool)
    ensures
        r == still_matches(target@, *exists),
{
    if target.accessibility.is_none() {
        return true;
    }
    match exists {
        Ok(state) => *state,
        Err(_) => false,
    }
}

} // verus!
