//! What an adapter shows of the desktop: windows, elements and ways to select them.
use vstd::prelude::*;
use crate::definition::{Platform, Target, TargetView};
use crate::text::{copy_opt_text, copy_texts, opt_text, texts};
use crate::views::{views, Faithful};

verus! {

/// What an adapter can do.
#[derive(Debug, Clone, Copy, PartialEq, Eq, Structural)]
pub struct AdapterCapabilities {
    pub platform: Platform,
    pub supports_launch: bool,
    pub supports_focus: bool,
    pub supports_input: bool,
    pub supports_semantic_targets: bool,
    pub supports_coordinate_targets: bool,
    pub supports_window_queries: bool,
    pub supports_process_queries: bool,
    pub supports_accessibility_tree: bool,
}

/// A rectangle on the screen. The right and bottom edges lie outside.
#[derive(Debug, Clone, Copy, PartialEq, Eq, Structural)]
pub struct AccessibilityBounds {
    pub left: i32,
    pub top: i32,
    pub right: i32,
    pub bottom: i32,
}

/// A point on the screen.
#[derive(Debug, Clone, Copy, PartialEq, Eq, Structural)]
pub struct AccessibilityPoint {
    pub x: i32,
    pub y: i32,
}

/// How far a selector can be relied on.
#[derive(Debug, Clone, Copy, PartialEq, Eq, Structural)]
pub enum SelectorConfidence {
    High,
    Medium,
    Low,
    LastResort,
}

/// Whether there is anything inside the bounds.
pub open spec fn has_area(b: AccessibilityBounds) -> bool {
    b.right > b.left && b.bottom > b.top
}

pub fn non_empty_bounds(bounds: AccessibilityBounds) -> (r: bool)
    ensures
        r == has_area(bounds),
{
    bounds.right > bounds.left && bounds.bottom > bounds.top
}

/// The middle of the bounds, if there is anything inside them.
pub open spec fn click_point_of(b: AccessibilityBounds) -> Option<AccessibilityPoint> {
    if has_area(b) {
        Some(
            AccessibilityPoint {
                x: (b.left + (b.right - b.left) / 2) as i32,
                y: (b.top + (b.bottom - b.top) / 2) as i32,
            },
        )
    } else {
        None
    }
}

pub fn click_point_for_bounds(bounds: AccessibilityBounds) -> (r: Option<AccessibilityPoint>)
    ensures
        r == click_point_of(bounds),
        r matches Some(p) ==> bounds.left <= p.x < bounds.right && bounds.top <= p.y < bounds.bottom,
{
    if !non_empty_bounds(bounds) {
        return None;
    }
    let half_width: i64 = (bounds.right as i64 - bounds.left as i64) / 2;
    let half_height: i64 = (bounds.bottom as i64 - bounds.top as i64) / 2;
    Some(
        AccessibilityPoint {
            x: (bounds.left as i64 + half_width) as i32,
            y: (bounds.top as i64 + half_height) as i32,
        },
    )
}

pub open spec fn close(a: int, b: int) -> bool {
    -2 <= a - b <= 2
}

/// Whether two bounds are the same but for two pixels at each edge. Unknown bounds are like any.
pub open spec fn roughly_equal(a: AccessibilityBounds, b: Option<AccessibilityBounds>) -> bool {
    match b {
        None => true,
        Some(b) => close(a.left as int, b.left as int) && close(a.top as int, b.top as int) && close(
            a.right as int,
            b.right as int,
        ) && close(a.bottom as int, b.bottom as int),
    }
}

fn is_close(a: i32, b: i32) -> (r: bool)
    ensures
        r == close(a as int, b as int),
{
    let difference: i64 = a as i64 - b as i64;
    -2 <= difference && difference <= 2
}

pub fn bounds_roughly_equal(left: AccessibilityBounds, right: Option<AccessibilityBounds>) -> (r: bool)
    ensures
        r == roughly_equal(left, right),
{
    match right {
        None => true,
        Some(right) => is_close(left.left, right.left) && is_close(left.top, right.top) && is_close(
            left.right,
            right.right,
        ) && is_close(left.bottom, right.bottom),
    }
}

/// A window of the desktop.
#[derive(Debug, PartialEq, Eq)]
pub struct WindowIdentity {
    pub handle: String,
    pub title: String,
    pub class_name: String,
    pub process_id: u32,
    pub process_name: Option<String>,
    pub bounds: Option<AccessibilityBounds>,
    pub is_foreground: bool,
    pub is_minimized: bool,
    pub owner: Option<String>,
}

/// What a [`WindowIdentity`] stands for.
pub struct WindowIdentityView {
    pub handle: Seq<char>,
    pub title: Seq<char>,
    pub class_name: Seq<char>,
    pub process_id: u32,
    pub process_name: Option<Seq<char>>,
    pub bounds: Option<AccessibilityBounds>,
    pub is_foreground: bool,
    pub is_minimized: bool,
    pub owner: Option<Seq<char>>,
}

impl View for WindowIdentity {
    type V = WindowIdentityView;

    open spec fn view(&self) -> WindowIdentityView {
        WindowIdentityView {
            handle: self.handle@,
            title: self.title@,
            class_name: self.class_name@,
            process_id: self.process_id,
            process_name: opt_text(self.process_name),
            bounds: self.bounds,
            is_foreground: self.is_foreground,
            is_minimized: self.is_minimized,
            owner: opt_text(self.owner),
        }
    }
}

impl Clone for WindowIdentity {
    fn clone(&self) -> (r: Self)
        ensures
            r@ == self@,
    {
        WindowIdentity {
            handle: self.handle.clone(),
            title: self.title.clone(),
            class_name: self.class_name.clone(),
            process_id: self.process_id,
            process_name: copy_opt_text(&self.process_name),
            bounds: self.bounds,
            is_foreground: self.is_foreground,
            is_minimized: self.is_minimized,
            owner: copy_opt_text(&self.owner),
        }
    }
}

impl Faithful for WindowIdentity {
    proof fn clone_keeps_view(&self, copy: &Self) {
    }
}

/// A way to select an element, and how far it can be relied on.
#[derive(Debug, PartialEq)]
pub struct AccessibilitySelectorCandidate {
    pub confidence: SelectorConfidence,
    pub score: u8,
    pub target: Target,
    pub rationale: String,
    /// How it differs from the selector that it would take the place of.
    pub changes: Vec<String>,
    pub warnings: Vec<String>,
}

/// What an [`AccessibilitySelectorCandidate`] stands for.
pub struct AccessibilitySelectorCandidateView {
    pub confidence: SelectorConfidence,
    pub score: u8,
    pub target: TargetView,
    pub rationale: Seq<char>,
    pub changes: Seq<Seq<char>>,
    pub warnings: Seq<Seq<char>>,
}

impl View for AccessibilitySelectorCandidate {
    type V = AccessibilitySelectorCandidateView;

    open spec fn view(&self) -> AccessibilitySelectorCandidateView {
        AccessibilitySelectorCandidateView {
            confidence: self.confidence,
            score: self.score,
            target: self.target@,
            rationale: self.rationale@,
            changes: texts(self.changes@),
            warnings: texts(self.warnings@),
        }
    }
}

impl Clone for AccessibilitySelectorCandidate {
    fn clone(&self) -> (r: Self)
        ensures
            r@ == self@,
    {
        AccessibilitySelectorCandidate {
            confidence: self.confidence,
            score: self.score,
            target: self.target.clone(),
            rationale: self.rationale.clone(),
            changes: copy_texts(&self.changes),
            warnings: copy_texts(&self.warnings),
        }
    }
}

impl Faithful for AccessibilitySelectorCandidate {
    proof fn clone_keeps_view(&self, copy: &Self) {
    }
}

/// An element of a window, with the elements inside it.
#[derive(Debug, PartialEq)]
pub struct AccessibilityNode {
    /// Child indexes from the root of the window.
    pub path: Vec<u32>,
    pub depth: u32,
    pub name: String,
    pub automation_id: String,
    pub control_type: String,
    pub class_name: String,
    pub bounds: Option<AccessibilityBounds>,
    pub click_point: Option<AccessibilityPoint>,
    pub enabled: Option<bool>,
    pub keyboard_focusable: Option<bool>,
    pub has_keyboard_focus: Option<bool>,
    pub value: Option<String>,
    pub actions: Vec<String>,
    pub selector_candidates: Vec<AccessibilitySelectorCandidate>,
    pub children: Vec<AccessibilityNode>,
}

/// What an [`AccessibilityNode`] stands for.
pub struct NodeView {
    pub path: Seq<u32>,
    pub depth: u32,
    pub name: Seq<char>,
    pub automation_id: Seq<char>,
    pub control_type: Seq<char>,
    pub class_name: Seq<char>,
    pub bounds: Option<AccessibilityBounds>,
    pub click_point: Option<AccessibilityPoint>,
    pub enabled: Option<bool>,
    pub keyboard_focusable: Option<bool>,
    pub has_keyboard_focus: Option<bool>,
    pub value: Option<Seq<char>>,
    pub actions: Seq<Seq<char>>,
    pub selector_candidates: Seq<AccessibilitySelectorCandidateView>,
    pub children: Seq<NodeView>,
}

impl AccessibilityNode {
    pub open spec fn node(self) -> NodeView
        decreases self,
    {
        NodeView {
            path: self.path@,
            depth: self.depth,
            name: self.name@,
            automation_id: self.automation_id@,
            control_type: self.control_type@,
            class_name: self.class_name@,
            bounds: self.bounds,
            click_point: self.click_point,
            enabled: self.enabled,
            keyboard_focusable: self.keyboard_focusable,
            has_keyboard_focus: self.has_keyboard_focus,
            value: opt_text(self.value),
            actions: texts(self.actions@),
            selector_candidates: views(self.selector_candidates@),
            children: Seq::new(
                self.children@.len(),
                |i: int|
                    if 0 <= i < self.children@.len() {
                        self.children@[i].node()
                    } else {
                        arbitrary()
                    },
            ),
        }
    }
}

impl View for AccessibilityNode {
    type V = NodeView;

    open spec fn view(&self) -> NodeView {
        self.node()
    }
}

/// The children of a node stand for what they stand for one by one.
pub broadcast proof fn node_children(n: AccessibilityNode)
    ensures
        (#[trigger] n.node()).children == views(n.children@),
{
    assert(n.node().children =~= views(n.children@));
}

/// The elements of a window, as far as they were looked at.
#[derive(Debug, PartialEq)]
pub struct AccessibilityTree {
    pub platform: Platform,
    pub window_title: String,
    pub window: Option<WindowIdentity>,
    pub selector: String,
    pub max_depth: u32,
    pub max_nodes: usize,
    /// Whether something was left out.
    pub truncated: bool,
    pub root: AccessibilityNode,
}

/// What could take the place of a selector that may no longer work.
#[derive(Debug, PartialEq)]
pub struct SelectorRepairReport {
    pub original: Target,
    pub matched: bool,
    pub candidates: Vec<AccessibilitySelectorCandidate>,
    pub diagnostics: Vec<String>,
}

} // verus!
