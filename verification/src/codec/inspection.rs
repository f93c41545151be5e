//! What is seen on the desktop, as JSON records.
use vstd::prelude::*;
use crate::accessibility::{
    node_children, AccessibilityBounds, AccessibilityNode, AccessibilityPoint,
    AccessibilitySelectorCandidate, AccessibilitySelectorCandidateView, AccessibilityTree,
    AdapterCapabilities, NodeView, SelectorConfidence, SelectorRepairReport, WindowIdentity,
    WindowIdentityView,
};
use crate::codec::names::{platform_name, platform_text};
use crate::codec::records::{encode_null_or_text, null_or_text};
use crate::codec::target::{encode_target, target_tree};
use crate::fields::{
    add_field, encode_i32, encode_text, encode_texts, encode_u32s, encode_u64, no_fields, signed,
    texts_tree, u32s_tree, unsigned, with,
};
use crate::text::texts;
use crate::value::{array_tree, object_tree, trees, Json, Tree};
use crate::views::{opt_view, views};

verus! {

/// The name by which records call a degree of confidence.
pub open spec fn confidence_name(v: SelectorConfidence) -> Seq<char> {
    match v {
        SelectorConfidence::High => "high"@,
        SelectorConfidence::Medium => "medium"@,
        SelectorConfidence::Low => "low"@,
        SelectorConfidence::LastResort => "lastResort"@,
    }
}

pub fn confidence_text(v: SelectorConfidence) -> (r: &'static str)
    ensures
        r@ == confidence_name(v),
{
    match v {
        SelectorConfidence::High => "high",
        SelectorConfidence::Medium => "medium",
        SelectorConfidence::Low => "low",
        SelectorConfidence::LastResort => "lastResort",
    }
}

pub open spec fn null_or_bool(v: Option<bool>) -> Tree {
    match v {
        Some(x) => Tree::Bool(x),
        None => Tree::Null,
    }
}

fn encode_null_or_bool(v: Option<bool>) -> (r: Json)
    ensures
        r@ == null_or_bool(v),
{
    match v {
        Some(x) => Json::Bool(x),
        None => Json::Null,
    }
}

/// Bounds as a record.
pub open spec fn bounds_tree(v: AccessibilityBounds) -> Tree {
    let entries: Seq<(Seq<char>, Tree)> = Seq::empty();
    let entries = with(entries, "bottom"@, Some(signed(v.bottom)));
    let entries = with(entries, "left"@, Some(signed(v.left)));
    let entries = with(entries, "right"@, Some(signed(v.right)));
    let entries = with(entries, "top"@, Some(signed(v.top)));
    Tree::Object(entries)
}

pub fn encode_bounds(v: AccessibilityBounds) -> (r: Json)
    ensures
        r@ == bounds_tree(v),
{
    broadcast use object_tree;

    let mut entries = no_fields();
    add_field(&mut entries, "bottom", Some(encode_i32(v.bottom)));
    add_field(&mut entries, "left", Some(encode_i32(v.left)));
    add_field(&mut entries, "right", Some(encode_i32(v.right)));
    add_field(&mut entries, "top", Some(encode_i32(v.top)));
    Json::Object(entries)
}

pub open spec fn null_or_bounds(v: Option<AccessibilityBounds>) -> Tree {
    match v {
        Some(x) => bounds_tree(x),
        None => Tree::Null,
    }
}

fn encode_null_or_bounds(v: Option<AccessibilityBounds>) -> (r: Json)
    ensures
        r@ == null_or_bounds(v),
{
    match v {
        Some(x) => encode_bounds(x),
        None => Json::Null,
    }
}

/// A point as a record.
pub open spec fn point_tree(v: AccessibilityPoint) -> Tree {
    Tree::Object(with(with(Seq::empty(), "x"@, Some(signed(v.x))), "y"@, Some(signed(v.y))))
}

pub fn encode_point(v: AccessibilityPoint) -> (r: Json)
    ensures
        r@ == point_tree(v),
{
    broadcast use object_tree;

    let mut entries = no_fields();
    add_field(&mut entries, "x", Some(encode_i32(v.x)));
    add_field(&mut entries, "y", Some(encode_i32(v.y)));
    Json::Object(entries)
}

pub open spec fn null_or_point(v: Option<AccessibilityPoint>) -> Tree {
    match v {
        Some(x) => point_tree(x),
        None => Tree::Null,
    }
}

fn encode_null_or_point(v: Option<AccessibilityPoint>) -> (r: Json)
    ensures
        r@ == null_or_point(v),
{
    match v {
        Some(x) => encode_point(x),
        None => Json::Null,
    }
}

/// A window as a record.
pub open spec fn window_tree(v: WindowIdentityView) -> Tree {
    let entries: Seq<(Seq<char>, Tree)> = Seq::empty();
    let entries = with(entries, "bounds"@, Some(null_or_bounds(v.bounds)));
    let entries = with(entries, "className"@, Some(Tree::Text(v.class_name)));
    let entries = with(entries, "handle"@, Some(Tree::Text(v.handle)));
    let entries = with(entries, "isForeground"@, Some(Tree::Bool(v.is_foreground)));
    let entries = with(entries, "isMinimized"@, Some(Tree::Bool(v.is_minimized)));
    let entries = with(entries, "owner"@, Some(null_or_text(v.owner)));
    let entries = with(entries, "processId"@, Some(unsigned(v.process_id as u64)));
    let entries = with(entries, "processName"@, Some(null_or_text(v.process_name)));
    let entries = with(entries, "title"@, Some(Tree::Text(v.title)));
    Tree::Object(entries)
}

pub fn encode_window(v: &WindowIdentity) -> (r: Json)
    ensures
        r@ == window_tree(v@),
{
    broadcast use object_tree;

    let mut entries = no_fields();
    add_field(&mut entries, "bounds", Some(encode_null_or_bounds(v.bounds)));
    add_field(&mut entries, "className", Some(encode_text(v.class_name.as_str())));
    add_field(&mut entries, "handle", Some(encode_text(v.handle.as_str())));
    add_field(&mut entries, "isForeground", Some(Json::Bool(v.is_foreground)));
    add_field(&mut entries, "isMinimized", Some(Json::Bool(v.is_minimized)));
    add_field(&mut entries, "owner", Some(encode_null_or_text(&v.owner)));
    add_field(&mut entries, "processId", Some(encode_u64(v.process_id as u64)));
    add_field(&mut entries, "processName", Some(encode_null_or_text(&v.process_name)));
    add_field(&mut entries, "title", Some(encode_text(v.title.as_str())));
    Json::Object(entries)
}

pub open spec fn null_or_window(v: Option<WindowIdentityView>) -> Tree {
    match v {
        Some(x) => window_tree(x),
        None => Tree::Null,
    }
}

fn encode_null_or_window(v: &Option<WindowIdentity>) -> (r: Json)
    ensures
        r@ == null_or_window(opt_view(*v)),
{
    match v {
        Some(x) => encode_window(x),
        None => Json::Null,
    }
}

/// A candidate for a selector as a record.
pub open spec fn candidate_tree(v: AccessibilitySelectorCandidateView) -> Tree {
    let entries: Seq<(Seq<char>, Tree)> = Seq::empty();
    let entries = with(entries, "changes"@, Some(texts_tree(v.changes)));
    let entries = with(entries, "confidence"@, Some(Tree::Text(confidence_name(v.confidence))));
    let entries = with(entries, "rationale"@, Some(Tree::Text(v.rationale)));
    let entries = with(entries, "score"@, Some(unsigned(v.score as u64)));
    let entries = with(entries, "target"@, Some(target_tree(v.target)));
    let entries = with(entries, "warnings"@, Some(texts_tree(v.warnings)));
    Tree::Object(entries)
}

pub fn encode_candidate(v: &AccessibilitySelectorCandidate) -> (r: Json)
    ensures
        r@ == candidate_tree(v@),
{
    broadcast use object_tree;

    let mut entries = no_fields();
    add_field(&mut entries, "changes", Some(encode_texts(&v.changes)));
    add_field(&mut entries, "confidence", Some(encode_text(confidence_text(v.confidence))));
    add_field(&mut entries, "rationale", Some(encode_text(v.rationale.as_str())));
    add_field(&mut entries, "score", Some(encode_u64(v.score as u64)));
    add_field(&mut entries, "target", Some(encode_target(&v.target)));
    add_field(&mut entries, "warnings", Some(encode_texts(&v.warnings)));
    Json::Object(entries)
}

pub open spec fn candidates_tree(items: Seq<AccessibilitySelectorCandidateView>) -> Tree {
    Tree::Array(items.map_values(|x: AccessibilitySelectorCandidateView| candidate_tree(x)))
}

pub fn encode_candidates(items: &Vec<AccessibilitySelectorCandidate>) -> (r: Json)
    ensures
        r@ == candidates_tree(views(items@)),
{
    broadcast use array_tree;

    let mut out: Vec<Json> = Vec::new();
    let mut i: usize = 0;
    while i < items.len()
        invariant
            i <= items@.len(),
            out@.len() == i,
            forall|j: int| 0 <= j < i ==> (#[trigger] out@[j])@ == candidate_tree(items@[j]@),
        decreases items@.len() - i,
    {
        out.push(encode_candidate(&items[i]));
        i = i + 1;
    }
    assert(trees(out@) =~= candidates_tree(views(items@))->Array_0);
    Json::Array(out)
}

/// An element as a record, given the records of its children.
pub open spec fn node_record(v: NodeView, children: Tree) -> Tree {
    let entries: Seq<(Seq<char>, Tree)> = Seq::empty();
    let entries = with(entries, "actions"@, Some(texts_tree(v.actions)));
    let entries = with(entries, "automationId"@, Some(Tree::Text(v.automation_id)));
    let entries = with(entries, "bounds"@, Some(null_or_bounds(v.bounds)));
    let entries = with(entries, "children"@, Some(children));
    let entries = with(entries, "className"@, Some(Tree::Text(v.class_name)));
    let entries = with(entries, "clickPoint"@, Some(null_or_point(v.click_point)));
    let entries = with(entries, "controlType"@, Some(Tree::Text(v.control_type)));
    let entries = with(entries, "depth"@, Some(unsigned(v.depth as u64)));
    let entries = with(entries, "enabled"@, Some(null_or_bool(v.enabled)));
    let entries = with(entries, "hasKeyboardFocus"@, Some(null_or_bool(v.has_keyboard_focus)));
    let entries = with(entries, "keyboardFocusable"@, Some(null_or_bool(v.keyboard_focusable)));
    let entries = with(entries, "name"@, Some(Tree::Text(v.name)));
    let entries = with(entries, "path"@, Some(u32s_tree(v.path)));
    let entries = with(
        entries,
        "selectorCandidates"@,
        Some(candidates_tree(v.selector_candidates)),
    );
    let entries = with(entries, "value"@, Some(null_or_text(v.value)));
    Tree::Object(entries)
}

/// An element as a record, with those inside it.
pub open spec fn node_tree(v: NodeView) -> Tree
    decreases v, v.children.len() + 1,
{
    node_record(v, Tree::Array(children_trees(v, v.children.len())))
}

/// The first children of an element as records.
pub open spec fn children_trees(v: NodeView, n: nat) -> Seq<Tree>
    decreases v, n,
{
    if n == 0 || n > v.children.len() {
        Seq::empty()
    } else {
        children_trees(v, (n - 1) as nat).push(node_tree(v.children[n - 1]))
    }
}

pub fn encode_node(v: &AccessibilityNode) -> (r: Json)
    ensures
        r@ == node_tree(v@),
    decreases v,
{
    broadcast use {array_tree, object_tree, node_children};

    let mut out: Vec<Json> = Vec::new();
    let mut i: usize = 0;
    assert(trees(out@) =~= children_trees(v@, 0));
    while i < v.children.len()
        invariant
            i <= v.children@.len(),
            v@.children == views(v.children@),
            trees(out@) == children_trees(v@, i as nat),
        decreases v.children@.len() - i,
    {
        let ghost before = trees(out@);
        let child = encode_node(&v.children[i]);
        let ghost added = child@;
        out.push(child);
        assert(trees(out@) =~= before.push(added));
        i = i + 1;
    }
    let children = Json::Array(out);
    let mut entries = no_fields();
    add_field(&mut entries, "actions", Some(encode_texts(&v.actions)));
    add_field(&mut entries, "automationId", Some(encode_text(v.automation_id.as_str())));
    add_field(&mut entries, "bounds", Some(encode_null_or_bounds(v.bounds)));
    add_field(&mut entries, "children", Some(children));
    add_field(&mut entries, "className", Some(encode_text(v.class_name.as_str())));
    add_field(&mut entries, "clickPoint", Some(encode_null_or_point(v.click_point)));
    add_field(&mut entries, "controlType", Some(encode_text(v.control_type.as_str())));
    add_field(&mut entries, "depth", Some(encode_u64(v.depth as u64)));
    add_field(&mut entries, "enabled", Some(encode_null_or_bool(v.enabled)));
    add_field(&mut entries, "hasKeyboardFocus", Some(encode_null_or_bool(v.has_keyboard_focus)));
    add_field(&mut entries, "keyboardFocusable", Some(encode_null_or_bool(v.keyboard_focusable)));
    add_field(&mut entries, "name", Some(encode_text(v.name.as_str())));
    add_field(&mut entries, "path", Some(encode_u32s(&v.path)));
    add_field(&mut entries, "selectorCandidates", Some(encode_candidates(&v.selector_candidates)));
    add_field(&mut entries, "value", Some(encode_null_or_text(&v.value)));
    Json::Object(entries)
}

/// The elements of a window as a record.
pub open spec fn inspection_tree(v: AccessibilityTree) -> Tree {
    let entries: Seq<(Seq<char>, Tree)> = Seq::empty();
    let entries = with(entries, "maxDepth"@, Some(unsigned(v.max_depth as u64)));
    let entries = with(entries, "maxNodes"@, Some(unsigned(v.max_nodes as u64)));
    let entries = with(entries, "platform"@, Some(Tree::Text(platform_name(v.platform))));
    let entries = with(entries, "root"@, Some(node_tree(v.root@)));
    let entries = with(entries, "selector"@, Some(Tree::Text(v.selector@)));
    let entries = with(entries, "truncated"@, Some(Tree::Bool(v.truncated)));
    let entries = with(entries, "window"@, Some(null_or_window(opt_view(v.window))));
    let entries = with(entries, "windowTitle"@, Some(Tree::Text(v.window_title@)));
    Tree::Object(entries)
}

pub fn encode_inspection(v: &AccessibilityTree) -> (r: Json)
    ensures
        r@ == inspection_tree(*v),
{
    broadcast use object_tree;

    let mut entries = no_fields();
    add_field(&mut entries, "maxDepth", Some(encode_u64(v.max_depth as u64)));
    add_field(&mut entries, "maxNodes", Some(encode_u64(v.max_nodes as u64)));
    add_field(&mut entries, "platform", Some(encode_text(platform_text(v.platform))));
    add_field(&mut entries, "root", Some(encode_node(&v.root)));
    add_field(&mut entries, "selector", Some(encode_text(v.selector.as_str())));
    add_field(&mut entries, "truncated", Some(Json::Bool(v.truncated)));
    add_field(&mut entries, "window", Some(encode_null_or_window(&v.window)));
    add_field(&mut entries, "windowTitle", Some(encode_text(v.window_title.as_str())));
    Json::Object(entries)
}

/// What could take the place of a selector, as a record.
pub open spec fn repair_tree(v: SelectorRepairReport) -> Tree {
    let entries: Seq<(Seq<char>, Tree)> = Seq::empty();
    let entries = with(entries, "candidates"@, Some(candidates_tree(views(v.candidates@))));
    let entries = with(entries, "diagnostics"@, Some(texts_tree(texts(v.diagnostics@))));
    let entries = with(entries, "matched"@, Some(Tree::Bool(v.matched)));
    let entries = with(entries, "original"@, Some(target_tree(v.original@)));
    Tree::Object(entries)
}

pub fn encode_repair(v: &SelectorRepairReport) -> (r: Json)
    ensures
        r@ == repair_tree(*v),
{
    broadcast use object_tree;

    let mut entries = no_fields();
    add_field(&mut entries, "candidates", Some(encode_candidates(&v.candidates)));
    add_field(&mut entries, "diagnostics", Some(encode_texts(&v.diagnostics)));
    add_field(&mut entries, "matched", Some(Json::Bool(v.matched)));
    add_field(&mut entries, "original", Some(encode_target(&v.original)));
    Json::Object(entries)
}

/// What an adapter can do, as a record.
pub open spec fn capabilities_tree(v: AdapterCapabilities) -> Tree {
    let entries: Seq<(Seq<char>, Tree)> = Seq::empty();
    let entries = with(entries, "platform"@, Some(Tree::Text(platform_name(v.platform))));
    let entries = with(
        entries,
        "supportsAccessibilityTree"@,
        Some(Tree::Bool(v.supports_accessibility_tree)),
    );
    let entries = with(
        entries,
        "supportsCoordinateTargets"@,
        Some(Tree::Bool(v.supports_coordinate_targets)),
    );
    let entries = with(entries, "supportsFocus"@, Some(Tree::Bool(v.supports_focus)));
    let entries = with(entries, "supportsInput"@, Some(Tree::Bool(v.supports_input)));
    let entries = with(entries, "supportsLaunch"@, Some(Tree::Bool(v.supports_launch)));
    let entries = with(
        entries,
        "supportsProcessQueries"@,
        Some(Tree::Bool(v.supports_process_queries)),
    );
    let entries = with(
        entries,
        "supportsSemanticTargets"@,
        Some(Tree::Bool(v.supports_semantic_targets)),
    );
    let entries = with(
        entries,
        "supportsWindowQueries"@,
        Some(Tree::Bool(v.supports_window_queries)),
    );
    Tree::Object(entries)
}

pub fn encode_capabilities(v: AdapterCapabilities) -> (r: Json)
    ensures
        r@ == capabilities_tree(v),
{
    broadcast use object_tree;

    let mut entries = no_fields();
    add_field(&mut entries, "platform", Some(encode_text(platform_text(v.platform))));
    add_field(
        &mut entries,
        "supportsAccessibilityTree",
        Some(Json::Bool(v.supports_accessibility_tree)),
    );
    add_field(
        &mut entries,
        "supportsCoordinateTargets",
        Some(Json::Bool(v.supports_coordinate_targets)),
    );
    add_field(&mut entries, "supportsFocus", Some(Json::Bool(v.supports_focus)));
    add_field(&mut entries, "supportsInput", Some(Json::Bool(v.supports_input)));
    add_field(&mut entries, "supportsLaunch", Some(Json::Bool(v.supports_launch)));
    add_field(&mut entries, "supportsProcessQueries", Some(Json::Bool(v.supports_process_queries)));
    add_field(
        &mut entries,
        "supportsSemanticTargets",
        Some(Json::Bool(v.supports_semantic_targets)),
    );
    add_field(&mut entries, "supportsWindowQueries", Some(Json::Bool(v.supports_window_queries)));
    Json::Object(entries)
}

} // verus!
