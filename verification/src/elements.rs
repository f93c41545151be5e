//! Elements of a window as the system shows them, and the trees made from them.
use vstd::prelude::*;
use crate::accessibility::{
    click_point_for_bounds, click_point_of, node_children, AccessibilityBounds, AccessibilityNode,
    NodeView,
};
use crate::definition::Platform;
use crate::selectors::{
    macos_candidates, selector_candidates, selector_candidates_for_node, windows_candidates,
    Described,
};
use crate::text::{concat3, copy_opt_text, copy_texts, opt_text, texts};
use crate::views::{copy_u32s, views, Faithful};

verus! {

/// What the system tells of an element. What it could not tell is missing.
#[derive(Debug, PartialEq, Eq)]
pub struct ElementFacts {
    pub automation_id: Option<String>,
    pub name: Option<String>,
    pub control_type: Option<String>,
    pub class_name: String,
    /// On macOS the finer kind of the element; elsewhere empty.
    pub subrole: String,
    pub bounds: Option<AccessibilityBounds>,
    pub enabled: Option<bool>,
    pub offscreen: Option<bool>,
    pub keyboard_focusable: Option<bool>,
    pub has_keyboard_focus: Option<bool>,
    pub password: Option<bool>,
    pub value: Option<String>,
    pub actions: Vec<String>,
}

/// What an [`ElementFacts`] stands for.
pub struct ElementFactsView {
    pub automation_id: Option<Seq<char>>,
    pub name: Option<Seq<char>>,
    pub control_type: Option<Seq<char>>,
    pub class_name: Seq<char>,
    pub subrole: Seq<char>,
    pub bounds: Option<AccessibilityBounds>,
    pub enabled: Option<bool>,
    pub offscreen: Option<bool>,
    pub keyboard_focusable: Option<bool>,
    pub has_keyboard_focus: Option<bool>,
    pub password: Option<bool>,
    pub value: Option<Seq<char>>,
    pub actions: Seq<Seq<char>>,
}

impl View for ElementFacts {
    type V = ElementFactsView;

    open spec fn view(&self) -> ElementFactsView {
        ElementFactsView {
            automation_id: opt_text(self.automation_id),
            name: opt_text(self.name),
            control_type: opt_text(self.control_type),
            class_name: self.class_name@,
            subrole: self.subrole@,
            bounds: self.bounds,
            enabled: self.enabled,
            offscreen: self.offscreen,
            keyboard_focusable: self.keyboard_focusable,
            has_keyboard_focus: self.has_keyboard_focus,
            password: self.password,
            value: opt_text(self.value),
            actions: texts(self.actions@),
        }
    }
}

impl Clone for ElementFacts {
    fn clone(&self) -> (r: Self)
        ensures
            r@ == self@,
    {
        ElementFacts {
            automation_id: copy_opt_text(&self.automation_id),
            name: copy_opt_text(&self.name),
            control_type: copy_opt_text(&self.control_type),
            class_name: self.class_name.clone(),
            subrole: self.subrole.clone(),
            bounds: self.bounds,
            enabled: self.enabled,
            offscreen: self.offscreen,
            keyboard_focusable: self.keyboard_focusable,
            has_keyboard_focus: self.has_keyboard_focus,
            password: self.password,
            value: copy_opt_text(&self.value),
            actions: copy_texts(&self.actions),
        }
    }
}

impl Faithful for ElementFacts {
    proof fn clone_keeps_view(&self, copy: &Self) {
    }
}

/// Why the elements inside an element are not known.
#[derive(Debug, Clone, Copy, PartialEq, Eq, Structural)]
pub enum Unlisted {
    /// The system did not answer.
    Query,
    /// The system did not say how many there are.
    Count,
}

/// An element with the elements inside it. An item of the list is missing where that child could
/// not be had.
#[derive(Debug, PartialEq, Eq)]
pub struct Element {
    pub facts: ElementFacts,
    pub children: Result<Vec<Option<Element>>, Unlisted>,
}

/// What macOS tells of an element.
#[derive(Debug, PartialEq, Eq)]
pub struct AxFacts {
    pub role: Option<String>,
    pub subrole: Option<String>,
    pub title: Option<String>,
    pub description: Option<String>,
    pub identifier: Option<String>,
    pub bounds: Option<AccessibilityBounds>,
    pub enabled: Option<bool>,
    pub focused: Option<bool>,
    pub value: Option<String>,
    pub actions: Vec<String>,
}

pub open spec fn or_empty(text: Option<Seq<char>>) -> Seq<char> {
    match text {
        Some(t) => t,
        None => Seq::empty(),
    }
}

pub fn text_or_empty(text: &Option<String>) -> (r: String)
    ensures
        r@ == or_empty(opt_text(*text)),
{
    match text {
        Some(t) => t.clone(),
        None => String::new(),
    }
}

/// The kind of a macOS element: its role, with the finer kind behind a colon where there is one.
pub open spec fn role_text(role: Seq<char>, subrole: Seq<char>) -> Seq<char> {
    if subrole.len() == 0 {
        role
    } else {
        role + ":"@ + subrole
    }
}

/// The facts of a macOS element: its name is its title, or else its description.
pub fn facts_from_ax(ax: AxFacts) -> (r: ElementFacts)
    ensures
        r@ == (ElementFactsView {
            automation_id: opt_text(ax.identifier),
            name: Some(
                or_empty(
                    if ax.title is Some {
                        opt_text(ax.title)
                    } else {
                        opt_text(ax.description)
                    },
                ),
            ),
            control_type: Some(
                role_text(or_empty(opt_text(ax.role)), or_empty(opt_text(ax.subrole))),
            ),
            class_name: or_empty(opt_text(ax.role)),
            subrole: or_empty(opt_text(ax.subrole)),
            bounds: ax.bounds,
            enabled: ax.enabled,
            offscreen: None,
            keyboard_focusable: None,
            has_keyboard_focus: ax.focused,
            password: None,
            value: opt_text(ax.value),
            actions: texts(ax.actions@),
        }),
{
    let role = text_or_empty(&ax.role);
    let subrole = text_or_empty(&ax.subrole);
    let name = if ax.title.is_some() {
        text_or_empty(&ax.title)
    } else {
        text_or_empty(&ax.description)
    };
    let control_type = if subrole.as_str().unicode_len() == 0 {
        role.clone()
    } else {
        concat3(role.as_str(), ":", subrole.as_str())
    };
    ElementFacts {
        automation_id: ax.identifier,
        name: Some(name),
        control_type: Some(control_type),
        class_name: role,
        subrole,
        bounds: ax.bounds,
        enabled: ax.enabled,
        offscreen: None,
        keyboard_focusable: None,
        has_keyboard_focus: ax.focused,
        password: None,
        value: ax.value,
        actions: ax.actions,
    }
}

/// What an inspection of a window shows of an element. The value is shown only where values are
/// asked for, and never that of a password field.
pub open spec fn node_of(
    platform: Platform,
    title: Seq<char>,
    path: Seq<u32>,
    f: ElementFactsView,
    values: bool,
    children: Seq<NodeView>,
) -> NodeView {
    let d = Described {
        path,
        automation_id: or_empty(f.automation_id),
        name: or_empty(f.name),
        control_type: or_empty(f.control_type),
    };
    NodeView {
        path,
        depth: path.len() as u32,
        name: d.name,
        automation_id: d.automation_id,
        control_type: d.control_type,
        class_name: f.class_name,
        bounds: f.bounds,
        click_point: match f.bounds {
            Some(b) => click_point_of(b),
            None => None,
        },
        enabled: f.enabled,
        keyboard_focusable: f.keyboard_focusable,
        has_keyboard_focus: f.has_keyboard_focus,
        value: if values && f.password != Some(true) {
            f.value
        } else {
            None
        },
        actions: f.actions,
        selector_candidates: if platform == Platform::MacOs {
            macos_candidates(d)
        } else {
            windows_candidates(title, d)
        },
        children,
    }
}

/// How far an inspection got.
pub struct Inspected {
    pub node: NodeView,
    /// How many more elements it may look at.
    pub left: nat,
    /// Whether something was left out.
    pub truncated: bool,
}

/// The same for the first children of an element.
pub struct InspectedChildren {
    pub nodes: Seq<NodeView>,
    pub left: nat,
    pub truncated: bool,
}

/// Whether there are, or may be, elements inside.
pub open spec fn may_have_children(e: Element) -> bool {
    e.children is Err || e.children->Ok_0@.len() > 0
}

/// An inspection of an element and what is inside it: each element before what is inside it, no
/// deeper than `depth` levels, and no more than `left` elements. On Windows it is noted that
/// something was left out where there is more below the last level, or where the system did not
/// answer; elsewhere only where there were too many elements.
pub open spec fn inspected(
    platform: Platform,
    title: Seq<char>,
    e: Element,
    path: Seq<u32>,
    depth: nat,
    values: bool,
    left: nat,
) -> Inspected
    decreases e, 0nat,
{
    let rest = (left - 1) as nat;
    if depth == 0 {
        Inspected {
            node: node_of(platform, title, path, e.facts@, values, Seq::empty()),
            left: rest,
            truncated: platform != Platform::MacOs && may_have_children(e),
        }
    } else {
        match e.children {
            Err(_) => Inspected {
                node: node_of(platform, title, path, e.facts@, values, Seq::empty()),
                left: rest,
                truncated: platform != Platform::MacOs,
            },
            Ok(children) => {
                let inside = inspected_children(
                    platform,
                    title,
                    children@,
                    children@.len(),
                    path,
                    (depth - 1) as nat,
                    values,
                    rest,
                );
                Inspected {
                    node: node_of(platform, title, path, e.facts@, values, inside.nodes),
                    left: inside.left,
                    truncated: inside.truncated,
                }
            },
        }
    }
}

pub open spec fn inspected_children(
    platform: Platform,
    title: Seq<char>,
    children: Seq<Option<Element>>,
    n: nat,
    path: Seq<u32>,
    depth: nat,
    values: bool,
    left: nat,
) -> InspectedChildren
    decreases children, n,
{
    if n == 0 || n > children.len() {
        InspectedChildren { nodes: Seq::empty(), left, truncated: false }
    } else {
        let before = inspected_children(
            platform,
            title,
            children,
            (n - 1) as nat,
            path,
            depth,
            values,
            left,
        );
        if before.left == 0 {
            InspectedChildren { truncated: true, ..before }
        } else {
            match children[n - 1] {
                None => InspectedChildren { truncated: true, ..before },
                Some(child) => {
                    let one = inspected(
                        platform,
                        title,
                        child,
                        path.push((n - 1) as u32),
                        depth,
                        values,
                        before.left,
                    );
                    InspectedChildren {
                        nodes: before.nodes.push(one.node),
                        left: one.left,
                        truncated: before.truncated || one.truncated,
                    }
                },
            }
        }
    }
}

/// The number of elements in a tree.
pub open spec fn node_count(n: NodeView) -> nat
    decreases n, 0nat,
{
    1 + nodes_count(n.children, n.children.len())
}

pub open spec fn nodes_count(nodes: Seq<NodeView>, k: nat) -> nat
    decreases nodes, k,
{
    if k == 0 || k > nodes.len() {
        0
    } else {
        nodes_count(nodes, (k - 1) as nat) + node_count(nodes[k - 1])
    }
}

proof fn nodes_count_push(nodes: Seq<NodeView>, node: NodeView, k: nat)
    requires
        k <= nodes.len(),
    ensures
        nodes_count(nodes.push(node), k) == nodes_count(nodes, k),
    decreases k,
{
    if k > 0 {
        nodes_count_push(nodes, node, (k - 1) as nat);
    }
}

/// Whether every element of a tree satisfies a condition.
pub open spec fn each_node(n: NodeView, ok: spec_fn(NodeView) -> bool) -> bool
    decreases n, 0nat,
{
    ok(n) && each_of(n.children, n.children.len(), ok)
}

pub open spec fn each_of(nodes: Seq<NodeView>, k: nat, ok: spec_fn(NodeView) -> bool) -> bool
    decreases nodes, k,
{
    if k == 0 || k > nodes.len() {
        true
    } else {
        each_of(nodes, (k - 1) as nat, ok) && each_node(nodes[k - 1], ok)
    }
}

proof fn each_of_push(nodes: Seq<NodeView>, node: NodeView, k: nat, ok: spec_fn(NodeView) -> bool)
    requires
        k <= nodes.len(),
    ensures
        each_of(nodes.push(node), k, ok) == each_of(nodes, k, ok),
    decreases k,
{
    if k > 0 {
        each_of_push(nodes, node, (k - 1) as nat, ok);
    }
}

/// An inspection shows no more elements than it may look at, none deeper than it may go, and no
/// values unless they are asked for.
pub proof fn inspection_is_bounded(
    platform: Platform,
    title: Seq<char>,
    e: Element,
    path: Seq<u32>,
    depth: nat,
    values: bool,
    left: nat,
    limit: nat,
)
    requires
        left > 0,
        path.len() + depth <= limit,
    ensures
        ({
            let r = inspected(platform, title, e, path, depth, values, left);
            &&& node_count(r.node) + r.left == left
            &&& each_node(
                r.node,
                |n: NodeView| n.path.len() <= limit && (!values ==> n.value is None),
            )
        }),
    decreases e, 0nat,
{
    let r = inspected(platform, title, e, path, depth, values, left);
    let ok = |n: NodeView| n.path.len() <= limit && (!values ==> n.value is None);
    if depth > 0 && e.children is Ok {
        let children = e.children->Ok_0@;
        children_are_bounded(
            platform,
            title,
            children,
            children.len(),
            path,
            (depth - 1) as nat,
            values,
            (left - 1) as nat,
            limit,
        );
        assert(e.children->Ok_0@ == children);
    }
    assert(ok(r.node));
}

proof fn children_are_bounded(
    platform: Platform,
    title: Seq<char>,
    children: Seq<Option<Element>>,
    n: nat,
    path: Seq<u32>,
    depth: nat,
    values: bool,
    left: nat,
    limit: nat,
)
    requires
        n <= children.len(),
        path.len() + 1 + depth <= limit,
    ensures
        ({
            let r = inspected_children(platform, title, children, n, path, depth, values, left);
            &&& nodes_count(r.nodes, r.nodes.len()) + r.left == left
            &&& each_of(
                r.nodes,
                r.nodes.len(),
                |n: NodeView| n.path.len() <= limit && (!values ==> n.value is None),
            )
        }),
    decreases children, n,
{
    let ok = |n: NodeView| n.path.len() <= limit && (!values ==> n.value is None);
    if n > 0 {
        children_are_bounded(
            platform,
            title,
            children,
            (n - 1) as nat,
            path,
            depth,
            values,
            left,
            limit,
        );
        let before = inspected_children(
            platform,
            title,
            children,
            (n - 1) as nat,
            path,
            depth,
            values,
            left,
        );
        if before.left > 0 {
            if let Some(child) = children[n - 1] {
                inspection_is_bounded(
                    platform,
                    title,
                    child,
                    path.push((n - 1) as u32),
                    depth,
                    values,
                    before.left,
                    limit,
                );
                let one = inspected(
                    platform,
                    title,
                    child,
                    path.push((n - 1) as u32),
                    depth,
                    values,
                    before.left,
                );
                nodes_count_push(before.nodes, one.node, before.nodes.len());
                each_of_push(before.nodes, one.node, before.nodes.len(), ok);
            }
        }
    }
}

fn make_node(
    platform: Platform,
    title: &str,
    path: &Vec<u32>,
    facts: &ElementFacts,
    values: bool,
    children: Vec<AccessibilityNode>,
) -> (r: AccessibilityNode)
    requires
        path@.len() <= u32::MAX,
    ensures
        r@ == node_of(platform, title@, path@, facts@, values, views(children@)),
{
    broadcast use node_children;

    let name = text_or_empty(&facts.name);
    let automation_id = text_or_empty(&facts.automation_id);
    let control_type = text_or_empty(&facts.control_type);
    let candidates = if platform == Platform::MacOs {
        selector_candidates_for_node(
            path,
            automation_id.as_str(),
            name.as_str(),
            control_type.as_str(),
        )
    } else {
        selector_candidates(
            title,
            path,
            automation_id.as_str(),
            name.as_str(),
            control_type.as_str(),
        )
    };
    let secret = match facts.password {
        Some(password) => password,
        None => false,
    };
    let r = AccessibilityNode {
        path: copy_u32s(path),
        depth: path.len() as u32,
        name,
        automation_id,
        control_type,
        class_name: facts.class_name.clone(),
        bounds: facts.bounds,
        click_point: match facts.bounds {
            Some(b) => click_point_for_bounds(b),
            None => None,
        },
        enabled: facts.enabled,
        keyboard_focusable: facts.keyboard_focusable,
        has_keyboard_focus: facts.has_keyboard_focus,
        value: if values && !secret {
            copy_opt_text(&facts.value)
        } else {
            None
        },
        actions: copy_texts(&facts.actions),
        selector_candidates: candidates,
        children,
    };
    assert(r@.children == views(children@));
    r
}

/// Makes the tree that an inspection shows. `left` counts down with every element.
pub fn inspect_node(
    platform: Platform,
    title: &str,
    element: &Element,
    path: &Vec<u32>,
    depth: u32,
    values: bool,
    left: &mut usize,
    truncated: &mut bool,
) -> (r: AccessibilityNode)
    requires
        *old(left) > 0,
        path@.len() + depth <= u32::MAX,
    ensures
        ({
            let done = inspected(
                platform,
                title@,
                *element,
                path@,
                depth as nat,
                values,
                *old(left) as nat,
            );
            &&& r@ == done.node
            &&& *final(left) == done.left
            &&& *final(truncated) == (*old(truncated) || done.truncated)
        }),
    decreases element,
{
    *left = *left - 1;
    let mut nodes: Vec<AccessibilityNode> = Vec::new();
    assert(views(nodes@) =~= Seq::empty());
    if depth == 0 {
        let more = match &element.children {
            Err(_) => true,
            Ok(children) => children.len() > 0,
        };
        if platform != Platform::MacOs && more {
            *truncated = true;
        }
        return make_node(platform, title, path, &element.facts, values, nodes);
    }
    let children = match &element.children {
        Err(_) => {
            if platform != Platform::MacOs {
                *truncated = true;
            }
            return make_node(platform, title, path, &element.facts, values, nodes);
        },
        Ok(children) => children,
    };
    let ghost start_left = *left as nat;
    let ghost start_truncated = *truncated;
    let ghost all = children@;
    let mut i: usize = 0;
    while i < children.len()
        invariant
            i <= children@.len(),
            all == children@,
            element.children == Ok::<Vec<Option<Element>>, Unlisted>(*children),
            decreases_to!(element => children@),
            depth > 0,
            path@.len() + depth <= u32::MAX,
            ({
                let so_far = inspected_children(
                    platform,
                    title@,
                    all,
                    i as nat,
                    path@,
                    (depth - 1) as nat,
                    values,
                    start_left,
                );
                &&& views(nodes@) == so_far.nodes
                &&& *left == so_far.left
                &&& *truncated == (start_truncated || so_far.truncated)
            }),
        decreases children@.len() - i,
    {
        if *left == 0 {
            *truncated = true;
        } else {
            match &children[i] {
                None => {
                    *truncated = true;
                },
                Some(child) => {
                    let mut child_path = copy_u32s(path);
                    child_path.push(child_index(i));
                    assert(child_path@ =~= path@.push(i as u32));
                    let ghost before = views(nodes@);
                    let node = inspect_node(
                        platform,
                        title,
                        child,
                        &child_path,
                        depth - 1,
                        values,
                        left,
                        truncated,
                    );
                    let ghost added = node@;
                    nodes.push(node);
                    assert(views(nodes@) =~= before.push(added));
                },
            }
        }
        i = i + 1;
    }
    make_node(platform, title, path, &element.facts, values, nodes)
}

/// The number of a child as it stands in a path.
pub fn child_index(i: usize) -> (r: u32)
    ensures
        r == i as u32,
{
    #[verifier::truncate]
    (i as u32)
}

} // verus!
