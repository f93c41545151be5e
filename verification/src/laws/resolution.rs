//! What the steps and the settings of a run come to once its references are replaced.
use vstd::prelude::*;
use crate::codec::names::{
    action_kind_round_trip, assertion_kind_round_trip, condition_kind_round_trip, ActionKind,
    AssertionKind, ConditionKind,
};
use crate::codec::step::{step_round_trip, step_tree};
use crate::collections::lookup;
use crate::definition::{
    ActionView, AssertionView, AutomationDefinition, PlatformActionOverrideView, StepView,
    TargetView, VariableDefinitionView, VariableSourceView, VariableType, WaitConditionView,
};
use crate::interpolate::{interpolated, references, Failure, Lookup, VariableResolutionError};
use crate::laws::documents::{
    action_told, assertion_says, condition_says, maybe_target, nothing, override_entry_says,
    retry_says, step_is_read, target_says, target_under, text, texts_under,
};
use crate::laws::interpolation::{
    a_name, a_reference_alone_is_its_value, literal, literal_texts_stay, mark,
    values_keep_their_shape,
};
use crate::resolve::{
    interpolated_environment, interpolated_setting, interpolated_step, interpolated_steps,
    resolution, resolve_run_with, scope, sources, ResolvedRun, SecretAnswer, Sources,
};
use crate::run::RunConfig;
use crate::value::Tree;

verus! {

type Entries = Seq<(Seq<char>, Tree)>;

/// A text has become another by having its references replaced.
pub open spec fn filled(before: Seq<char>, after: Seq<char>, vars: Lookup) -> bool {
    interpolated(Tree::Text(before), vars) == Ok::<Tree, Failure>(Tree::Text(after))
}

/// So has a text that need not be there. One that is a reference to nothing is gone.
pub open spec fn maybe_filled(
    before: Option<Seq<char>>,
    after: Option<Seq<char>>,
    vars: Lookup,
) -> bool {
    match (before, after) {
        (None, None) => true,
        (Some(b), Some(a)) => filled(b, a, vars),
        (Some(b), None) => interpolated(Tree::Text(b), vars) == Ok::<Tree, Failure>(Tree::Null),
        (None, Some(_)) => false,
    }
}

pub open spec fn all_filled(
    before: Seq<Seq<char>>,
    after: Seq<Seq<char>>,
    vars: Lookup,
) -> bool {
    before.len() == after.len() && forall|i: int|
        0 <= i < before.len() ==> filled(#[trigger] before[i], after[i], vars)
}

/// The texts of a target have their references replaced, and its numbers stay.
pub open spec fn target_filled(before: TargetView, after: TargetView, vars: Lookup) -> bool {
    &&& maybe_filled(before.app_name, after.app_name, vars)
    &&& maybe_filled(before.process_name, after.process_name, vars)
    &&& maybe_filled(before.window_title, after.window_title, vars)
    &&& maybe_filled(before.title_contains, after.title_contains, vars)
    &&& maybe_filled(before.url, after.url, vars)
    &&& maybe_filled(before.file_path, after.file_path, vars)
    &&& after.coordinates == before.coordinates
    &&& match (before.accessibility, after.accessibility) {
        (None, None) => true,
        (Some(b), Some(a)) => {
            &&& maybe_filled(b.id, a.id, vars)
            &&& maybe_filled(b.name, a.name, vars)
            &&& maybe_filled(b.control_type, a.control_type, vars)
            &&& a.path == b.path
        },
        _ => false,
    }
    &&& match (before.image, after.image) {
        (None, None) => true,
        (Some(b), Some(a)) => filled(b.path, a.path, vars) && a.confidence == b.confidence
            && a.region == b.region,
        _ => false,
    }
}

pub open spec fn maybe_target_filled(
    before: Option<TargetView>,
    after: Option<TargetView>,
    vars: Lookup,
) -> bool {
    match (before, after) {
        (None, None) => true,
        (Some(b), Some(a)) => target_filled(b, a, vars),
        _ => false,
    }
}

/// A condition stays of its kind.
pub open spec fn condition_filled(
    before: WaitConditionView,
    after: WaitConditionView,
    vars: Lookup,
) -> bool {
    match (before, after) {
        (
            WaitConditionView::Duration { duration: b },
            WaitConditionView::Duration { duration: a },
        ) => a == b,
        (
            WaitConditionView::WindowExists { target: b },
            WaitConditionView::WindowExists { target: a },
        ) => target_filled(b, a, vars),
        (
            WaitConditionView::WindowFocused { target: b },
            WaitConditionView::WindowFocused { target: a },
        ) => target_filled(b, a, vars),
        (
            WaitConditionView::TargetExists { target: b },
            WaitConditionView::TargetExists { target: a },
        ) => target_filled(b, a, vars),
        (
            WaitConditionView::TargetNotExists { target: b },
            WaitConditionView::TargetNotExists { target: a },
        ) => target_filled(b, a, vars),
        (
            WaitConditionView::TargetFocused { target: b },
            WaitConditionView::TargetFocused { target: a },
        ) => target_filled(b, a, vars),
        (
            WaitConditionView::TargetEnabled { target: b },
            WaitConditionView::TargetEnabled { target: a },
        ) => target_filled(b, a, vars),
        (
            WaitConditionView::TargetVisible { target: b },
            WaitConditionView::TargetVisible { target: a },
        ) => target_filled(b, a, vars),
        (
            WaitConditionView::TargetActionable { target: b },
            WaitConditionView::TargetActionable { target: a },
        ) => target_filled(b, a, vars),
        (
            WaitConditionView::ProcessRunning { target: b },
            WaitConditionView::ProcessRunning { target: a },
        ) => target_filled(b, a, vars),
        (
            WaitConditionView::TargetNameContains { target: b, text: t },
            WaitConditionView::TargetNameContains { target: a, text: u },
        ) => target_filled(b, a, vars) && filled(t, u, vars),
        (
            WaitConditionView::TargetValueContains { target: b, text: t },
            WaitConditionView::TargetValueContains { target: a, text: u },
        ) => target_filled(b, a, vars) && filled(t, u, vars),
        (
            WaitConditionView::FileExists { path: b },
            WaitConditionView::FileExists { path: a },
        ) => filled(b, a, vars),
        (
            WaitConditionView::CommandExits { command: b, args: t },
            WaitConditionView::CommandExits { command: a, args: u },
        ) => filled(b, a, vars) && all_filled(t, u, vars),
        _ => false,
    }
}

/// An assertion stays of its kind.
pub open spec fn assertion_filled(
    before: AssertionView,
    after: AssertionView,
    vars: Lookup,
) -> bool {
    match (before, after) {
        (
            AssertionView::Condition { condition: b },
            AssertionView::Condition { condition: a },
        ) => condition_filled(b, a, vars),
        (
            AssertionView::TargetExists { target: b },
            AssertionView::TargetExists { target: a },
        ) => target_filled(b, a, vars),
        _ => false,
    }
}

/// An action stays of its kind, and each of its texts becomes what that text comes to.
pub open spec fn action_filled(before: ActionView, after: ActionView, vars: Lookup) -> bool {
    match (before, after) {
        (
            ActionView::LaunchUrl { url: b, target: t },
            ActionView::LaunchUrl { url: a, target: u },
        ) => filled(b, a, vars) && maybe_target_filled(t, u, vars),
        (
            ActionView::LaunchApp { app: b, target: t },
            ActionView::LaunchApp { app: a, target: u },
        ) => filled(b, a, vars) && maybe_target_filled(t, u, vars),
        (
            ActionView::TypeText { text: b, target: t },
            ActionView::TypeText { text: a, target: u },
        ) => filled(b, a, vars) && maybe_target_filled(t, u, vars),
        (
            ActionView::PressKey { keys: b, target: t },
            ActionView::PressKey { keys: a, target: u },
        ) => filled(b, a, vars) && maybe_target_filled(t, u, vars),
        (
            ActionView::OpenFile { path: b, target: t },
            ActionView::OpenFile { path: a, target: u },
        ) => filled(b, a, vars) && maybe_target_filled(t, u, vars),
        (
            ActionView::FocusWindow { target: b },
            ActionView::FocusWindow { target: a },
        ) => target_filled(b, a, vars),
        (
            ActionView::ClickTarget { target: b },
            ActionView::ClickTarget { target: a },
        ) => target_filled(b, a, vars),
        (
            ActionView::Scroll { delta_x: bx, delta_y: by, target: t },
            ActionView::Scroll { delta_x: ax, delta_y: ay, target: u },
        ) => ax == bx && ay == by && maybe_target_filled(t, u, vars),
        (
            ActionView::WaitFor { condition: b },
            ActionView::WaitFor { condition: a },
        ) => condition_filled(b, a, vars),
        (
            ActionView::Assert { assertion: b },
            ActionView::Assert { assertion: a },
        ) => assertion_filled(b, a, vars),
        (
            ActionView::RunCommand { command: b, args: t },
            ActionView::RunCommand { command: a, args: u },
        ) => filled(b, a, vars) && all_filled(t, u, vars),
        _ => false,
    }
}

/// A step keeps its policies, and its texts have their references replaced.
pub open spec fn step_filled(before: StepView, after: StepView, vars: Lookup) -> bool {
    &&& filled(before.id, after.id, vars)
    &&& maybe_filled(before.label, after.label, vars)
    &&& action_filled(before.action, after.action, vars)
    &&& after.timeout == before.timeout
    &&& after.retry == before.retry
    &&& after.on_error == before.on_error
    &&& after.conditions.len() == before.conditions.len()
    &&& forall|i: int|
        0 <= i < before.conditions.len() ==> condition_filled(
            #[trigger] before.conditions[i],
            after.conditions[i],
            vars,
        )
    &&& after.platform_overrides.len() == before.platform_overrides.len()
    &&& forall|i: int|
        0 <= i < before.platform_overrides.len() ==> action_filled(
            (#[trigger] before.platform_overrides[i]).action,
            after.platform_overrides[i].action,
            vars,
        ) && after.platform_overrides[i].platform == before.platform_overrides[i].platform
}

/// An object whose entries are those of another with their references replaced.
spec fn entries_filled(e: Entries, f: Entries, vars: Lookup) -> bool {
    forall|k: Seq<char>|
        match lookup(e, k) {
            None => #[trigger] lookup(f, k) is None,
            Some(t) => lookup(f, k) is Some && interpolated(t, vars) == Ok::<Tree, Failure>(
                lookup(f, k)->0,
            ),
        }
}

proof fn objects_fill(t: Tree, u: Tree, vars: Lookup)
    requires
        t is Object,
        interpolated(t, vars) == Ok::<Tree, Failure>(u),
    ensures
        u is Object,
        entries_filled(t->Object_0, u->Object_0, vars),
{
    values_keep_their_shape(t, vars);
    let e = t->Object_0;
    let f = u->Object_0;
    assert forall|k: Seq<char>|
        match lookup(e, k) {
            None => #[trigger] lookup(f, k) is None,
            Some(v) => lookup(f, k) is Some && interpolated(v, vars) == Ok::<Tree, Failure>(
                lookup(f, k)->0,
            ),
        } by {
        entry_fills(e, f, k, 0, vars);
        assert(e.skip(0) =~= e);
        assert(f.skip(0) =~= f);
    }
}

proof fn entry_fills(e: Entries, f: Entries, k: Seq<char>, n: int, vars: Lookup)
    requires
        0 <= n <= e.len(),
        e.len() == f.len(),
        forall|i: int|
            0 <= i < e.len() ==> (#[trigger] e[i]).0 == f[i].0
                && interpolated(e[i].1, vars) == Ok::<
                Tree,
                Failure,
            >(f[i].1),
    ensures
        match lookup(e.skip(n), k) {
            None => lookup(f.skip(n), k) is None,
            Some(v) => lookup(f.skip(n), k) is Some && interpolated(v, vars) == Ok::<
                Tree,
                Failure,
            >(lookup(f.skip(n), k)->0),
        },
    decreases e.len() - n,
{
    if n < e.len() {
        assert(e.skip(n)[0] == e[n]);
        assert(f.skip(n)[0] == f[n]);
        assert(e.skip(n).drop_first() =~= e.skip(n + 1));
        assert(f.skip(n).drop_first() =~= f.skip(n + 1));
        entry_fills(e, f, k, n + 1, vars);
    }
}

proof fn texts_fill(
    e: Entries,
    f: Entries,
    k: Seq<char>,
    b: Seq<Seq<char>>,
    a: Seq<Seq<char>>,
    vars: Lookup,
)
    requires
        entries_filled(e, f, vars),
        texts_under(e, k, b),
        texts_under(f, k, a),
    ensures
        all_filled(b, a, vars),
{
    if lookup(e, k) is Some {
        let t = lookup(e, k)->0;
        assert(lookup(f, k) is Some);
        values_keep_their_shape(t, vars);
        let items = t->Array_0;
        let done = lookup(f, k)->0->Array_0;
        assert forall|i: int| 0 <= i < b.len() implies filled(#[trigger] b[i], a[i], vars) by {
            assert(items[i] == Tree::Text(b[i]));
            assert(done[i] == Tree::Text(a[i]));
        }
    } else {
        assert(lookup(f, k) is None);
    }
}

/// None of the words of documents holds a reference.
proof fn words_are_literal()
    ensures
        literal("launchUrl"@),
        literal("launchApp"@),
        literal("focusWindow"@),
        literal("typeText"@),
        literal("pressKey"@),
        literal("clickTarget"@),
        literal("scroll"@),
        literal("waitFor"@),
        literal("assert"@),
        literal("runCommand"@),
        literal("openFile"@),
        literal("duration"@),
        literal("windowExists"@),
        literal("windowFocused"@),
        literal("targetExists"@),
        literal("targetNotExists"@),
        literal("targetFocused"@),
        literal("targetEnabled"@),
        literal("targetVisible"@),
        literal("targetActionable"@),
        literal("processRunning"@),
        literal("targetNameContains"@),
        literal("targetValueContains"@),
        literal("fileExists"@),
        literal("commandExits"@),
        literal("condition"@),
        literal("windows"@),
        literal("mac-os"@),
        literal("linux"@),
        literal("stop"@),
        literal("continue"@),
        literal("prompt"@),
        literal("none"@),
        literal("linear"@),
        literal("exponential"@),
{
    reveal_strlit("launchUrl");
    assert("launchUrl"@ =~= seq!['l', 'a', 'u', 'n', 'c', 'h', 'U', 'r', 'l']);
    reveal_strlit("launchApp");
    assert("launchApp"@ =~= seq!['l', 'a', 'u', 'n', 'c', 'h', 'A', 'p', 'p']);
    reveal_strlit("focusWindow");
    assert("focusWindow"@ =~= seq!['f', 'o', 'c', 'u', 's', 'W', 'i', 'n', 'd', 'o', 'w']);
    reveal_strlit("typeText");
    assert("typeText"@ =~= seq!['t', 'y', 'p', 'e', 'T', 'e', 'x', 't']);
    reveal_strlit("pressKey");
    assert("pressKey"@ =~= seq!['p', 'r', 'e', 's', 's', 'K', 'e', 'y']);
    reveal_strlit("clickTarget");
    assert("clickTarget"@ =~= seq!['c', 'l', 'i', 'c', 'k', 'T', 'a', 'r', 'g', 'e', 't']);
    reveal_strlit("scroll");
    assert("scroll"@ =~= seq!['s', 'c', 'r', 'o', 'l', 'l']);
    reveal_strlit("waitFor");
    assert("waitFor"@ =~= seq!['w', 'a', 'i', 't', 'F', 'o', 'r']);
    reveal_strlit("assert");
    assert("assert"@ =~= seq!['a', 's', 's', 'e', 'r', 't']);
    reveal_strlit("runCommand");
    assert("runCommand"@ =~= seq!['r', 'u', 'n', 'C', 'o', 'm', 'm', 'a', 'n', 'd']);
    reveal_strlit("openFile");
    assert("openFile"@ =~= seq!['o', 'p', 'e', 'n', 'F', 'i', 'l', 'e']);
    reveal_strlit("duration");
    assert("duration"@ =~= seq!['d', 'u', 'r', 'a', 't', 'i', 'o', 'n']);
    reveal_strlit("windowExists");
    assert("windowExists"@ =~= seq!['w', 'i', 'n', 'd', 'o', 'w', 'E', 'x', 'i', 's', 't', 's']);
    reveal_strlit("windowFocused");
    assert("windowFocused"@ =~= seq![
        'w', 'i', 'n', 'd', 'o', 'w', 'F', 'o', 'c', 'u', 's', 'e', 'd',
    ]);
    reveal_strlit("targetExists");
    assert("targetExists"@ =~= seq!['t', 'a', 'r', 'g', 'e', 't', 'E', 'x', 'i', 's', 't', 's']);
    reveal_strlit("targetNotExists");
    assert("targetNotExists"@ =~= seq![
        't', 'a', 'r', 'g', 'e', 't', 'N', 'o', 't', 'E', 'x', 'i', 's', 't', 's',
    ]);
    reveal_strlit("targetFocused");
    assert("targetFocused"@ =~= seq![
        't', 'a', 'r', 'g', 'e', 't', 'F', 'o', 'c', 'u', 's', 'e', 'd',
    ]);
    reveal_strlit("targetEnabled");
    assert("targetEnabled"@ =~= seq![
        't', 'a', 'r', 'g', 'e', 't', 'E', 'n', 'a', 'b', 'l', 'e', 'd',
    ]);
    reveal_strlit("targetVisible");
    assert("targetVisible"@ =~= seq![
        't', 'a', 'r', 'g', 'e', 't', 'V', 'i', 's', 'i', 'b', 'l', 'e',
    ]);
    reveal_strlit("targetActionable");
    assert("targetActionable"@ =~= seq![
        't', 'a', 'r', 'g', 'e', 't', 'A', 'c', 't', 'i', 'o', 'n', 'a', 'b', 'l', 'e',
    ]);
    reveal_strlit("processRunning");
    assert("processRunning"@ =~= seq![
        'p', 'r', 'o', 'c', 'e', 's', 's', 'R', 'u', 'n', 'n', 'i', 'n', 'g',
    ]);
    reveal_strlit("targetNameContains");
    assert("targetNameContains"@ =~= seq![
        't', 'a', 'r', 'g', 'e', 't', 'N', 'a', 'm', 'e', 'C', 'o', 'n', 't', 'a', 'i', 'n', 's',
    ]);
    reveal_strlit("targetValueContains");
    assert("targetValueContains"@ =~= seq![
        't', 'a', 'r', 'g', 'e', 't', 'V', 'a', 'l', 'u', 'e', 'C', 'o', 'n', 't', 'a', 'i', 'n',
        's',
    ]);
    reveal_strlit("fileExists");
    assert("fileExists"@ =~= seq!['f', 'i', 'l', 'e', 'E', 'x', 'i', 's', 't', 's']);
    reveal_strlit("commandExits");
    assert("commandExits"@ =~= seq!['c', 'o', 'm', 'm', 'a', 'n', 'd', 'E', 'x', 'i', 't', 's']);
    reveal_strlit("condition");
    assert("condition"@ =~= seq!['c', 'o', 'n', 'd', 'i', 't', 'i', 'o', 'n']);
    reveal_strlit("windows");
    assert("windows"@ =~= seq!['w', 'i', 'n', 'd', 'o', 'w', 's']);
    reveal_strlit("mac-os");
    assert("mac-os"@ =~= seq!['m', 'a', 'c', '-', 'o', 's']);
    reveal_strlit("linux");
    assert("linux"@ =~= seq!['l', 'i', 'n', 'u', 'x']);
    reveal_strlit("stop");
    assert("stop"@ =~= seq!['s', 't', 'o', 'p']);
    reveal_strlit("continue");
    assert("continue"@ =~= seq!['c', 'o', 'n', 't', 'i', 'n', 'u', 'e']);
    reveal_strlit("prompt");
    assert("prompt"@ =~= seq!['p', 'r', 'o', 'm', 'p', 't']);
    reveal_strlit("none");
    assert("none"@ =~= seq!['n', 'o', 'n', 'e']);
    reveal_strlit("linear");
    assert("linear"@ =~= seq!['l', 'i', 'n', 'e', 'a', 'r']);
    reveal_strlit("exponential");
    assert("exponential"@ =~= seq!['e', 'x', 'p', 'o', 'n', 'e', 'n', 't', 'i', 'a', 'l']);
}

proof fn words_stay(vars: Lookup)
    ensures
        interpolated(Tree::Text("launchUrl"@), vars)
            == Ok::<Tree, Failure>(Tree::Text("launchUrl"@)),
        interpolated(Tree::Text("launchApp"@), vars)
            == Ok::<Tree, Failure>(Tree::Text("launchApp"@)),
        interpolated(Tree::Text("focusWindow"@), vars)
            == Ok::<Tree, Failure>(Tree::Text("focusWindow"@)),
        interpolated(Tree::Text("typeText"@), vars) == Ok::<Tree, Failure>(Tree::Text("typeText"@)),
        interpolated(Tree::Text("pressKey"@), vars) == Ok::<Tree, Failure>(Tree::Text("pressKey"@)),
        interpolated(Tree::Text("clickTarget"@), vars)
            == Ok::<Tree, Failure>(Tree::Text("clickTarget"@)),
        interpolated(Tree::Text("scroll"@), vars) == Ok::<Tree, Failure>(Tree::Text("scroll"@)),
        interpolated(Tree::Text("waitFor"@), vars) == Ok::<Tree, Failure>(Tree::Text("waitFor"@)),
        interpolated(Tree::Text("assert"@), vars) == Ok::<Tree, Failure>(Tree::Text("assert"@)),
        interpolated(Tree::Text("runCommand"@), vars)
            == Ok::<Tree, Failure>(Tree::Text("runCommand"@)),
        interpolated(Tree::Text("openFile"@), vars) == Ok::<Tree, Failure>(Tree::Text("openFile"@)),
        interpolated(Tree::Text("duration"@), vars) == Ok::<Tree, Failure>(Tree::Text("duration"@)),
        interpolated(Tree::Text("windowExists"@), vars)
            == Ok::<Tree, Failure>(Tree::Text("windowExists"@)),
        interpolated(Tree::Text("windowFocused"@), vars)
            == Ok::<Tree, Failure>(Tree::Text("windowFocused"@)),
        interpolated(Tree::Text("targetExists"@), vars)
            == Ok::<Tree, Failure>(Tree::Text("targetExists"@)),
        interpolated(Tree::Text("targetNotExists"@), vars)
            == Ok::<Tree, Failure>(Tree::Text("targetNotExists"@)),
        interpolated(Tree::Text("targetFocused"@), vars)
            == Ok::<Tree, Failure>(Tree::Text("targetFocused"@)),
        interpolated(Tree::Text("targetEnabled"@), vars)
            == Ok::<Tree, Failure>(Tree::Text("targetEnabled"@)),
        interpolated(Tree::Text("targetVisible"@), vars)
            == Ok::<Tree, Failure>(Tree::Text("targetVisible"@)),
        interpolated(Tree::Text("targetActionable"@), vars)
            == Ok::<Tree, Failure>(Tree::Text("targetActionable"@)),
        interpolated(Tree::Text("processRunning"@), vars)
            == Ok::<Tree, Failure>(Tree::Text("processRunning"@)),
        interpolated(Tree::Text("targetNameContains"@), vars)
            == Ok::<Tree, Failure>(Tree::Text("targetNameContains"@)),
        interpolated(Tree::Text("targetValueContains"@), vars)
            == Ok::<Tree, Failure>(Tree::Text("targetValueContains"@)),
        interpolated(Tree::Text("fileExists"@), vars)
            == Ok::<Tree, Failure>(Tree::Text("fileExists"@)),
        interpolated(Tree::Text("commandExits"@), vars)
            == Ok::<Tree, Failure>(Tree::Text("commandExits"@)),
        interpolated(Tree::Text("condition"@), vars)
            == Ok::<Tree, Failure>(Tree::Text("condition"@)),
        interpolated(Tree::Text("windows"@), vars) == Ok::<Tree, Failure>(Tree::Text("windows"@)),
        interpolated(Tree::Text("mac-os"@), vars) == Ok::<Tree, Failure>(Tree::Text("mac-os"@)),
        interpolated(Tree::Text("linux"@), vars) == Ok::<Tree, Failure>(Tree::Text("linux"@)),
        interpolated(Tree::Text("stop"@), vars) == Ok::<Tree, Failure>(Tree::Text("stop"@)),
        interpolated(Tree::Text("continue"@), vars) == Ok::<Tree, Failure>(Tree::Text("continue"@)),
        interpolated(Tree::Text("prompt"@), vars) == Ok::<Tree, Failure>(Tree::Text("prompt"@)),
        interpolated(Tree::Text("none"@), vars) == Ok::<Tree, Failure>(Tree::Text("none"@)),
        interpolated(Tree::Text("linear"@), vars) == Ok::<Tree, Failure>(Tree::Text("linear"@)),
        interpolated(Tree::Text("exponential"@), vars)
            == Ok::<Tree, Failure>(Tree::Text("exponential"@)),
{
    words_are_literal();
    literal_texts_stay("launchUrl"@, vars);
    literal_texts_stay("launchApp"@, vars);
    literal_texts_stay("focusWindow"@, vars);
    literal_texts_stay("typeText"@, vars);
    literal_texts_stay("pressKey"@, vars);
    literal_texts_stay("clickTarget"@, vars);
    literal_texts_stay("scroll"@, vars);
    literal_texts_stay("waitFor"@, vars);
    literal_texts_stay("assert"@, vars);
    literal_texts_stay("runCommand"@, vars);
    literal_texts_stay("openFile"@, vars);
    literal_texts_stay("duration"@, vars);
    literal_texts_stay("windowExists"@, vars);
    literal_texts_stay("windowFocused"@, vars);
    literal_texts_stay("targetExists"@, vars);
    literal_texts_stay("targetNotExists"@, vars);
    literal_texts_stay("targetFocused"@, vars);
    literal_texts_stay("targetEnabled"@, vars);
    literal_texts_stay("targetVisible"@, vars);
    literal_texts_stay("targetActionable"@, vars);
    literal_texts_stay("processRunning"@, vars);
    literal_texts_stay("targetNameContains"@, vars);
    literal_texts_stay("targetValueContains"@, vars);
    literal_texts_stay("fileExists"@, vars);
    literal_texts_stay("commandExits"@, vars);
    literal_texts_stay("condition"@, vars);
    literal_texts_stay("windows"@, vars);
    literal_texts_stay("mac-os"@, vars);
    literal_texts_stay("linux"@, vars);
    literal_texts_stay("stop"@, vars);
    literal_texts_stay("continue"@, vars);
    literal_texts_stay("prompt"@, vars);
    literal_texts_stay("none"@, vars);
    literal_texts_stay("linear"@, vars);
    literal_texts_stay("exponential"@, vars);
}

proof fn numbers_stay(t: Tree, vars: Lookup)
    requires
        !(t is Text || t is Array || t is Object),
    ensures
        interpolated(t, vars) == Ok::<Tree, Failure>(t),
{
}

proof fn number_lists_stay(t: Tree, u: Tree, vars: Lookup)
    requires
        t is Array,
        forall|i: int| 0 <= i < t->Array_0.len() ==> (#[trigger] t->Array_0[i]) is Number,
        interpolated(t, vars) == Ok::<Tree, Failure>(u),
    ensures
        u == t,
{
    values_keep_their_shape(t, vars);
    let items = t->Array_0;
    let done = u->Array_0;
    assert forall|i: int| 0 <= i < items.len() implies items[i] == #[trigger] done[i] by {
        assert(items[i] is Number);
        numbers_stay(items[i], vars);
    }
    assert(items =~= done);
}

#[verifier::rlimit(40)]
proof fn target_fills(t: Tree, u: Tree, b: TargetView, a: TargetView, vars: Lookup)
    requires
        target_says(t, b),
        target_says(u, a),
        interpolated(t, vars) == Ok::<Tree, Failure>(u),
    ensures
        target_filled(b, a, vars),
{
    objects_fill(t, u, vars);
    let e = t->Object_0;
    let f = u->Object_0;
    assert(maybe_filled(b.app_name, a.app_name, vars)) by {
        assert(lookup(f, "appName"@) is Some || lookup(f, "appName"@) is None);
    }
    assert(maybe_filled(b.process_name, a.process_name, vars)) by {
        assert(lookup(f, "processName"@) is Some || lookup(f, "processName"@) is None);
    }
    assert(maybe_filled(b.window_title, a.window_title, vars)) by {
        assert(lookup(f, "windowTitle"@) is Some || lookup(f, "windowTitle"@) is None);
    }
    assert(maybe_filled(b.title_contains, a.title_contains, vars)) by {
        assert(lookup(f, "titleContains"@) is Some || lookup(f, "titleContains"@) is None);
    }
    assert(maybe_filled(b.url, a.url, vars)) by {
        assert(lookup(f, "url"@) is Some || lookup(f, "url"@) is None);
    }
    assert(maybe_filled(b.file_path, a.file_path, vars)) by {
        assert(lookup(f, "filePath"@) is Some || lookup(f, "filePath"@) is None);
    }
    assert(a.coordinates == b.coordinates) by {
        if b.coordinates is Some {
            assert(lookup(f, "coordinates"@) is Some);
            let p = lookup(e, "coordinates"@)->0;
            let q = lookup(f, "coordinates"@)->0;
            objects_fill(p, q, vars);
            assert(lookup(q->Object_0, "x"@) is Some);
            assert(lookup(q->Object_0, "y"@) is Some);
        } else {
            assert(nothing(f, "coordinates"@)) by {
                assert(lookup(f, "coordinates"@) is Some || lookup(f, "coordinates"@) is None);
            }
        }
    }
    if b.accessibility is Some {
        assert(lookup(f, "accessibility"@) is Some);
        let p = lookup(e, "accessibility"@)->0;
        let q = lookup(f, "accessibility"@)->0;
        objects_fill(p, q, vars);
        let g = q->Object_0;
        assert(lookup(g, "id"@) is Some || lookup(g, "id"@) is None);
        assert(lookup(g, "name"@) is Some || lookup(g, "name"@) is None);
        assert(lookup(g, "controlType"@) is Some || lookup(g, "controlType"@) is None);
        assert(lookup(g, "path"@) is Some || lookup(g, "path"@) is None);
        let x = b.accessibility->0;
        let y = a.accessibility->0;
        if x.path is Some {
            let m = lookup(p->Object_0, "path"@)->0;
            number_lists_stay(m, lookup(g, "path"@)->0, vars);
            assert(x.path->0 =~= y.path->0) by {
                assert forall|i: int| 0 <= i < x.path->0.len() implies x.path->0[i]
                    == #[trigger] y.path->0[i] by {
                    assert(m->Array_0[i] is Number);
                }
            }
        }
    } else {
        assert(nothing(f, "accessibility"@)) by {
            assert(lookup(f, "accessibility"@) is Some || lookup(f, "accessibility"@) is None);
        }
    }
    if b.image is Some {
        assert(lookup(f, "image"@) is Some);
        let p = lookup(e, "image"@)->0;
        let q = lookup(f, "image"@)->0;
        objects_fill(p, q, vars);
        let g = q->Object_0;
        assert(lookup(g, "path"@) is Some || lookup(g, "path"@) is None);
        assert(lookup(g, "confidence"@) is Some || lookup(g, "confidence"@) is None);
        assert(lookup(g, "region"@) is Some || lookup(g, "region"@) is None);
        if b.image->0.region is Some {
            let m = lookup(p->Object_0, "region"@)->0;
            let n = lookup(g, "region"@)->0;
            objects_fill(m, n, vars);
            let h = n->Object_0;
            assert(lookup(h, "left"@) is Some);
            assert(lookup(h, "top"@) is Some);
            assert(lookup(h, "width"@) is Some);
            assert(lookup(h, "height"@) is Some);
        }
    } else {
        assert(nothing(f, "image"@)) by {
            assert(lookup(f, "image"@) is Some || lookup(f, "image"@) is None);
        }
    }
}

proof fn target_under_fills(
    e: Entries,
    f: Entries,
    b: TargetView,
    a: TargetView,
    vars: Lookup,
)
    requires
        entries_filled(e, f, vars),
        target_under(e, "target"@, b),
        target_under(f, "target"@, a),
    ensures
        target_filled(b, a, vars),
{
    assert(lookup(f, "target"@) is Some);
    target_fills(lookup(e, "target"@)->0, lookup(f, "target"@)->0, b, a, vars);
}

proof fn maybe_target_fills(
    e: Entries,
    f: Entries,
    b: Option<TargetView>,
    a: Option<TargetView>,
    vars: Lookup,
)
    requires
        entries_filled(e, f, vars),
        maybe_target(e, "target"@, b),
        maybe_target(f, "target"@, a),
    ensures
        maybe_target_filled(b, a, vars),
{
    assert(lookup(f, "target"@) is Some || lookup(f, "target"@) is None);
    if b is Some {
        objects_fill(lookup(e, "target"@)->0, lookup(f, "target"@)->0, vars);
        target_under_fills(e, f, b->0, a->0, vars);
    }
}

spec fn condition_word(c: WaitConditionView) -> Seq<char> {
    match c {
        WaitConditionView::Duration { .. } => "duration"@,
        WaitConditionView::WindowExists { .. } => "windowExists"@,
        WaitConditionView::WindowFocused { .. } => "windowFocused"@,
        WaitConditionView::TargetExists { .. } => "targetExists"@,
        WaitConditionView::TargetNotExists { .. } => "targetNotExists"@,
        WaitConditionView::TargetFocused { .. } => "targetFocused"@,
        WaitConditionView::TargetEnabled { .. } => "targetEnabled"@,
        WaitConditionView::TargetVisible { .. } => "targetVisible"@,
        WaitConditionView::TargetActionable { .. } => "targetActionable"@,
        WaitConditionView::ProcessRunning { .. } => "processRunning"@,
        WaitConditionView::TargetNameContains { .. } => "targetNameContains"@,
        WaitConditionView::TargetValueContains { .. } => "targetValueContains"@,
        WaitConditionView::FileExists { .. } => "fileExists"@,
        WaitConditionView::CommandExits { .. } => "commandExits"@,
    }
}

spec fn condition_kind(c: WaitConditionView) -> ConditionKind {
    match c {
        WaitConditionView::Duration { .. } => ConditionKind::Duration,
        WaitConditionView::WindowExists { .. } => ConditionKind::WindowExists,
        WaitConditionView::WindowFocused { .. } => ConditionKind::WindowFocused,
        WaitConditionView::TargetExists { .. } => ConditionKind::TargetExists,
        WaitConditionView::TargetNotExists { .. } => ConditionKind::TargetNotExists,
        WaitConditionView::TargetFocused { .. } => ConditionKind::TargetFocused,
        WaitConditionView::TargetEnabled { .. } => ConditionKind::TargetEnabled,
        WaitConditionView::TargetVisible { .. } => ConditionKind::TargetVisible,
        WaitConditionView::TargetActionable { .. } => ConditionKind::TargetActionable,
        WaitConditionView::ProcessRunning { .. } => ConditionKind::ProcessRunning,
        WaitConditionView::TargetNameContains { .. } => ConditionKind::TargetNameContains,
        WaitConditionView::TargetValueContains { .. } => ConditionKind::TargetValueContains,
        WaitConditionView::FileExists { .. } => ConditionKind::FileExists,
        WaitConditionView::CommandExits { .. } => ConditionKind::CommandExits,
    }
}

proof fn conditions_keep_kind(b: WaitConditionView, a: WaitConditionView)
    requires
        condition_word(a) == condition_word(b),
    ensures
        condition_kind(a) == condition_kind(b),
{
    condition_kind_round_trip(condition_kind(a));
    condition_kind_round_trip(condition_kind(b));
}

proof fn condition_fills(
    t: Tree,
    u: Tree,
    b: WaitConditionView,
    a: WaitConditionView,
    vars: Lookup,
)
    requires
        condition_says(t, b),
        condition_says(u, a),
        interpolated(t, vars) == Ok::<Tree, Failure>(u),
    ensures
        condition_filled(b, a, vars),
{
    objects_fill(t, u, vars);
    let e = t->Object_0;
    let f = u->Object_0;
    words_stay(vars);
    assert(text(e, "kind"@, condition_word(b)));
    assert(text(f, "kind"@, condition_word(a)));
    assert(lookup(f, "kind"@) is Some);
    conditions_keep_kind(b, a);
    match (b, a) {
        (
            WaitConditionView::Duration { duration: x },
            WaitConditionView::Duration { duration: y },
        ) => {
            assert(lookup(f, "duration"@) is Some);
            let p = lookup(e, "duration"@)->0;
            let q = lookup(f, "duration"@)->0;
            objects_fill(p, q, vars);
            assert(lookup(q->Object_0, "millis"@) is Some);
        },
        (
            WaitConditionView::WindowExists { target: x },
            WaitConditionView::WindowExists { target: y },
        ) => target_under_fills(e, f, x, y, vars),
        (
            WaitConditionView::WindowFocused { target: x },
            WaitConditionView::WindowFocused { target: y },
        ) => target_under_fills(e, f, x, y, vars),
        (
            WaitConditionView::TargetExists { target: x },
            WaitConditionView::TargetExists { target: y },
        ) => target_under_fills(e, f, x, y, vars),
        (
            WaitConditionView::TargetNotExists { target: x },
            WaitConditionView::TargetNotExists { target: y },
        ) => target_under_fills(e, f, x, y, vars),
        (
            WaitConditionView::TargetFocused { target: x },
            WaitConditionView::TargetFocused { target: y },
        ) => target_under_fills(e, f, x, y, vars),
        (
            WaitConditionView::TargetEnabled { target: x },
            WaitConditionView::TargetEnabled { target: y },
        ) => target_under_fills(e, f, x, y, vars),
        (
            WaitConditionView::TargetVisible { target: x },
            WaitConditionView::TargetVisible { target: y },
        ) => target_under_fills(e, f, x, y, vars),
        (
            WaitConditionView::TargetActionable { target: x },
            WaitConditionView::TargetActionable { target: y },
        ) => target_under_fills(e, f, x, y, vars),
        (
            WaitConditionView::ProcessRunning { target: x },
            WaitConditionView::ProcessRunning { target: y },
        ) => target_under_fills(e, f, x, y, vars),
        (
            WaitConditionView::TargetNameContains { target: x, .. },
            WaitConditionView::TargetNameContains { target: y, .. },
        ) => {
            assert(lookup(f, "text"@) is Some);
            target_under_fills(e, f, x, y, vars);
        },
        (
            WaitConditionView::TargetValueContains { target: x, .. },
            WaitConditionView::TargetValueContains { target: y, .. },
        ) => {
            assert(lookup(f, "text"@) is Some);
            target_under_fills(e, f, x, y, vars);
        },
        (WaitConditionView::FileExists { .. }, WaitConditionView::FileExists { .. }) => {
            assert(lookup(f, "path"@) is Some);
        },
        (
            WaitConditionView::CommandExits { args: x, .. },
            WaitConditionView::CommandExits { args: y, .. },
        ) => {
            assert(lookup(f, "command"@) is Some);
            texts_fill(e, f, "args"@, x, y, vars);
        },
        _ => {},
    }
}

proof fn assertion_fills(t: Tree, u: Tree, b: AssertionView, a: AssertionView, vars: Lookup)
    requires
        assertion_says(t, b),
        assertion_says(u, a),
        interpolated(t, vars) == Ok::<Tree, Failure>(u),
    ensures
        assertion_filled(b, a, vars),
{
    objects_fill(t, u, vars);
    let e = t->Object_0;
    let f = u->Object_0;
    words_stay(vars);
    assertion_kind_round_trip(AssertionKind::Condition);
    assertion_kind_round_trip(AssertionKind::TargetExists);
    assert(lookup(f, "kind"@) is Some);
    match (b, a) {
        (AssertionView::Condition { condition: x }, AssertionView::Condition { condition: y }) => {
            assert(lookup(f, "condition"@) is Some);
            condition_fills(lookup(e, "condition"@)->0, lookup(f, "condition"@)->0, x, y, vars);
        },
        (AssertionView::TargetExists { target: x }, AssertionView::TargetExists { target: y }) => {
            target_under_fills(e, f, x, y, vars);
        },
        _ => {},
    }
}

spec fn action_word(x: ActionView) -> Seq<char> {
    match x {
        ActionView::LaunchUrl { .. } => "launchUrl"@,
        ActionView::LaunchApp { .. } => "launchApp"@,
        ActionView::FocusWindow { .. } => "focusWindow"@,
        ActionView::TypeText { .. } => "typeText"@,
        ActionView::PressKey { .. } => "pressKey"@,
        ActionView::ClickTarget { .. } => "clickTarget"@,
        ActionView::Scroll { .. } => "scroll"@,
        ActionView::WaitFor { .. } => "waitFor"@,
        ActionView::Assert { .. } => "assert"@,
        ActionView::RunCommand { .. } => "runCommand"@,
        ActionView::OpenFile { .. } => "openFile"@,
    }
}

spec fn action_kind(x: ActionView) -> ActionKind {
    match x {
        ActionView::LaunchUrl { .. } => ActionKind::LaunchUrl,
        ActionView::LaunchApp { .. } => ActionKind::LaunchApp,
        ActionView::FocusWindow { .. } => ActionKind::FocusWindow,
        ActionView::TypeText { .. } => ActionKind::TypeText,
        ActionView::PressKey { .. } => ActionKind::PressKey,
        ActionView::ClickTarget { .. } => ActionKind::ClickTarget,
        ActionView::Scroll { .. } => ActionKind::Scroll,
        ActionView::WaitFor { .. } => ActionKind::WaitFor,
        ActionView::Assert { .. } => ActionKind::Assert,
        ActionView::RunCommand { .. } => ActionKind::RunCommand,
        ActionView::OpenFile { .. } => ActionKind::OpenFile,
    }
}

proof fn actions_keep_kind(b: ActionView, a: ActionView)
    requires
        action_word(a) == action_word(b),
    ensures
        action_kind(a) == action_kind(b),
{
    action_kind_round_trip(action_kind(a));
    action_kind_round_trip(action_kind(b));
}

proof fn action_fills(e: Entries, f: Entries, b: ActionView, a: ActionView, vars: Lookup)
    requires
        action_told(e, b),
        action_told(f, a),
        entries_filled(e, f, vars),
    ensures
        action_filled(b, a, vars),
{
    words_stay(vars);
    assert(text(e, "kind"@, action_word(b)));
    assert(text(f, "kind"@, action_word(a)));
    assert(lookup(f, "kind"@) is Some);
    actions_keep_kind(b, a);
    match (b, a) {
        (ActionView::LaunchUrl { target: x, .. }, ActionView::LaunchUrl { target: y, .. }) => {
            assert(lookup(f, "url"@) is Some);
            maybe_target_fills(e, f, x, y, vars);
        },
        (ActionView::LaunchApp { target: x, .. }, ActionView::LaunchApp { target: y, .. }) => {
            assert(lookup(f, "app"@) is Some);
            maybe_target_fills(e, f, x, y, vars);
        },
        (ActionView::TypeText { target: x, .. }, ActionView::TypeText { target: y, .. }) => {
            assert(lookup(f, "text"@) is Some);
            maybe_target_fills(e, f, x, y, vars);
        },
        (ActionView::PressKey { target: x, .. }, ActionView::PressKey { target: y, .. }) => {
            assert(lookup(f, "keys"@) is Some);
            maybe_target_fills(e, f, x, y, vars);
        },
        (ActionView::OpenFile { target: x, .. }, ActionView::OpenFile { target: y, .. }) => {
            assert(lookup(f, "path"@) is Some);
            maybe_target_fills(e, f, x, y, vars);
        },
        (ActionView::FocusWindow { target: x }, ActionView::FocusWindow { target: y }) => {
            target_under_fills(e, f, x, y, vars);
        },
        (ActionView::ClickTarget { target: x }, ActionView::ClickTarget { target: y }) => {
            target_under_fills(e, f, x, y, vars);
        },
        (ActionView::Scroll { target: x, .. }, ActionView::Scroll { target: y, .. }) => {
            assert(lookup(f, "delta_x"@) is Some);
            assert(lookup(f, "delta_y"@) is Some);
            maybe_target_fills(e, f, x, y, vars);
        },
        (ActionView::WaitFor { condition: x }, ActionView::WaitFor { condition: y }) => {
            assert(lookup(f, "condition"@) is Some);
            condition_fills(lookup(e, "condition"@)->0, lookup(f, "condition"@)->0, x, y, vars);
        },
        (ActionView::Assert { assertion: x }, ActionView::Assert { assertion: y }) => {
            assert(lookup(f, "assertion"@) is Some);
            assertion_fills(lookup(e, "assertion"@)->0, lookup(f, "assertion"@)->0, x, y, vars);
        },
        (ActionView::RunCommand { args: x, .. }, ActionView::RunCommand { args: y, .. }) => {
            assert(lookup(f, "command"@) is Some);
            texts_fill(e, f, "args"@, x, y, vars);
        },
        _ => {},
    }
}

proof fn retry_stays(
    t: Tree,
    u: Tree,
    b: crate::definition::RetryPolicy,
    a: crate::definition::RetryPolicy,
    vars: Lookup,
)
    requires
        retry_says(t, b),
        retry_says(u, a),
        interpolated(t, vars) == Ok::<Tree, Failure>(u),
    ensures
        a == b,
{
    objects_fill(t, u, vars);
    words_stay(vars);
    let f = u->Object_0;
    assert(lookup(f, "maxAttempts"@) is Some);
    assert(lookup(f, "backoff"@) is Some || lookup(f, "backoff"@) is None);
    crate::codec::names::backoff_round_trip(a.backoff);
    crate::codec::names::backoff_round_trip(b.backoff);
    assert(lookup(f, "delay"@) is Some || lookup(f, "delay"@) is None);
    if b.delay is Some {
        let p = lookup(t->Object_0, "delay"@)->0;
        let q = lookup(f, "delay"@)->0;
        objects_fill(p, q, vars);
        assert(lookup(q->Object_0, "millis"@) is Some);
    }
}

proof fn override_fills(
    t: Tree,
    u: Tree,
    b: PlatformActionOverrideView,
    a: PlatformActionOverrideView,
    vars: Lookup,
)
    requires
        override_entry_says(t, b),
        override_entry_says(u, a),
        interpolated(t, vars) == Ok::<Tree, Failure>(u),
    ensures
        action_filled(b.action, a.action, vars),
        a.platform == b.platform,
{
    objects_fill(t, u, vars);
    words_stay(vars);
    let f = u->Object_0;
    assert(lookup(f, "platform"@) is Some);
    crate::codec::names::platform_round_trip(a.platform);
    crate::codec::names::platform_round_trip(b.platform);
    assert(lookup(f, "action"@) is Some);
    let p = lookup(t->Object_0, "action"@)->0;
    let q = lookup(f, "action"@)->0;
    objects_fill(p, q, vars);
    action_fills(p->Object_0, q->Object_0, b.action, a.action, vars);
}

/// A step whose references are replaced keeps its kind and its policies; each of its texts becomes
/// what that text comes to, in its own place.
pub proof fn steps_keep_their_shape(before: StepView, after: StepView, vars: Lookup)
    requires
        interpolated_step(before, vars) == Ok::<StepView, Failure>(after),
    ensures
        step_filled(before, after, vars),
{
    let t = step_tree(before);
    let u = interpolated(t, vars)->Ok_0;
    step_round_trip(before);
    step_is_read(t, before);
    step_is_read(u, after);
    objects_fill(t, u, vars);
    let e = t->Object_0;
    let f = u->Object_0;
    words_stay(vars);
    action_fills(e, f, before.action, after.action, vars);
    assert(lookup(f, "id"@) is Some);
    assert(lookup(f, "label"@) is Some || lookup(f, "label"@) is None);
    assert(after.on_error == before.on_error) by {
        assert(lookup(f, "onError"@) is Some || lookup(f, "onError"@) is None);
        crate::codec::names::on_error_round_trip(after.on_error);
        crate::codec::names::on_error_round_trip(before.on_error);
    }
    assert(after.timeout == before.timeout) by {
        assert(lookup(f, "timeout"@) is Some || lookup(f, "timeout"@) is None);
        if before.timeout is Some {
            let p = lookup(e, "timeout"@)->0;
            let q = lookup(f, "timeout"@)->0;
            objects_fill(p, q, vars);
            assert(lookup(q->Object_0, "millis"@) is Some);
        }
    }
    assert(after.retry == before.retry) by {
        assert(lookup(f, "retry"@) is Some || lookup(f, "retry"@) is None);
        if lookup(e, "retry"@) is Some {
            retry_stays(
                lookup(e, "retry"@)->0,
                lookup(f, "retry"@)->0,
                before.retry,
                after.retry,
                vars,
            );
        }
    }
    assert(lookup(f, "conditions"@) is Some || lookup(f, "conditions"@) is None);
    if lookup(e, "conditions"@) is Some {
        let p = lookup(e, "conditions"@)->0;
        let q = lookup(f, "conditions"@)->0;
        values_keep_their_shape(p, vars);
        assert forall|i: int| 0 <= i < before.conditions.len() implies condition_filled(
            #[trigger] before.conditions[i],
            after.conditions[i],
            vars,
        ) by {
            assert(condition_says(p->Array_0[i], before.conditions[i]));
            assert(condition_says(q->Array_0[i], after.conditions[i]));
            condition_fills(
                p->Array_0[i],
                q->Array_0[i],
                before.conditions[i],
                after.conditions[i],
                vars,
            );
        }
    }
    assert(lookup(f, "platformOverrides"@) is Some || lookup(f, "platformOverrides"@) is None);
    if lookup(e, "platformOverrides"@) is Some {
        let p = lookup(e, "platformOverrides"@)->0;
        let q = lookup(f, "platformOverrides"@)->0;
        values_keep_their_shape(p, vars);
        assert forall|i: int| 0 <= i < before.platform_overrides.len() implies action_filled(
            (#[trigger] before.platform_overrides[i]).action,
            after.platform_overrides[i].action,
            vars,
        ) && after.platform_overrides[i].platform == before.platform_overrides[i].platform by {
            assert(override_entry_says(p->Array_0[i], before.platform_overrides[i]));
            assert(override_entry_says(q->Array_0[i], after.platform_overrides[i]));
            override_fills(
                p->Array_0[i],
                q->Array_0[i],
                before.platform_overrides[i],
                after.platform_overrides[i],
                vars,
            );
        }
    }
}

proof fn every_step_is_filled(steps: Seq<StepView>, n: nat, vars: Lookup)
    requires
        n <= steps.len(),
        interpolated_steps(steps, n, vars) is Ok,
    ensures
        interpolated_steps(steps, n, vars)->Ok_0.len() == n,
        forall|i: int|
            0 <= i < n ==> step_filled(
                #[trigger] steps[i],
                interpolated_steps(steps, n, vars)->Ok_0[i],
                vars,
            ),
    decreases n,
{
    if n > 0 {
        let m = (n - 1) as nat;
        every_step_is_filled(steps, m, vars);
        steps_keep_their_shape(
            steps[n - 1],
            interpolated_step(steps[n - 1], vars)->Ok_0,
            vars,
        );
    }
}

proof fn every_setting_is_filled(entries: Seq<(Seq<char>, Seq<char>)>, n: nat, vars: Lookup)
    requires
        n <= entries.len(),
        interpolated_environment(entries, n, vars) is Ok,
    ensures
        interpolated_environment(entries, n, vars)->Ok_0.len() == n,
        forall|i: int|
            0 <= i < n ==> (#[trigger] entries[i]).0 == interpolated_environment(
                entries,
                n,
                vars,
            )->Ok_0[i].0 && interpolated_setting(entries[i].1, vars) == Ok::<Seq<char>, Failure>(
                interpolated_environment(entries, n, vars)->Ok_0[i].1,
            ),
    decreases n,
{
    if n > 0 {
        every_setting_is_filled(entries, (n - 1) as nat, vars);
    }
}

/// A run that is resolved has the steps that were asked for, in order, each with its references
/// replaced, and nothing else of the definition is changed. So it is with the settings: the names
/// of the environment stay, its values and the working directory have their references replaced,
/// and every permission is what it was.
pub proof fn resolved_runs_keep_what_was_asked(
    definition: &AutomationDefinition,
    config: &RunConfig,
    secrets: &crate::collections::TextMap<SecretAnswer>,
    r: Result<ResolvedRun, VariableResolutionError>,
)
    requires
        call_ensures(resolve_run_with, (definition, config, secrets), r),
        r is Ok,
    ensures
        ({
            let vars = scope(
                sources(definition.variables, config.variables, *secrets),
                Seq::empty(),
            );
            let d = r->Ok_0.spec_definition()@;
            let c = r->Ok_0.spec_config()@;
            &&& d.schema_version == definition@.schema_version
            &&& d.id == definition@.id && d.title == definition@.title
            &&& d.description == definition@.description && d.version == definition@.version
            &&& d.metadata == definition@.metadata && d.variables == definition@.variables
            &&& d.steps.len() == definition@.steps.len()
            &&& forall|i: int|
                0 <= i < d.steps.len() ==> step_filled(
                    definition@.steps[i],
                    #[trigger] d.steps[i],
                    vars,
                )
            &&& c.environment.len() == config@.environment.len()
            &&& forall|i: int|
                0 <= i < c.environment.len() ==> (#[trigger] c.environment[i]).0
                    == config@.environment[i].0 && interpolated_setting(
                    config@.environment[i].1,
                    vars,
                ) == Ok::<Seq<char>, Failure>(c.environment[i].1)
            &&& config@.working_directory is None ==> c.working_directory is None
            &&& config@.working_directory is Some ==> c.working_directory is Some
                && interpolated_setting(config@.working_directory->0, vars) == Ok::<
                Seq<char>,
                Failure,
            >(c.working_directory->0)
            &&& c.dry_run == config@.dry_run && c.run_id == config@.run_id
            &&& c.approved_commands == config@.approved_commands
            &&& c.platform == config@.platform
            &&& c.allow_coordinate_targets == config@.allow_coordinate_targets
            &&& c.allow_path_only_selectors == config@.allow_path_only_selectors
            &&& c.allow_value_capture == config@.allow_value_capture
            &&& c.allow_screenshot_capture == config@.allow_screenshot_capture
            &&& c.allow_image_targets == config@.allow_image_targets
            &&& c.capture_step_evidence == config@.capture_step_evidence
            &&& c.evidence_directory == config@.evidence_directory
            &&& c.evidence_max_artifact_bytes == config@.evidence_max_artifact_bytes
        }),
{
    let s = sources(definition.variables, config.variables, *secrets);
    let vars = scope(s, Seq::empty());
    every_step_is_filled(definition@.steps, definition@.steps.len(), vars);
    every_setting_is_filled(config@.environment, config@.environment.len(), vars);
    let d = r->Ok_0.spec_definition()@;
    let c = r->Ok_0.spec_config()@;
    assert forall|i: int| 0 <= i < d.steps.len() implies step_filled(
        definition@.steps[i],
        #[trigger] d.steps[i],
        vars,
    ) by {
        assert(step_filled(
            definition@.steps[i],
            crate::resolve::interpolated_steps(
                definition@.steps,
                definition@.steps.len(),
                vars,
            )->Ok_0[i],
            vars,
        ));
    }
    assert forall|i: int| 0 <= i < c.environment.len() implies (#[trigger] c.environment[i]).0
        == config@.environment[i].0 && interpolated_setting(config@.environment[i].1, vars) == Ok::<
        Seq<char>,
        Failure,
    >(c.environment[i].1) by {
        assert(config@.environment[i].0 == interpolated_environment(
            config@.environment,
            config@.environment.len(),
            vars,
        )->Ok_0[i].0);
    }
}

/// Whether a value is of a type.
pub open spec fn of_type(value_type: VariableType, value: Tree) -> bool {
    ||| value_type == VariableType::Json
    ||| value_type == VariableType::String && value is Text
    ||| value_type == VariableType::Boolean && value is Bool
    ||| value_type == VariableType::Number && value is Number
}

/// A value that refers to nothing.
pub open spec fn plain(value: Tree) -> bool {
    value is Null || value is Bool || value is Number || (value is Text && literal(value->Text_0))
}

/// Where the value of a variable comes from: a value of the run comes before the default. A value
/// that is not of the type of the variable is refused, and one that refers to nothing stays as it
/// is.
pub proof fn values_of_the_run_come_first(
    s: Sources,
    name: Seq<char>,
    definition: VariableDefinitionView,
    value: Tree,
)
    requires
        lookup(s.definitions, name) == Some(definition),
        plain(value),
        lookup(s.overrides, name) == Some(value) || (lookup(s.overrides, name) is None
            && definition.default == Some(VariableSourceView::Literal { value })),
    ensures
        of_type(definition.value_type, value) ==> resolution(s, Seq::empty(), name) is Ok && ({
            let got = resolution(s, Seq::empty(), name)->Ok_0;
            got.value == value && got.secret == (definition.default is Some
                && definition.default->0 is SecretReference)
        }),
        !of_type(definition.value_type, value) ==> resolution(s, Seq::empty(), name) == Err::<
            crate::resolve::Resolved,
            Failure,
        >(Failure::InvalidValueType { name, expected: definition.value_type }),
{
    let vars = scope(s, Seq::<Seq<char>>::empty().push(name));
    if value is Text {
        literal_texts_stay(value->Text_0, vars);
        crate::laws::interpolation::literal_texts_refer_to_nothing(value->Text_0);
    }
    assert(references(value) == Some(Seq::<Seq<char>>::empty()));
}

/// A variable without a value stands for nothing.
pub proof fn missing_values_are_errors(
    s: Sources,
    name: Seq<char>,
    definition: VariableDefinitionView,
)
    ensures
        lookup(s.definitions, name) is None ==> resolution(s, Seq::empty(), name) == Err::<
            crate::resolve::Resolved,
            Failure,
        >(Failure::UnknownVariable(name)),
        lookup(s.definitions, name) == Some(definition) && lookup(s.overrides, name) is None
            && definition.default is None && definition.required ==> resolution(
            s,
            Seq::empty(),
            name,
        ) == Err::<crate::resolve::Resolved, Failure>(Failure::MissingRequiredVariable(name)),
        lookup(s.definitions, name) == Some(definition) && lookup(s.overrides, name) is None
            && definition.default is None && !definition.required ==> resolution(
            s,
            Seq::empty(),
            name,
        ) == Err::<crate::resolve::Resolved, Failure>(Failure::MissingVariableValue(name)),
{
}

/// A variable that is a reference to another stands for what the other stands for, where that is of
/// its type, and is a secret where the other is.
pub proof fn references_pass_values_on(
    s: Sources,
    name: Seq<char>,
    definition: VariableDefinitionView,
    other: Seq<char>,
)
    requires
        lookup(s.definitions, name) == Some(definition),
        a_name(other),
        lookup(s.overrides, name) is None,
        definition.default == Some(VariableSourceView::Literal { value: Tree::Text(mark(other)) }),
    ensures
        ({
            let own = resolution(s, Seq::empty(), name);
            let theirs = resolution(s, seq![name], other);
            match theirs {
                Err(e) => own == Err::<crate::resolve::Resolved, Failure>(e),
                Ok(there) => if of_type(definition.value_type, there.value) {
                    own is Ok && own->Ok_0.value == there.value && own->Ok_0.secret == there.secret
                } else {
                    own == Err::<crate::resolve::Resolved, Failure>(
                        Failure::InvalidValueType { name, expected: definition.value_type },
                    )
                },
            }
        }),
        other == name ==> resolution(s, Seq::empty(), name) == Err::<
            crate::resolve::Resolved,
            Failure,
        >(Failure::CircularReference(name)),
{
    let path = Seq::<Seq<char>>::empty().push(name);
    assert(path =~= seq![name]);
    assert(path[0] == name);
    assert(path.contains(name));
    let vars = scope(s, path);
    a_reference_alone_is_its_value(other, vars);
    crate::laws::interpolation::a_reference_alone_refers(other);
    let names = seq![other];
    assert(names.last() == other);
    assert(names.drop_last() =~= Seq::<Seq<char>>::empty());
    let theirs = resolution(s, path, other);
    assert(!crate::resolve::any_secret(s, path, names.drop_last()));
    assert(crate::resolve::any_secret(s, path, names) == (theirs is Ok && theirs->Ok_0.secret));
    assert(interpolated(Tree::Text(mark(other)), vars) == vars(other));
    assert(!Seq::<Seq<char>>::empty().contains(name));
}

} // verus!
