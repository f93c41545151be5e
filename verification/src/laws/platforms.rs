//! What a step comes down to on a platform.
use vstd::prelude::*;
use crate::definition::{
    Action, ActionView, AssertionView, AutomationDefinition, AutomationDefinitionView, Platform,
    PlatformSelectorView, Portability, Step, TargetView, WaitConditionView,
};
use crate::executor::{action_at, Plan};
use crate::platform::{
    action_uses, condition_uses, definition_uses, override_from, portability_of, select_action,
    step_uses, target_for,
};

verus! {

proof fn override_at(step: Step, p: Platform, from: int, i: int)
    requires
        0 <= from <= i < step.platform_overrides@.len(),
        step.platform_overrides@[i].platform == p,
        forall|j: int|
            from <= j < i ==> (#[trigger] step.platform_overrides@[j]).platform != p,
    ensures
        override_from(step@.platform_overrides.skip(from), step@.action, p)
            == step.platform_overrides@[i].action@,
    decreases i - from,
{
    let all = step@.platform_overrides;
    let rest = all.skip(from);
    assert(rest[0] == all[from]);
    assert(all[from] == step.platform_overrides@[from]@);
    if from < i {
        assert(rest.drop_first() =~= all.skip(from + 1));
        override_at(step, p, from + 1, i);
    }
}

proof fn override_nowhere(step: Step, p: Platform, from: int)
    requires
        0 <= from <= step.platform_overrides@.len(),
        forall|j: int|
            from <= j < step.platform_overrides@.len() ==> (
            #[trigger] step.platform_overrides@[j]).platform != p,
    ensures
        override_from(step@.platform_overrides.skip(from), step@.action, p) == step.action@,
    decreases step.platform_overrides@.len() - from,
{
    let all = step@.platform_overrides;
    let rest = all.skip(from);
    if from < step.platform_overrides@.len() {
        assert(rest[0] == all[from]);
        assert(all[from] == step.platform_overrides@[from]@);
        assert(rest.drop_first() =~= all.skip(from + 1));
        override_nowhere(step, p, from + 1);
    }
}

/// The action that is selected for a step: that of the first override for the platform, wherever it
/// stands among the overrides; and the step's own action where no override is for the platform, or
/// where there is no platform.
pub proof fn first_override_is_selected(
    step: &Step,
    platform: Option<Platform>,
    selected: &Action,
    i: int,
)
    requires
        call_ensures(select_action, (step, platform), selected),
    ensures
        platform is None ==> selected@ == step.action@,
        platform is Some && 0 <= i < step.platform_overrides@.len()
            && step.platform_overrides@[i].platform == platform->0 && (forall|j: int|
            0 <= j < i ==> (#[trigger] step.platform_overrides@[j]).platform != platform->0)
            ==> selected@ == step.platform_overrides@[i].action@,
        platform is Some && (forall|j: int|
            0 <= j < step.platform_overrides@.len() ==> (
            #[trigger] step.platform_overrides@[j]).platform != platform->0) ==> selected@
            == step.action@,
{
    if let Some(p) = platform {
        assert(step@.platform_overrides.skip(0) =~= step@.platform_overrides);
        if 0 <= i < step.platform_overrides@.len() && step.platform_overrides@[i].platform == p && (
        forall|j: int|
            0 <= j < i ==> (#[trigger] step.platform_overrides@[j]).platform != p) {
            override_at(*step, p, 0, i);
        }
        if forall|j: int|
            0 <= j < step.platform_overrides@.len() ==> (
            #[trigger] step.platform_overrides@[j]).platform != p {
            override_nowhere(*step, p, 0);
        }
    }
}

proof fn planned_override_at(p: Plan, step: nat, platform: Platform, from: int, i: int)
    requires
        0 <= from <= i < p.definition.steps[step as int].platform_overrides.len(),
        p.definition.steps[step as int].platform_overrides[i].platform == platform,
        forall|j: int|
            from <= j < i ==> (
            #[trigger] p.definition.steps[step as int].platform_overrides[j]).platform != platform,
    ensures
        override_from(
            p.definition.steps[step as int].platform_overrides.skip(from),
            p.definition.steps[step as int].action,
            platform,
        ) == p.definition.steps[step as int].platform_overrides[i].action,
    decreases i - from,
{
    let all = p.definition.steps[step as int].platform_overrides;
    let rest = all.skip(from);
    assert(rest[0] == all[from]);
    if from < i {
        assert(rest.drop_first() =~= all.skip(from + 1));
        planned_override_at(p, step, platform, from + 1, i);
    }
}

proof fn planned_override_nowhere(p: Plan, step: nat, platform: Platform, from: int)
    requires
        0 <= from <= p.definition.steps[step as int].platform_overrides.len(),
        forall|j: int|
            from <= j < p.definition.steps[step as int].platform_overrides.len() ==> (
            #[trigger] p.definition.steps[step as int].platform_overrides[j]).platform != platform,
    ensures
        override_from(
            p.definition.steps[step as int].platform_overrides.skip(from),
            p.definition.steps[step as int].action,
            platform,
        ) == p.definition.steps[step as int].action,
    decreases p.definition.steps[step as int].platform_overrides.len() - from,
{
    let all = p.definition.steps[step as int].platform_overrides;
    let rest = all.skip(from);
    if from < all.len() {
        assert(rest[0] == all[from]);
        assert(rest.drop_first() =~= all.skip(from + 1));
        planned_override_nowhere(p, step, platform, from + 1);
    }
}

/// The action that a run takes for a step is that of the first override for the platform of the
/// run, and the step's own where there is none or the run names no platform.
pub proof fn runs_take_the_first_override(p: Plan, step: nat, i: int)
    ensures
        ({
            let s = p.definition.steps[step as int];
            let platform = p.config.platform;
            &&& platform is None ==> action_at(p, step) == s.action
            &&& (platform is Some && 0 <= i < s.platform_overrides.len()
                && s.platform_overrides[i].platform == platform->0 && forall|j: int|
                0 <= j < i ==> (#[trigger] s.platform_overrides[j]).platform != platform->0)
                ==> action_at(p, step) == s.platform_overrides[i].action
            &&& (platform is Some && forall|j: int|
                0 <= j < s.platform_overrides.len() ==> (
                #[trigger] s.platform_overrides[j]).platform != platform->0) ==> action_at(p, step)
                == s.action
        }),
{
    let s = p.definition.steps[step as int];
    if let Some(platform) = p.config.platform {
        assert(s.platform_overrides.skip(0) =~= s.platform_overrides);
        if 0 <= i < s.platform_overrides.len() && s.platform_overrides[i].platform == platform
            && forall|j: int|
            0 <= j < i ==> (#[trigger] s.platform_overrides[j]).platform != platform {
            planned_override_at(p, step, platform, 0, i);
        }
        if forall|j: int|
            0 <= j < s.platform_overrides.len() ==> (
            #[trigger] s.platform_overrides[j]).platform != platform {
            planned_override_nowhere(p, step, platform, 0);
        }
    }
}

/// A target without a selector for the platform loses its selectors and nothing else.
pub proof fn targets_without_a_selector_stay(t: TargetView, p: Platform)
    requires
        p == Platform::Windows ==> t.platform_selectors.windows is None,
        p == Platform::MacOs ==> t.platform_selectors.mac_os is None,
        p == Platform::Linux ==> t.platform_selectors.linux is None,
    ensures
        ({
            let u = target_for(t, Some(p));
            &&& u.app_name == t.app_name && u.process_name == t.process_name
            &&& u.window_title == t.window_title && u.title_contains == t.title_contains
            &&& u.url == t.url && u.file_path == t.file_path
            &&& u.accessibility == t.accessibility && u.image == t.image
            &&& u.coordinates == t.coordinates
            &&& u.platform_selectors.windows is None && u.platform_selectors.mac_os is None
                && u.platform_selectors.linux is None
        }),
{
    reveal(target_for);
}

/// A target with a selector for the platform says what the selector says, and no more.
pub proof fn selectors_take_the_place_of_targets(
    t: TargetView,
    p: Platform,
    s: PlatformSelectorView,
)
    requires
        p == Platform::Windows ==> t.platform_selectors.windows == Some(s),
        p == Platform::MacOs ==> t.platform_selectors.mac_os == Some(s),
        p == Platform::Linux ==> t.platform_selectors.linux == Some(s),
    ensures
        ({
            let u = target_for(t, Some(p));
            &&& u.process_name == s.process_name && u.window_title == s.window_title
            &&& s.accessibility_query is None ==> u.accessibility is None
            &&& s.accessibility_query is Some ==> (u.accessibility matches Some(a) && a.name
                == s.accessibility_query && a.id is None && a.control_type is None && a.path
                is None)
            &&& u.app_name is None && u.title_contains is None && u.url is None
            &&& u.file_path is None && u.image is None && u.coordinates is None
            &&& u.platform_selectors.windows == if p == Platform::Windows
                    && s.command_hint is Some {
                Some(s)
            } else {
                None
            }
            &&& u.platform_selectors.mac_os == if p == Platform::MacOs && s.command_hint is Some {
                Some(s)
            } else {
                None
            }
            &&& u.platform_selectors.linux == if p == Platform::Linux && s.command_hint is Some {
                Some(s)
            } else {
                None
            }
        }),
{
    reveal(target_for);
}

/// A definition with an override in some step is one with overrides, whatever its targets say.
pub proof fn overrides_are_not_portable(d: AutomationDefinitionView, i: int)
    requires
        0 <= i < d.steps.len(),
        d.steps[i].platform_overrides.len() > 0,
    ensures
        portability_of(d) == Portability::HasPlatformOverrides,
{
    let o = d.steps[i].platform_overrides[0];
    assert(crate::platform::override_uses(o, o.platform));
    assert(crate::platform::step_uses(d.steps[i], o.platform));
    assert(crate::platform::definition_uses(d, o.platform));
    assert(o.platform == Platform::Windows || o.platform == Platform::MacOs || o.platform
        == Platform::Linux);
}

/// The target that a condition names.
pub open spec fn target_in_condition(c: WaitConditionView) -> Option<TargetView> {
    match c {
        WaitConditionView::WindowExists { target, .. } => Some(target),
        WaitConditionView::WindowFocused { target, .. } => Some(target),
        WaitConditionView::TargetExists { target, .. } => Some(target),
        WaitConditionView::TargetNotExists { target, .. } => Some(target),
        WaitConditionView::TargetFocused { target, .. } => Some(target),
        WaitConditionView::TargetEnabled { target, .. } => Some(target),
        WaitConditionView::TargetVisible { target, .. } => Some(target),
        WaitConditionView::TargetActionable { target, .. } => Some(target),
        WaitConditionView::ProcessRunning { target, .. } => Some(target),
        WaitConditionView::TargetNameContains { target, .. } => Some(target),
        WaitConditionView::TargetValueContains { target, .. } => Some(target),
        WaitConditionView::Duration { .. } => None,
        WaitConditionView::FileExists { .. } => None,
        WaitConditionView::CommandExits { .. } => None,
    }
}

/// The target that an action names.
pub open spec fn target_in_action(a: ActionView) -> Option<TargetView> {
    match a {
        ActionView::LaunchUrl { target, .. } => target,
        ActionView::LaunchApp { target, .. } => target,
        ActionView::FocusWindow { target } => Some(target),
        ActionView::TypeText { target, .. } => target,
        ActionView::PressKey { target, .. } => target,
        ActionView::ClickTarget { target } => Some(target),
        ActionView::Scroll { target, .. } => target,
        ActionView::WaitFor { condition } => target_in_condition(condition),
        ActionView::Assert { assertion: AssertionView::Condition { condition } } =>
            target_in_condition(condition),
        ActionView::Assert { assertion: AssertionView::TargetExists { target } } => Some(target),
        ActionView::RunCommand { .. } => None,
        ActionView::OpenFile { target, .. } => target,
    }
}

/// Whether a target has a selector for a platform.
pub open spec fn singles_out(t: Option<TargetView>, p: Platform) -> bool {
    t is Some && match p {
        Platform::Windows => t->0.platform_selectors.windows is Some,
        Platform::MacOs => t->0.platform_selectors.mac_os is Some,
        Platform::Linux => t->0.platform_selectors.linux is Some,
    }
}

/// Whether a definition without overrides has a selector for a platform, in the action or in a
/// condition of some step.
pub open spec fn selects(d: AutomationDefinitionView, p: Platform) -> bool {
    exists|i: int|
        0 <= i < d.steps.len() && (singles_out(
            target_in_action((#[trigger] d.steps[i]).action),
            p,
        ) || exists|j: int|
            0 <= j < d.steps[i].conditions.len() && singles_out(
                target_in_condition(#[trigger] d.steps[i].conditions[j]),
                p,
            ))
}

proof fn selected_platforms_are_used(d: AutomationDefinitionView, p: Platform)
    requires
        forall|i: int|
            0 <= i < d.steps.len() ==> (#[trigger] d.steps[i]).platform_overrides.len() == 0,
    ensures
        definition_uses(d, p) == selects(d, p),
{
    assert forall|i: int| 0 <= i < d.steps.len() implies step_uses(#[trigger] d.steps[i], p) == (
    singles_out(target_in_action(d.steps[i].action), p) || exists|j: int|
        0 <= j < d.steps[i].conditions.len() && singles_out(
            target_in_condition(#[trigger] d.steps[i].conditions[j]),
            p,
        )) by {
        let step = d.steps[i];
        assert(step.platform_overrides.len() == 0);
        assert(action_uses(step.action, p) == singles_out(target_in_action(step.action), p));
        assert forall|j: int| 0 <= j < step.conditions.len() implies condition_uses(
            #[trigger] step.conditions[j],
            p,
        ) == singles_out(target_in_condition(step.conditions[j]), p) by {}
    }
    if definition_uses(d, p) {
        let i = choose|i: int| 0 <= i < d.steps.len() && step_uses(#[trigger] d.steps[i], p);
        assert(step_uses(d.steps[i], p));
    }
    if selects(d, p) {
        let i = choose|i: int|
            0 <= i < d.steps.len() && (singles_out(
                target_in_action((#[trigger] d.steps[i]).action),
                p,
            ) || exists|j: int|
                0 <= j < d.steps[i].conditions.len() && singles_out(
                    target_in_condition(#[trigger] d.steps[i].conditions[j]),
                    p,
                ));
        assert(step_uses(d.steps[i], p));
    }
}

/// Where a definition without overrides can run: anywhere where it has selectors for no platform,
/// and on one platform only where it has selectors for that one alone.
pub proof fn selectors_decide_where_definitions_run(
    definition: &AutomationDefinition,
    r: Portability,
)
    requires
        call_ensures(AutomationDefinition::portability, (definition,), r),
        forall|i: int|
            0 <= i < definition@.steps.len() ==> (
            #[trigger] definition@.steps[i]).platform_overrides.len() == 0,
    ensures
        ({
            let windows = selects(definition@, Platform::Windows);
            let mac_os = selects(definition@, Platform::MacOs);
            let linux = selects(definition@, Platform::Linux);
            &&& r == Portability::Portable <==> !windows && !mac_os && !linux
            &&& r == Portability::WindowsOnly <==> windows && !mac_os && !linux
            &&& r == Portability::MacOsOnly <==> mac_os && !windows && !linux
            &&& r == Portability::LinuxOnly <==> linux && !windows && !mac_os
        }),
{
    selected_platforms_are_used(definition@, Platform::Windows);
    selected_platforms_are_used(definition@, Platform::MacOs);
    selected_platforms_are_used(definition@, Platform::Linux);
}

/// A condition with one target in place of another.
pub open spec fn condition_with(c: WaitConditionView, t: TargetView) -> WaitConditionView {
    match c {
        WaitConditionView::WindowExists { .. } => WaitConditionView::WindowExists { target: t },
        WaitConditionView::WindowFocused { .. } => WaitConditionView::WindowFocused { target: t },
        WaitConditionView::TargetExists { .. } => WaitConditionView::TargetExists { target: t },
        WaitConditionView::TargetNotExists { .. } => WaitConditionView::TargetNotExists {
            target: t,
        },
        WaitConditionView::TargetFocused { .. } => WaitConditionView::TargetFocused { target: t },
        WaitConditionView::TargetEnabled { .. } => WaitConditionView::TargetEnabled { target: t },
        WaitConditionView::TargetVisible { .. } => WaitConditionView::TargetVisible { target: t },
        WaitConditionView::TargetActionable { .. } => WaitConditionView::TargetActionable {
            target: t,
        },
        WaitConditionView::ProcessRunning { .. } => WaitConditionView::ProcessRunning { target: t },
        WaitConditionView::TargetNameContains { text, .. } => WaitConditionView::TargetNameContains {
            target: t,
            text,
        },
        WaitConditionView::TargetValueContains { text, .. } => WaitConditionView::TargetValueContains {
            target: t,
            text,
        },
        _ => c,
    }
}

/// An action on a platform is the action, with its target as it stands on the platform; nothing
/// else of it is changed.
pub proof fn actions_on_a_platform_keep_all_but_their_target(
    action: &Action,
    platform: Option<Platform>,
    r: Action,
)
    requires
        call_ensures(Action::for_platform, (action, platform), r),
    ensures
        ({
            let t = target_in_action(action@);
            let u = match t {
                Some(target) => Some(target_for(target, platform)),
                None => None,
            };
            &&& target_in_action(r@) == u
            &&& match action@ {
                ActionView::LaunchUrl { url, .. } => r@ == (ActionView::LaunchUrl {
                    url,
                    target: u,
                }),
                ActionView::LaunchApp { app, .. } => r@ == (ActionView::LaunchApp {
                    app,
                    target: u,
                }),
                ActionView::TypeText { text, .. } => r@ == (ActionView::TypeText {
                    text,
                    target: u,
                }),
                ActionView::PressKey { keys, .. } => r@ == (ActionView::PressKey {
                    keys,
                    target: u,
                }),
                ActionView::Scroll { delta_x, delta_y, .. } => r@ == (ActionView::Scroll {
                    delta_x,
                    delta_y,
                    target: u,
                }),
                ActionView::OpenFile { path, .. } => r@ == (ActionView::OpenFile {
                    path,
                    target: u,
                }),
                ActionView::FocusWindow { .. } => r@ == (ActionView::FocusWindow { target: u->0 }),
                ActionView::ClickTarget { .. } => r@ == (ActionView::ClickTarget { target: u->0 }),
                ActionView::RunCommand { .. } => r@ == action@,
                ActionView::WaitFor { condition } => r@ == (ActionView::WaitFor {
                    condition: if t is Some {
                        condition_with(condition, u->0)
                    } else {
                        condition
                    },
                }),
                ActionView::Assert { assertion: AssertionView::TargetExists { .. } } => r@ == (
                ActionView::Assert { assertion: AssertionView::TargetExists { target: u->0 } }),
                ActionView::Assert { assertion: AssertionView::Condition { condition } } => r@ == (
                ActionView::Assert {
                    assertion: AssertionView::Condition {
                        condition: if t is Some {
                            condition_with(condition, u->0)
                        } else {
                            condition
                        },
                    },
                }),
            }
        }),
{
}

} // verus!
