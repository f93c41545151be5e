//! Platform overrides and selectors: which platforms a definition singles out, and what it comes
//! down to on one of them.
use vstd::prelude::*;
use crate::definition::{
    AccessibilityTarget, AccessibilityTargetView, Action, ActionView, Assertion, AssertionView,
    AutomationDefinition, AutomationDefinitionView, Platform, PlatformActionOverride,
    PlatformActionOverrideView, PlatformSelector, PlatformSelectorView, PlatformSelectors,
    PlatformSelectorsView, Portability, Step, StepView, Target, TargetView, WaitCondition,
    WaitConditionView,
};
use crate::text::copy_opt_text;
use crate::views::{opt_view, views};

verus! {

/// The selector for a platform.
pub open spec fn selector_for(s: PlatformSelectorsView, p: Platform) -> Option<
    PlatformSelectorView,
> {
    match p {
        Platform::Windows => s.windows,
        Platform::MacOs => s.mac_os,
        Platform::Linux => s.linux,
    }
}

/// `s` with `selector` for the platform `p`, in place of what was there.
pub open spec fn with_selector(
    s: PlatformSelectorsView,
    p: Platform,
    selector: PlatformSelectorView,
) -> PlatformSelectorsView {
    match p {
        Platform::Windows => PlatformSelectorsView { windows: Some(selector), ..s },
        Platform::MacOs => PlatformSelectorsView { mac_os: Some(selector), ..s },
        Platform::Linux => PlatformSelectorsView { linux: Some(selector), ..s },
    }
}

pub open spec fn empty_selectors() -> PlatformSelectorsView {
    PlatformSelectorsView { windows: None, mac_os: None, linux: None }
}

impl PlatformSelectors {
    pub fn get(&self, platform: Platform) -> (r: Option<&PlatformSelector>)
        ensures
            match r {
                Some(s) => selector_for(self@, platform) == Some(s@),
                None => selector_for(self@, platform) is None,
            },
    {
        match platform {
            Platform::Windows => self.windows.as_ref(),
            Platform::MacOs => self.mac_os.as_ref(),
            Platform::Linux => self.linux.as_ref(),
        }
    }

    /// Sets the selector for a platform, in place of what was there.
    pub fn insert(&mut self, platform: Platform, selector: PlatformSelector)
        ensures
            final(self)@ == with_selector(old(self)@, platform, selector@),
    {
        match platform {
            Platform::Windows => {
                self.windows = Some(selector);
            },
            Platform::MacOs => {
                self.mac_os = Some(selector);
            },
            Platform::Linux => {
                self.linux = Some(selector);
            },
        }
    }
}

/// A set of platforms.
#[derive(Debug, Clone, Copy, PartialEq, Eq, Structural)]
pub struct PlatformSet {
    pub windows: bool,
    pub mac_os: bool,
    pub linux: bool,
}

impl PlatformSet {
    pub open spec fn has(self, p: Platform) -> bool {
        match p {
            Platform::Windows => self.windows,
            Platform::MacOs => self.mac_os,
            Platform::Linux => self.linux,
        }
    }

    pub fn new() -> (r: Self)
        ensures
            forall|p: Platform| !r.has(p),
    {
        PlatformSet { windows: false, mac_os: false, linux: false }
    }

    pub fn insert(&mut self, platform: Platform)
        ensures
            forall|p: Platform| #[trigger] final(self).has(p) == (old(self).has(p) || p == platform),
    {
        match platform {
            Platform::Windows => {
                self.windows = true;
            },
            Platform::MacOs => {
                self.mac_os = true;
            },
            Platform::Linux => {
                self.linux = true;
            },
        }
    }
}

/// Whether a target has a selector for the platform `p`.
pub open spec fn target_uses(t: TargetView, p: Platform) -> bool {
    selector_for(t.platform_selectors, p) is Some
}

pub open spec fn opt_target_uses(t: Option<TargetView>, p: Platform) -> bool {
    t is Some && target_uses(t->0, p)
}

pub open spec fn condition_uses(c: WaitConditionView, p: Platform) -> bool {
    match c {
        WaitConditionView::WindowExists { target } => target_uses(target, p),
        WaitConditionView::WindowFocused { target } => target_uses(target, p),
        WaitConditionView::TargetExists { target } => target_uses(target, p),
        WaitConditionView::TargetNotExists { target } => target_uses(target, p),
        WaitConditionView::TargetFocused { target } => target_uses(target, p),
        WaitConditionView::TargetEnabled { target } => target_uses(target, p),
        WaitConditionView::TargetVisible { target } => target_uses(target, p),
        WaitConditionView::TargetActionable { target } => target_uses(target, p),
        WaitConditionView::ProcessRunning { target } => target_uses(target, p),
        WaitConditionView::TargetNameContains { target, text } => target_uses(target, p),
        WaitConditionView::TargetValueContains { target, text } => target_uses(target, p),
        WaitConditionView::Duration { duration } => false,
        WaitConditionView::FileExists { path } => false,
        WaitConditionView::CommandExits { command, args } => false,
    }
}

pub open spec fn assertion_uses(a: AssertionView, p: Platform) -> bool {
    match a {
        AssertionView::Condition { condition } => condition_uses(condition, p),
        AssertionView::TargetExists { target } => target_uses(target, p),
    }
}

pub open spec fn action_uses(a: ActionView, p: Platform) -> bool {
    match a {
        ActionView::LaunchUrl { url, target } => opt_target_uses(target, p),
        ActionView::LaunchApp { app, target } => opt_target_uses(target, p),
        ActionView::TypeText { text, target } => opt_target_uses(target, p),
        ActionView::PressKey { keys, target } => opt_target_uses(target, p),
        ActionView::Scroll { delta_x, delta_y, target } => opt_target_uses(target, p),
        ActionView::OpenFile { path, target } => opt_target_uses(target, p),
        ActionView::FocusWindow { target } => target_uses(target, p),
        ActionView::ClickTarget { target } => target_uses(target, p),
        ActionView::WaitFor { condition } => condition_uses(condition, p),
        ActionView::Assert { assertion } => assertion_uses(assertion, p),
        ActionView::RunCommand { command, args } => false,
    }
}

/// Whether a step singles out the platform `p`: in its action, in a condition, or by an override.
pub open spec fn step_uses(s: StepView, p: Platform) -> bool {
    ||| action_uses(s.action, p)
    ||| exists|i: int| 0 <= i < s.conditions.len() && condition_uses(#[trigger] s.conditions[i], p)
    ||| exists|i: int|
        0 <= i < s.platform_overrides.len() && override_uses(#[trigger] s.platform_overrides[i], p)
}

pub open spec fn override_uses(o: PlatformActionOverrideView, p: Platform) -> bool {
    o.platform == p || action_uses(o.action, p)
}

/// Whether some step of a definition singles out the platform `p`.
pub open spec fn definition_uses(d: AutomationDefinitionView, p: Platform) -> bool {
    exists|i: int| 0 <= i < d.steps.len() && step_uses(#[trigger] d.steps[i], p)
}

pub open spec fn has_overrides(d: AutomationDefinitionView) -> bool {
    exists|i: int| 0 <= i < d.steps.len() && (#[trigger] d.steps[i]).platform_overrides.len() > 0
}

/// Where a definition can run: anywhere if it singles out no platform, on one platform if it has
/// selectors for that one alone and no overrides.
pub open spec fn portability_of(d: AutomationDefinitionView) -> Portability {
    let windows = definition_uses(d, Platform::Windows);
    let mac_os = definition_uses(d, Platform::MacOs);
    let linux = definition_uses(d, Platform::Linux);
    if !windows && !mac_os && !linux {
        Portability::Portable
    } else if has_overrides(d) {
        Portability::HasPlatformOverrides
    } else if windows && !mac_os && !linux {
        Portability::WindowsOnly
    } else if mac_os && !windows && !linux {
        Portability::MacOsOnly
    } else if linux && !windows && !mac_os {
        Portability::LinuxOnly
    } else {
        Portability::HasPlatformOverrides
    }
}

impl Target {
    /// A target that is an application by its name.
    pub fn app(app_name: String) -> (r: Self)
        ensures
            r@ == (TargetView { app_name: Some(app_name@), ..empty_target() }),
    {
        Target {
            app_name: Some(app_name),
            process_name: None,
            window_title: None,
            title_contains: None,
            url: None,
            file_path: None,
            accessibility: None,
            image: None,
            coordinates: None,
            platform_selectors: PlatformSelectors::new(),
        }
    }

    pub fn collect_platforms(&self, platforms: &mut PlatformSet)
        ensures
            forall|p: Platform|
                #[trigger] final(platforms).has(p) == (old(platforms).has(p) || target_uses(self@, p)),
    {
        if self.platform_selectors.windows.is_some() {
            platforms.insert(Platform::Windows);
        }
        if self.platform_selectors.mac_os.is_some() {
            platforms.insert(Platform::MacOs);
        }
        if self.platform_selectors.linux.is_some() {
            platforms.insert(Platform::Linux);
        }
    }
}

/// A target that says nothing.
pub open spec fn empty_target() -> TargetView {
    TargetView {
        app_name: None,
        process_name: None,
        window_title: None,
        title_contains: None,
        url: None,
        file_path: None,
        accessibility: None,
        image: None,
        coordinates: None,
        platform_selectors: empty_selectors(),
    }
}

fn collect_optional(target: &Option<Target>, platforms: &mut PlatformSet)
    ensures
        forall|p: Platform|
            #[trigger] final(platforms).has(p) == (old(platforms).has(p) || opt_target_uses(
                opt_view(*target),
                p,
            )),
{
    if let Some(t) = target {
        t.collect_platforms(platforms);
    }
}

impl WaitCondition {
    pub fn collect_platforms(&self, platforms: &mut PlatformSet)
        ensures
            forall|p: Platform|
                #[trigger] final(platforms).has(p) == (old(platforms).has(p) || condition_uses(self@, p)),
    {
        match self {
            WaitCondition::WindowExists { target }
            | WaitCondition::WindowFocused { target }
            | WaitCondition::TargetExists { target }
            | WaitCondition::TargetNotExists { target }
            | WaitCondition::TargetFocused { target }
            | WaitCondition::TargetEnabled { target }
            | WaitCondition::TargetVisible { target }
            | WaitCondition::TargetActionable { target }
            | WaitCondition::ProcessRunning { target } => target.collect_platforms(platforms),
            WaitCondition::TargetNameContains { target, .. }
            | WaitCondition::TargetValueContains { target, .. } => target.collect_platforms(platforms),
            WaitCondition::Duration { .. }
            | WaitCondition::FileExists { .. }
            | WaitCondition::CommandExits { .. } => {},
        }
    }

    /// The condition as it stands on a platform.
    pub fn for_platform(&self, platform: Option<Platform>) -> (r: Self)
        ensures
            r@ == condition_for(self@, platform),
    {
        match self {
            WaitCondition::WindowExists { target } => WaitCondition::WindowExists {
                target: target.for_platform(platform),
            },
            WaitCondition::WindowFocused { target } => WaitCondition::WindowFocused {
                target: target.for_platform(platform),
            },
            WaitCondition::TargetExists { target } => WaitCondition::TargetExists {
                target: target.for_platform(platform),
            },
            WaitCondition::TargetNotExists { target } => WaitCondition::TargetNotExists {
                target: target.for_platform(platform),
            },
            WaitCondition::TargetFocused { target } => WaitCondition::TargetFocused {
                target: target.for_platform(platform),
            },
            WaitCondition::TargetEnabled { target } => WaitCondition::TargetEnabled {
                target: target.for_platform(platform),
            },
            WaitCondition::TargetVisible { target } => WaitCondition::TargetVisible {
                target: target.for_platform(platform),
            },
            WaitCondition::TargetActionable { target } => WaitCondition::TargetActionable {
                target: target.for_platform(platform),
            },
            WaitCondition::ProcessRunning { target } => WaitCondition::ProcessRunning {
                target: target.for_platform(platform),
            },
            WaitCondition::TargetNameContains { target, text } => WaitCondition::TargetNameContains {
                target: target.for_platform(platform),
                text: text.clone(),
            },
            WaitCondition::TargetValueContains { target, text } => WaitCondition::TargetValueContains {
                target: target.for_platform(platform),
                text: text.clone(),
            },
            WaitCondition::Duration { .. }
            | WaitCondition::FileExists { .. }
            | WaitCondition::CommandExits { .. } => self.clone(),
        }
    }
}

impl Assertion {
    pub fn collect_platforms(&self, platforms: &mut PlatformSet)
        ensures
            forall|p: Platform|
                #[trigger] final(platforms).has(p) == (old(platforms).has(p) || assertion_uses(self@, p)),
    {
        match self {
            Assertion::Condition { condition } => condition.collect_platforms(platforms),
            Assertion::TargetExists { target } => target.collect_platforms(platforms),
        }
    }

    /// The assertion as it stands on a platform.
    pub fn for_platform(&self, platform: Option<Platform>) -> (r: Self)
        ensures
            r@ == assertion_for(self@, platform),
    {
        match self {
            Assertion::Condition { condition } => Assertion::Condition {
                condition: condition.for_platform(platform),
            },
            Assertion::TargetExists { target } => Assertion::TargetExists {
                target: target.for_platform(platform),
            },
        }
    }
}

/// The name by which a document calls an action.
pub open spec fn kind_of(a: ActionView) -> Seq<char> {
    match a {
        ActionView::LaunchUrl { url, target } => "launchUrl"@,
        ActionView::LaunchApp { app, target } => "launchApp"@,
        ActionView::FocusWindow { target } => "focusWindow"@,
        ActionView::TypeText { text, target } => "typeText"@,
        ActionView::PressKey { keys, target } => "pressKey"@,
        ActionView::ClickTarget { target } => "clickTarget"@,
        ActionView::Scroll { delta_x, delta_y, target } => "scroll"@,
        ActionView::WaitFor { condition } => "waitFor"@,
        ActionView::Assert { assertion } => "assert"@,
        ActionView::RunCommand { command, args } => "runCommand"@,
        ActionView::OpenFile { path, target } => "openFile"@,
    }
}

impl Action {
    /// The name by which a document calls the action.
    pub fn kind(&self) -> (r: &'static str)
        ensures
            r@ == kind_of(self@),
    {
        match self {
            Action::LaunchUrl { .. } => "launchUrl",
            Action::LaunchApp { .. } => "launchApp",
            Action::FocusWindow { .. } => "focusWindow",
            Action::TypeText { .. } => "typeText",
            Action::PressKey { .. } => "pressKey",
            Action::ClickTarget { .. } => "clickTarget",
            Action::Scroll { .. } => "scroll",
            Action::WaitFor { .. } => "waitFor",
            Action::Assert { .. } => "assert",
            Action::RunCommand { .. } => "runCommand",
            Action::OpenFile { .. } => "openFile",
        }
    }

    pub fn collect_platforms(&self, platforms: &mut PlatformSet)
        ensures
            forall|p: Platform|
                #[trigger] final(platforms).has(p) == (old(platforms).has(p) || action_uses(self@, p)),
    {
        match self {
            Action::LaunchUrl { target, .. }
            | Action::LaunchApp { target, .. }
            | Action::TypeText { target, .. }
            | Action::PressKey { target, .. }
            | Action::Scroll { target, .. }
            | Action::OpenFile { target, .. } => collect_optional(target, platforms),
            Action::FocusWindow { target } | Action::ClickTarget { target } =>
                target.collect_platforms(platforms),
            Action::WaitFor { condition } => condition.collect_platforms(platforms),
            Action::Assert { assertion } => assertion.collect_platforms(platforms),
            Action::RunCommand { .. } => {},
        }
    }

    /// The action as it stands on a platform.
    pub fn for_platform(&self, platform: Option<Platform>) -> (r: Self)
        ensures
            r@ == action_for(self@, platform),
    {
        match self {
            Action::LaunchUrl { url, target } => Action::LaunchUrl {
                url: url.clone(),
                target: optional_for_platform(target, platform),
            },
            Action::LaunchApp { app, target } => Action::LaunchApp {
                app: app.clone(),
                target: optional_for_platform(target, platform),
            },
            Action::TypeText { text, target } => Action::TypeText {
                text: text.clone(),
                target: optional_for_platform(target, platform),
            },
            Action::PressKey { keys, target } => Action::PressKey {
                keys: keys.clone(),
                target: optional_for_platform(target, platform),
            },
            Action::OpenFile { path, target } => Action::OpenFile {
                path: path.clone(),
                target: optional_for_platform(target, platform),
            },
            Action::Scroll { delta_x, delta_y, target } => Action::Scroll {
                delta_x: *delta_x,
                delta_y: *delta_y,
                target: optional_for_platform(target, platform),
            },
            Action::FocusWindow { target } => Action::FocusWindow {
                target: target.for_platform(platform),
            },
            Action::ClickTarget { target } => Action::ClickTarget {
                target: target.for_platform(platform),
            },
            Action::WaitFor { condition } => Action::WaitFor {
                condition: condition.for_platform(platform),
            },
            Action::Assert { assertion } => Action::Assert {
                assertion: assertion.for_platform(platform),
            },
            Action::RunCommand { .. } => self.clone(),
        }
    }
}

/// The target as it stands on a platform. A selector for the platform takes the place of every
/// generic field; without one the generic fields stay. Selectors of other platforms are gone
/// either way; the platform's own stays only where it carries a command hint.
#[verifier::opaque]
pub open spec fn target_for(t: TargetView, platform: Option<Platform>) -> TargetView {
    match platform {
        None => t,
        Some(p) => match selector_for(t.platform_selectors, p) {
            None => TargetView { platform_selectors: empty_selectors(), ..t },
            Some(s) => TargetView {
                process_name: s.process_name,
                window_title: s.window_title,
                accessibility: match s.accessibility_query {
                    Some(query) => Some(
                        AccessibilityTargetView {
                            id: None,
                            name: Some(query),
                            control_type: None,
                            path: None,
                        },
                    ),
                    None => None,
                },
                platform_selectors: if s.command_hint is Some {
                    with_selector(empty_selectors(), p, s)
                } else {
                    empty_selectors()
                },
                ..empty_target()
            },
        },
    }
}

pub open spec fn opt_target_for(t: Option<TargetView>, platform: Option<Platform>) -> Option<
    TargetView,
> {
    match t {
        Some(target) => Some(target_for(target, platform)),
        None => None,
    }
}

pub open spec fn condition_for(c: WaitConditionView, p: Option<Platform>) -> WaitConditionView {
    match c {
        WaitConditionView::WindowExists { target } => WaitConditionView::WindowExists {
            target: target_for(target, p),
        },
        WaitConditionView::WindowFocused { target } => WaitConditionView::WindowFocused {
            target: target_for(target, p),
        },
        WaitConditionView::TargetExists { target } => WaitConditionView::TargetExists {
            target: target_for(target, p),
        },
        WaitConditionView::TargetNotExists { target } => WaitConditionView::TargetNotExists {
            target: target_for(target, p),
        },
        WaitConditionView::TargetFocused { target } => WaitConditionView::TargetFocused {
            target: target_for(target, p),
        },
        WaitConditionView::TargetEnabled { target } => WaitConditionView::TargetEnabled {
            target: target_for(target, p),
        },
        WaitConditionView::TargetVisible { target } => WaitConditionView::TargetVisible {
            target: target_for(target, p),
        },
        WaitConditionView::TargetActionable { target } => WaitConditionView::TargetActionable {
            target: target_for(target, p),
        },
        WaitConditionView::ProcessRunning { target } => WaitConditionView::ProcessRunning {
            target: target_for(target, p),
        },
        WaitConditionView::TargetNameContains { target, text } => WaitConditionView::TargetNameContains {
            target: target_for(target, p),
            text,
        },
        WaitConditionView::TargetValueContains { target, text } => WaitConditionView::TargetValueContains {
            target: target_for(target, p),
            text,
        },
        _ => c,
    }
}

pub open spec fn assertion_for(a: AssertionView, p: Option<Platform>) -> AssertionView {
    match a {
        AssertionView::Condition { condition } => AssertionView::Condition {
            condition: condition_for(condition, p),
        },
        AssertionView::TargetExists { target } => AssertionView::TargetExists {
            target: target_for(target, p),
        },
    }
}

pub open spec fn action_for(a: ActionView, p: Option<Platform>) -> ActionView {
    match a {
        ActionView::LaunchUrl { url, target } => ActionView::LaunchUrl {
            url,
            target: opt_target_for(target, p),
        },
        ActionView::LaunchApp { app, target } => ActionView::LaunchApp {
            app,
            target: opt_target_for(target, p),
        },
        ActionView::TypeText { text, target } => ActionView::TypeText {
            text,
            target: opt_target_for(target, p),
        },
        ActionView::PressKey { keys, target } => ActionView::PressKey {
            keys,
            target: opt_target_for(target, p),
        },
        ActionView::OpenFile { path, target } => ActionView::OpenFile {
            path,
            target: opt_target_for(target, p),
        },
        ActionView::Scroll { delta_x, delta_y, target } => ActionView::Scroll {
            delta_x,
            delta_y,
            target: opt_target_for(target, p),
        },
        ActionView::FocusWindow { target } => ActionView::FocusWindow {
            target: target_for(target, p),
        },
        ActionView::ClickTarget { target } => ActionView::ClickTarget {
            target: target_for(target, p),
        },
        ActionView::WaitFor { condition } => ActionView::WaitFor {
            condition: condition_for(condition, p),
        },
        ActionView::Assert { assertion } => ActionView::Assert {
            assertion: assertion_for(assertion, p),
        },
        ActionView::RunCommand { command, args } => a,
    }
}

/// On one platform a target says nothing of any other platform, and looking at it again for the
/// same platform changes nothing.
pub proof fn target_for_settles(t: TargetView, p: Platform)
    ensures
        forall|q: Platform| q != p ==> !target_uses(target_for(t, Some(p)), q),
        target_for(target_for(t, Some(p)), Some(p)) == target_for(t, Some(p)),
{
    reveal(target_for);
}

proof fn opt_target_for_settles(t: Option<TargetView>, p: Platform)
    ensures
        forall|q: Platform| q != p ==> !opt_target_uses(opt_target_for(t, Some(p)), q),
        opt_target_for(opt_target_for(t, Some(p)), Some(p)) == opt_target_for(t, Some(p)),
{
    if t is Some {
        target_for_settles(t->0, p);
    }
}

proof fn condition_for_settles(c: WaitConditionView, p: Platform)
    ensures
        forall|q: Platform| q != p ==> !condition_uses(condition_for(c, Some(p)), q),
        condition_for(condition_for(c, Some(p)), Some(p)) == condition_for(c, Some(p)),
{
    match c {
        WaitConditionView::WindowExists { target } => target_for_settles(target, p),
        WaitConditionView::WindowFocused { target } => target_for_settles(target, p),
        WaitConditionView::TargetExists { target } => target_for_settles(target, p),
        WaitConditionView::TargetNotExists { target } => target_for_settles(target, p),
        WaitConditionView::TargetFocused { target } => target_for_settles(target, p),
        WaitConditionView::TargetEnabled { target } => target_for_settles(target, p),
        WaitConditionView::TargetVisible { target } => target_for_settles(target, p),
        WaitConditionView::TargetActionable { target } => target_for_settles(target, p),
        WaitConditionView::ProcessRunning { target } => target_for_settles(target, p),
        WaitConditionView::TargetNameContains { target, text } => target_for_settles(target, p),
        WaitConditionView::TargetValueContains { target, text } => target_for_settles(target, p),
        _ => {},
    }
}

/// Looking at an action for one platform keeps its kind, leaves no selector of another platform,
/// and changes nothing the second time.
pub proof fn action_for_settles(a: ActionView, p: Platform)
    ensures
        kind_of(action_for(a, Some(p))) == kind_of(a),
        forall|q: Platform| q != p ==> !action_uses(action_for(a, Some(p)), q),
        action_for(action_for(a, Some(p)), Some(p)) == action_for(a, Some(p)),
{
    match a {
        ActionView::LaunchUrl { url, target } => opt_target_for_settles(target, p),
        ActionView::LaunchApp { app, target } => opt_target_for_settles(target, p),
        ActionView::TypeText { text, target } => opt_target_for_settles(target, p),
        ActionView::PressKey { keys, target } => opt_target_for_settles(target, p),
        ActionView::Scroll { delta_x, delta_y, target } => opt_target_for_settles(target, p),
        ActionView::OpenFile { path, target } => opt_target_for_settles(target, p),
        ActionView::FocusWindow { target } => target_for_settles(target, p),
        ActionView::ClickTarget { target } => target_for_settles(target, p),
        ActionView::WaitFor { condition } => condition_for_settles(condition, p),
        ActionView::Assert { assertion } => match assertion {
            AssertionView::Condition { condition } => condition_for_settles(condition, p),
            AssertionView::TargetExists { target } => target_for_settles(target, p),
        },
        ActionView::RunCommand { command, args } => {},
    }
}

/// Without a platform an action stays as it is.
pub proof fn action_for_no_platform(a: ActionView)
    ensures
        action_for(a, None) == a,
{
    reveal(target_for);
}

impl Target {
    /// The target as it stands on a platform.
    pub fn for_platform(&self, platform: Option<Platform>) -> (r: Self)
        ensures
            r@ == target_for(self@, platform),
    {
        proof {
            reveal(target_for);
        }
        let p = match platform {
            None => {
                return self.clone();
            },
            Some(p) => p,
        };
        match self.platform_selectors.get(p) {
            None => {
                let mut target = self.clone();
                target.platform_selectors = PlatformSelectors::new();
                target
            },
            Some(selector) => {
                let mut kept = PlatformSelectors::new();
                if selector.command_hint.is_some() {
                    kept.insert(p, selector.clone());
                }
                Target {
                    app_name: None,
                    process_name: copy_opt_text(&selector.process_name),
                    window_title: copy_opt_text(&selector.window_title),
                    title_contains: None,
                    url: None,
                    file_path: None,
                    accessibility: match &selector.accessibility_query {
                        Some(query) => Some(
                            AccessibilityTarget {
                                id: None,
                                name: Some(query.clone()),
                                control_type: None,
                                path: None,
                            },
                        ),
                        None => None,
                    },
                    image: None,
                    coordinates: None,
                    platform_selectors: kept,
                }
            },
        }
    }
}

fn optional_for_platform(target: &Option<Target>, platform: Option<Platform>) -> (r: Option<Target>)
    ensures
        opt_view(r) == opt_target_for(opt_view(*target), platform),
{
    match target {
        Some(t) => Some(t.for_platform(platform)),
        None => None,
    }
}

fn collect_conditions(conditions: &Vec<WaitCondition>, platforms: &mut PlatformSet)
    ensures
        forall|p: Platform|
            #[trigger] final(platforms).has(p) == (old(platforms).has(p) || exists|i: int|
                0 <= i < conditions@.len() && condition_uses(#[trigger] views(conditions@)[i], p)),
{
    let ghost start = *platforms;
    let mut i: usize = 0;
    while i < conditions.len()
        invariant
            i <= conditions@.len(),
            forall|p: Platform|
                #[trigger] platforms.has(p) == (start.has(p) || exists|j: int|
                    0 <= j < i && condition_uses(#[trigger] views(conditions@)[j], p)),
        decreases conditions@.len() - i,
    {
        let ghost before = *platforms;
        conditions[i].collect_platforms(platforms);
        proof {
            assert forall|p: Platform| #[trigger] platforms.has(p) == (start.has(p) || exists|j: int|
                0 <= j < i + 1 && condition_uses(#[trigger] views(conditions@)[j], p)) by {
                assert(platforms.has(p) == (before.has(p) || condition_uses(
                    views(conditions@)[i as int],
                    p,
                )));
            }
        }
        i = i + 1;
    }
}

fn collect_overrides(overrides: &Vec<PlatformActionOverride>, platforms: &mut PlatformSet)
    ensures
        forall|p: Platform|
            #[trigger] final(platforms).has(p) == (old(platforms).has(p) || exists|i: int|
                0 <= i < overrides@.len() && override_uses(#[trigger] views(overrides@)[i], p)),
{
    let ghost start = *platforms;
    let mut i: usize = 0;
    while i < overrides.len()
        invariant
            i <= overrides@.len(),
            forall|p: Platform|
                #[trigger] platforms.has(p) == (start.has(p) || exists|j: int|
                    0 <= j < i && override_uses(#[trigger] views(overrides@)[j], p)),
        decreases overrides@.len() - i,
    {
        let ghost before = *platforms;
        platforms.insert(overrides[i].platform);
        let ghost inserted = *platforms;
        overrides[i].action.collect_platforms(platforms);
        proof {
            assert forall|p: Platform| #[trigger] platforms.has(p) == (start.has(p) || exists|j: int|
                0 <= j < i + 1 && override_uses(#[trigger] views(overrides@)[j], p)) by {
                assert(inserted.has(p) == (before.has(p) || p == overrides@[i as int].platform));
                assert(platforms.has(p) == (before.has(p) || override_uses(
                    views(overrides@)[i as int],
                    p,
                )));
            }
        }
        i = i + 1;
    }
}

impl Step {
    pub fn collect_platforms(&self, platforms: &mut PlatformSet)
        ensures
            forall|p: Platform|
                #[trigger] final(platforms).has(p) == (old(platforms).has(p) || step_uses(self@, p)),
    {
        let ghost start = *platforms;
        self.action.collect_platforms(platforms);
        let ghost with_action = *platforms;
        collect_conditions(&self.conditions, platforms);
        let ghost with_conditions = *platforms;
        collect_overrides(&self.platform_overrides, platforms);
        proof {
            assert(self@.conditions == views(self.conditions@));
            assert(self@.platform_overrides == views(self.platform_overrides@));
            assert forall|p: Platform| #[trigger] platforms.has(p) == (start.has(p) || step_uses(
                self@,
                p,
            )) by {
                assert(with_action.has(p) == (start.has(p) || action_uses(self@.action, p)));
                assert(with_conditions.has(p) == (with_action.has(p) || exists|i: int|
                    0 <= i < self@.conditions.len() && condition_uses(
                        #[trigger] self@.conditions[i],
                        p,
                    )));
            }
        }
    }
}

fn any_overrides(steps: &Vec<Step>) -> (r: bool)
    ensures
        r == exists|i: int|
            0 <= i < steps@.len() && (#[trigger] views(steps@)[i]).platform_overrides.len() > 0,
{
    let mut i: usize = 0;
    while i < steps.len()
        invariant
            i <= steps@.len(),
            forall|j: int| 0 <= j < i ==> (#[trigger] views(steps@)[j]).platform_overrides.len() == 0,
        decreases steps@.len() - i,
    {
        if steps[i].platform_overrides.len() > 0 {
            assert(views(steps@)[i as int].platform_overrides.len() > 0);
            return true;
        }
        i = i + 1;
    }
    false
}

impl AutomationDefinition {
    /// Where the definition can run.
    pub fn portability(&self) -> (r: Portability)
        ensures
            r == portability_of(self@),
    {
        let mut platforms = PlatformSet::new();
        let mut i: usize = 0;
        while i < self.steps.len()
            invariant
                i <= self.steps@.len(),
                forall|p: Platform|
                    #[trigger] platforms.has(p) == exists|j: int|
                        0 <= j < i && step_uses(#[trigger] self@.steps[j], p),
            decreases self.steps@.len() - i,
        {
            self.steps[i].collect_platforms(&mut platforms);
            assert(self@.steps[i as int] == self.steps@[i as int]@);
            i = i + 1;
        }
        proof {
            assert forall|p: Platform| platforms.has(p) == definition_uses(self@, p) by {}
            assert(platforms.has(Platform::Windows) == platforms.windows);
            assert(platforms.has(Platform::MacOs) == platforms.mac_os);
            assert(platforms.has(Platform::Linux) == platforms.linux);
        }
        if !platforms.windows && !platforms.mac_os && !platforms.linux {
            return Portability::Portable;
        }
        if any_overrides(&self.steps) {
            return Portability::HasPlatformOverrides;
        }
        match (platforms.windows, platforms.mac_os, platforms.linux) {
            (true, false, false) => Portability::WindowsOnly,
            (false, true, false) => Portability::MacOsOnly,
            (false, false, true) => Portability::LinuxOnly,
            _ => Portability::HasPlatformOverrides,
        }
    }
}

/// The action that a step comes down to on a platform: the first override for the platform, or
/// else the step's own action.
pub open spec fn selected_action(s: StepView, platform: Option<Platform>) -> ActionView {
    match platform {
        None => s.action,
        Some(p) => override_from(s.platform_overrides, s.action, p),
    }
}

pub open spec fn override_from(
    overrides: Seq<PlatformActionOverrideView>,
    own: ActionView,
    p: Platform,
) -> ActionView
    decreases overrides.len(),
{
    if overrides.len() == 0 {
        own
    } else if overrides[0].platform == p {
        overrides[0].action
    } else {
        override_from(overrides.drop_first(), own, p)
    }
}

/// The action that a step comes down to on a platform.
pub fn select_action(step: &Step, platform: Option<Platform>) -> (r: &Action)
    ensures
        r@ == selected_action(step@, platform),
{
    let p = match platform {
        None => {
            return &step.action;
        },
        Some(p) => p,
    };
    let ghost all = step@.platform_overrides;
    let mut i: usize = 0;
    assert(all.skip(0) =~= all);
    while i < step.platform_overrides.len()
        invariant
            i <= step.platform_overrides@.len(),
            platform == Some(p),
            all == step@.platform_overrides,
            all == views(step.platform_overrides@),
            override_from(all, step.action@, p) == override_from(
                all.skip(i as int),
                step.action@,
                p,
            ),
        decreases step.platform_overrides@.len() - i,
    {
        assert(all.skip(i as int)[0] == step.platform_overrides@[i as int]@);
        if step.platform_overrides[i].platform == p {
            return &*step.platform_overrides[i].action;
        }
        assert(all.skip(i as int).drop_first() =~= all.skip(i + 1));
        i = i + 1;
    }
    &step.action
}

} // verus!
