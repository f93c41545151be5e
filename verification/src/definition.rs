//! The automation definition: the portable document that a run executes.
use vstd::prelude::*;
use crate::collections::{copy_map, entry_views, TextMap};
use crate::text::{copy_opt_text, copy_texts, opt_text, texts};
use crate::value::{Json, Tree};
use crate::views::{copy_all, copy_opt, copy_opt_u32s, opt_view, views, Faithful};

verus! {

/// The schema version that this library reads and writes.
pub const CURRENT_SCHEMA_VERSION: u32 = 1;

/// An operating system that a definition may single out.
#[derive(Debug, Clone, Copy, PartialEq, Eq, PartialOrd, Ord, Structural)]
pub enum Platform {
    Windows,
    MacOs,
    Linux,
}

/// The type that a variable is declared with.
#[derive(Debug, Clone, Copy, PartialEq, Eq, Structural)]
pub enum VariableType {
    String,
    Boolean,
    Number,
    Json,
}

/// Where a definition can run.
#[derive(Debug, Clone, Copy, PartialEq, Eq, Structural)]
pub enum Portability {
    Portable,
    HasPlatformOverrides,
    WindowsOnly,
    MacOsOnly,
    LinuxOnly,
}

/// How the delay between attempts grows.
#[derive(Debug, Clone, Copy, PartialEq, Eq, Structural)]
pub enum BackoffPolicy {
    /// Every delay is the same. In a document this is `none`.
    Constant,
    Linear,
    Exponential,
}

impl Default for BackoffPolicy {
    fn default() -> (r: Self)
        ensures
            r == BackoffPolicy::Constant,
    {
        BackoffPolicy::Constant
    }
}

/// What a run does after a step has failed.
#[derive(Debug, Clone, Copy, PartialEq, Eq, Structural)]
pub enum OnErrorPolicy {
    Stop,
    Continue,
    Prompt,
}

impl Default for OnErrorPolicy {
    fn default() -> (r: Self)
        ensures
            r == OnErrorPolicy::Stop,
    {
        OnErrorPolicy::Stop
    }
}

/// A point on the screen, in pixels.
#[derive(Debug, Clone, Copy, PartialEq, Eq, Structural)]
pub struct Coordinates {
    pub x: i32,
    pub y: i32,
}

/// A rectangle of a window in which an image is searched.
#[derive(Debug, Clone, Copy, PartialEq, Eq, Structural)]
pub struct ImageRegion {
    pub left: i32,
    pub top: i32,
    pub width: u32,
    pub height: u32,
}

/// A length of time.
#[derive(Debug, Clone, Copy, PartialEq, Eq, Structural)]
pub struct DurationSpec {
    pub millis: u64,
}

impl DurationSpec {
    pub fn from_millis(millis: u64) -> (r: Self)
        ensures
            r.millis == millis,
    {
        DurationSpec { millis }
    }
}

/// How often a step is tried, and how long to wait between attempts.
#[derive(Debug, Clone, Copy, PartialEq, Eq, Structural)]
pub struct RetryPolicy {
    pub max_attempts: u32,
    pub delay: Option<DurationSpec>,
    pub backoff: BackoffPolicy,
}

/// One attempt, no delay.
pub open spec fn default_retry() -> RetryPolicy {
    RetryPolicy { max_attempts: 1, delay: None, backoff: BackoffPolicy::Constant }
}

impl Default for RetryPolicy {
    fn default() -> (r: Self)
        ensures
            r == default_retry(),
    {
        RetryPolicy { max_attempts: 1, delay: None, backoff: BackoffPolicy::Constant }
    }
}

/// An element of a window as assistive technology sees it.
#[derive(Debug, PartialEq, Eq)]
pub struct AccessibilityTarget {
    pub id: Option<String>,
    pub name: Option<String>,
    pub control_type: Option<String>,
    /// Child indexes from the root of the window; the empty path is the root.
    pub path: Option<Vec<u32>>,
}

/// What an [`AccessibilityTarget`] stands for.
pub struct AccessibilityTargetView {
    pub id: Option<Seq<char>>,
    pub name: Option<Seq<char>>,
    pub control_type: Option<Seq<char>>,
    pub path: Option<Seq<u32>>,
}

impl View for AccessibilityTarget {
    type V = AccessibilityTargetView;

    open spec fn view(&self) -> AccessibilityTargetView {
        AccessibilityTargetView {
            id: opt_text(self.id),
            name: opt_text(self.name),
            control_type: opt_text(self.control_type),
            path: opt_view(self.path),
        }
    }
}

impl Clone for AccessibilityTarget {
    fn clone(&self) -> (r: Self)
        ensures
            r@ == self@,
    {
        AccessibilityTarget {
            id: copy_opt_text(&self.id),
            name: copy_opt_text(&self.name),
            control_type: copy_opt_text(&self.control_type),
            path: copy_opt_u32s(&self.path),
        }
    }
}

impl Faithful for AccessibilityTarget {
    proof fn clone_keeps_view(&self, copy: &Self) {
    }
}

/// A picture to be found on the screen.
#[derive(Debug, PartialEq, Eq)]
pub struct ImageTarget {
    pub path: String,
    pub confidence: Option<u8>,
    pub region: Option<ImageRegion>,
}

/// What an [`ImageTarget`] stands for.
pub struct ImageTargetView {
    pub path: Seq<char>,
    pub confidence: Option<u8>,
    pub region: Option<ImageRegion>,
}

impl View for ImageTarget {
    type V = ImageTargetView;

    open spec fn view(&self) -> ImageTargetView {
        ImageTargetView {
            path: self.path@,
            confidence: self.confidence,
            region: self.region,
        }
    }
}

impl Clone for ImageTarget {
    fn clone(&self) -> (r: Self)
        ensures
            r@ == self@,
    {
        ImageTarget {
            path: self.path.clone(),
            confidence: self.confidence,
            region: self.region,
        }
    }
}

impl Faithful for ImageTarget {
    proof fn clone_keeps_view(&self, copy: &Self) {
    }
}

/// What stands for a target on one platform.
#[derive(Debug, PartialEq, Eq)]
pub struct PlatformSelector {
    pub process_name: Option<String>,
    pub window_title: Option<String>,
    pub accessibility_query: Option<String>,
    pub command_hint: Option<String>,
}

/// What a [`PlatformSelector`] stands for.
pub struct PlatformSelectorView {
    pub process_name: Option<Seq<char>>,
    pub window_title: Option<Seq<char>>,
    pub accessibility_query: Option<Seq<char>>,
    pub command_hint: Option<Seq<char>>,
}

impl View for PlatformSelector {
    type V = PlatformSelectorView;

    open spec fn view(&self) -> PlatformSelectorView {
        PlatformSelectorView {
            process_name: opt_text(self.process_name),
            window_title: opt_text(self.window_title),
            accessibility_query: opt_text(self.accessibility_query),
            command_hint: opt_text(self.command_hint),
        }
    }
}

impl Clone for PlatformSelector {
    fn clone(&self) -> (r: Self)
        ensures
            r@ == self@,
    {
        PlatformSelector {
            process_name: copy_opt_text(&self.process_name),
            window_title: copy_opt_text(&self.window_title),
            accessibility_query: copy_opt_text(&self.accessibility_query),
            command_hint: copy_opt_text(&self.command_hint),
        }
    }
}

impl Faithful for PlatformSelector {
    proof fn clone_keeps_view(&self, copy: &Self) {
    }
}

/// The selectors of a target by platform: at most one for each.
#[derive(Debug, PartialEq)]
pub struct PlatformSelectors {
    pub windows: Option<PlatformSelector>,
    pub mac_os: Option<PlatformSelector>,
    pub linux: Option<PlatformSelector>,
}

/// What a [`PlatformSelectors`] stands for.
pub struct PlatformSelectorsView {
    pub windows: Option<PlatformSelectorView>,
    pub mac_os: Option<PlatformSelectorView>,
    pub linux: Option<PlatformSelectorView>,
}

impl View for PlatformSelectors {
    type V = PlatformSelectorsView;

    open spec fn view(&self) -> PlatformSelectorsView {
        PlatformSelectorsView {
            windows: opt_view(self.windows),
            mac_os: opt_view(self.mac_os),
            linux: opt_view(self.linux),
        }
    }
}

impl Clone for PlatformSelectors {
    fn clone(&self) -> (r: Self)
        ensures
            r@ == self@,
    {
        PlatformSelectors {
            windows: copy_opt(&self.windows),
            mac_os: copy_opt(&self.mac_os),
            linux: copy_opt(&self.linux),
        }
    }
}

impl Faithful for PlatformSelectors {
    proof fn clone_keeps_view(&self, copy: &Self) {
    }
}

/// What an action or a condition is about.
#[derive(Debug, PartialEq)]
pub struct Target {
    pub app_name: Option<String>,
    pub process_name: Option<String>,
    pub window_title: Option<String>,
    pub title_contains: Option<String>,
    pub url: Option<String>,
    pub file_path: Option<String>,
    pub accessibility: Option<AccessibilityTarget>,
    pub image: Option<ImageTarget>,
    pub coordinates: Option<Coordinates>,
    pub platform_selectors: PlatformSelectors,
}

/// What a [`Target`] stands for.
pub struct TargetView {
    pub app_name: Option<Seq<char>>,
    pub process_name: Option<Seq<char>>,
    pub window_title: Option<Seq<char>>,
    pub title_contains: Option<Seq<char>>,
    pub url: Option<Seq<char>>,
    pub file_path: Option<Seq<char>>,
    pub accessibility: Option<AccessibilityTargetView>,
    pub image: Option<ImageTargetView>,
    pub coordinates: Option<Coordinates>,
    pub platform_selectors: PlatformSelectorsView,
}

impl View for Target {
    type V = TargetView;

    open spec fn view(&self) -> TargetView {
        TargetView {
            app_name: opt_text(self.app_name),
            process_name: opt_text(self.process_name),
            window_title: opt_text(self.window_title),
            title_contains: opt_text(self.title_contains),
            url: opt_text(self.url),
            file_path: opt_text(self.file_path),
            accessibility: opt_view(self.accessibility),
            image: opt_view(self.image),
            coordinates: self.coordinates,
            platform_selectors: self.platform_selectors@,
        }
    }
}

impl Clone for Target {
    fn clone(&self) -> (r: Self)
        ensures
            r@ == self@,
    {
        Target {
            app_name: copy_opt_text(&self.app_name),
            process_name: copy_opt_text(&self.process_name),
            window_title: copy_opt_text(&self.window_title),
            title_contains: copy_opt_text(&self.title_contains),
            url: copy_opt_text(&self.url),
            file_path: copy_opt_text(&self.file_path),
            accessibility: copy_opt(&self.accessibility),
            image: copy_opt(&self.image),
            coordinates: self.coordinates,
            platform_selectors: self.platform_selectors.clone(),
        }
    }
}

impl Faithful for Target {
    proof fn clone_keeps_view(&self, copy: &Self) {
    }
}

/// A state of the desktop that a step waits for or asserts.
#[derive(Debug, PartialEq)]
pub enum WaitCondition {
    Duration { duration: DurationSpec },
    WindowExists { target: Target },
    WindowFocused { target: Target },
    TargetExists { target: Target },
    TargetNotExists { target: Target },
    TargetFocused { target: Target },
    TargetEnabled { target: Target },
    TargetVisible { target: Target },
    TargetActionable { target: Target },
    TargetNameContains { target: Target, text: String },
    TargetValueContains { target: Target, text: String },
    ProcessRunning { target: Target },
    FileExists { path: String },
    CommandExits { command: String, args: Vec<String> },
}

/// What a [`WaitCondition`] stands for.
pub enum WaitConditionView {
    Duration { duration: DurationSpec },
    WindowExists { target: TargetView },
    WindowFocused { target: TargetView },
    TargetExists { target: TargetView },
    TargetNotExists { target: TargetView },
    TargetFocused { target: TargetView },
    TargetEnabled { target: TargetView },
    TargetVisible { target: TargetView },
    TargetActionable { target: TargetView },
    TargetNameContains { target: TargetView, text: Seq<char> },
    TargetValueContains { target: TargetView, text: Seq<char> },
    ProcessRunning { target: TargetView },
    FileExists { path: Seq<char> },
    CommandExits { command: Seq<char>, args: Seq<Seq<char>> },
}

impl View for WaitCondition {
    type V = WaitConditionView;

    open spec fn view(&self) -> WaitConditionView {
        match *self {
            WaitCondition::Duration { duration } => WaitConditionView::Duration {
                duration,
            },
            WaitCondition::WindowExists { target } => WaitConditionView::WindowExists {
                target: target@,
            },
            WaitCondition::WindowFocused { target } => WaitConditionView::WindowFocused {
                target: target@,
            },
            WaitCondition::TargetExists { target } => WaitConditionView::TargetExists {
                target: target@,
            },
            WaitCondition::TargetNotExists { target } => WaitConditionView::TargetNotExists {
                target: target@,
            },
            WaitCondition::TargetFocused { target } => WaitConditionView::TargetFocused {
                target: target@,
            },
            WaitCondition::TargetEnabled { target } => WaitConditionView::TargetEnabled {
                target: target@,
            },
            WaitCondition::TargetVisible { target } => WaitConditionView::TargetVisible {
                target: target@,
            },
            WaitCondition::TargetActionable { target } => WaitConditionView::TargetActionable {
                target: target@,
            },
            WaitCondition::TargetNameContains { target, text } => WaitConditionView::TargetNameContains {
                target: target@,
                text: text@,
            },
            WaitCondition::TargetValueContains { target, text } => WaitConditionView::TargetValueContains {
                target: target@,
                text: text@,
            },
            WaitCondition::ProcessRunning { target } => WaitConditionView::ProcessRunning {
                target: target@,
            },
            WaitCondition::FileExists { path } => WaitConditionView::FileExists {
                path: path@,
            },
            WaitCondition::CommandExits { command, args } => WaitConditionView::CommandExits {
                command: command@,
                args: texts(args@),
            },
        }
    }
}

impl Clone for WaitCondition {
    fn clone(&self) -> (r: Self)
        ensures
            r@ == self@,
    {
        match self {
            WaitCondition::Duration { duration } => WaitCondition::Duration {
                duration: *duration,
            },
            WaitCondition::WindowExists { target } => WaitCondition::WindowExists {
                target: target.clone(),
            },
            WaitCondition::WindowFocused { target } => WaitCondition::WindowFocused {
                target: target.clone(),
            },
            WaitCondition::TargetExists { target } => WaitCondition::TargetExists {
                target: target.clone(),
            },
            WaitCondition::TargetNotExists { target } => WaitCondition::TargetNotExists {
                target: target.clone(),
            },
            WaitCondition::TargetFocused { target } => WaitCondition::TargetFocused {
                target: target.clone(),
            },
            WaitCondition::TargetEnabled { target } => WaitCondition::TargetEnabled {
                target: target.clone(),
            },
            WaitCondition::TargetVisible { target } => WaitCondition::TargetVisible {
                target: target.clone(),
            },
            WaitCondition::TargetActionable { target } => WaitCondition::TargetActionable {
                target: target.clone(),
            },
            WaitCondition::TargetNameContains { target, text } => WaitCondition::TargetNameContains {
                target: target.clone(),
                text: text.clone(),
            },
            WaitCondition::TargetValueContains { target, text } => WaitCondition::TargetValueContains {
                target: target.clone(),
                text: text.clone(),
            },
            WaitCondition::ProcessRunning { target } => WaitCondition::ProcessRunning {
                target: target.clone(),
            },
            WaitCondition::FileExists { path } => WaitCondition::FileExists {
                path: path.clone(),
            },
            WaitCondition::CommandExits { command, args } => WaitCondition::CommandExits {
                command: command.clone(),
                args: copy_texts(args),
            },
        }
    }
}

impl Faithful for WaitCondition {
    proof fn clone_keeps_view(&self, copy: &Self) {
    }
}

/// What an assertion step claims.
#[derive(Debug, PartialEq)]
pub enum Assertion {
    Condition { condition: WaitCondition },
    TargetExists { target: Target },
}

/// What an [`Assertion`] stands for.
pub enum AssertionView {
    Condition { condition: WaitConditionView },
    TargetExists { target: TargetView },
}

impl View for Assertion {
    type V = AssertionView;

    open spec fn view(&self) -> AssertionView {
        match *self {
            Assertion::Condition { condition } => AssertionView::Condition {
                condition: condition@,
            },
            Assertion::TargetExists { target } => AssertionView::TargetExists {
                target: target@,
            },
        }
    }
}

impl Clone for Assertion {
    fn clone(&self) -> (r: Self)
        ensures
            r@ == self@,
    {
        match self {
            Assertion::Condition { condition } => Assertion::Condition {
                condition: condition.clone(),
            },
            Assertion::TargetExists { target } => Assertion::TargetExists {
                target: target.clone(),
            },
        }
    }
}

impl Faithful for Assertion {
    proof fn clone_keeps_view(&self, copy: &Self) {
    }
}

/// What a step does.
#[derive(Debug, PartialEq)]
pub enum Action {
    LaunchUrl { url: String, target: Option<Target> },
    LaunchApp { app: String, target: Option<Target> },
    FocusWindow { target: Target },
    TypeText { text: String, target: Option<Target> },
    PressKey { keys: String, target: Option<Target> },
    ClickTarget { target: Target },
    Scroll { delta_x: i32, delta_y: i32, target: Option<Target> },
    WaitFor { condition: WaitCondition },
    Assert { assertion: Assertion },
    RunCommand { command: String, args: Vec<String> },
    OpenFile { path: String, target: Option<Target> },
}

/// What an [`Action`] stands for.
pub enum ActionView {
    LaunchUrl { url: Seq<char>, target: Option<TargetView> },
    LaunchApp { app: Seq<char>, target: Option<TargetView> },
    FocusWindow { target: TargetView },
    TypeText { text: Seq<char>, target: Option<TargetView> },
    PressKey { keys: Seq<char>, target: Option<TargetView> },
    ClickTarget { target: TargetView },
    Scroll { delta_x: i32, delta_y: i32, target: Option<TargetView> },
    WaitFor { condition: WaitConditionView },
    Assert { assertion: AssertionView },
    RunCommand { command: Seq<char>, args: Seq<Seq<char>> },
    OpenFile { path: Seq<char>, target: Option<TargetView> },
}

impl View for Action {
    type V = ActionView;

    open spec fn view(&self) -> ActionView {
        match *self {
            Action::LaunchUrl { url, target } => ActionView::LaunchUrl {
                url: url@,
                target: opt_view(target),
            },
            Action::LaunchApp { app, target } => ActionView::LaunchApp {
                app: app@,
                target: opt_view(target),
            },
            Action::FocusWindow { target } => ActionView::FocusWindow {
                target: target@,
            },
            Action::TypeText { text, target } => ActionView::TypeText {
                text: text@,
                target: opt_view(target),
            },
            Action::PressKey { keys, target } => ActionView::PressKey {
                keys: keys@,
                target: opt_view(target),
            },
            Action::ClickTarget { target } => ActionView::ClickTarget {
                target: target@,
            },
            Action::Scroll { delta_x, delta_y, target } => ActionView::Scroll {
                delta_x,
                delta_y,
                target: opt_view(target),
            },
            Action::WaitFor { condition } => ActionView::WaitFor {
                condition: condition@,
            },
            Action::Assert { assertion } => ActionView::Assert {
                assertion: assertion@,
            },
            Action::RunCommand { command, args } => ActionView::RunCommand {
                command: command@,
                args: texts(args@),
            },
            Action::OpenFile { path, target } => ActionView::OpenFile {
                path: path@,
                target: opt_view(target),
            },
        }
    }
}

impl Clone for Action {
    fn clone(&self) -> (r: Self)
        ensures
            r@ == self@,
    {
        match self {
            Action::LaunchUrl { url, target } => Action::LaunchUrl {
                url: url.clone(),
                target: copy_opt(target),
            },
            Action::LaunchApp { app, target } => Action::LaunchApp {
                app: app.clone(),
                target: copy_opt(target),
            },
            Action::FocusWindow { target } => Action::FocusWindow {
                target: target.clone(),
            },
            Action::TypeText { text, target } => Action::TypeText {
                text: text.clone(),
                target: copy_opt(target),
            },
            Action::PressKey { keys, target } => Action::PressKey {
                keys: keys.clone(),
                target: copy_opt(target),
            },
            Action::ClickTarget { target } => Action::ClickTarget {
                target: target.clone(),
            },
            Action::Scroll { delta_x, delta_y, target } => Action::Scroll {
                delta_x: *delta_x,
                delta_y: *delta_y,
                target: copy_opt(target),
            },
            Action::WaitFor { condition } => Action::WaitFor {
                condition: condition.clone(),
            },
            Action::Assert { assertion } => Action::Assert {
                assertion: assertion.clone(),
            },
            Action::RunCommand { command, args } => Action::RunCommand {
                command: command.clone(),
                args: copy_texts(args),
            },
            Action::OpenFile { path, target } => Action::OpenFile {
                path: path.clone(),
                target: copy_opt(target),
            },
        }
    }
}

impl Faithful for Action {
    proof fn clone_keeps_view(&self, copy: &Self) {
    }
}

/// The action that takes the place of a step's own on one platform.
#[derive(Debug, PartialEq)]
pub struct PlatformActionOverride {
    pub platform: Platform,
    pub action: Box<Action>,
}

/// What a [`PlatformActionOverride`] stands for.
pub struct PlatformActionOverrideView {
    pub platform: Platform,
    pub action: ActionView,
}

impl View for PlatformActionOverride {
    type V = PlatformActionOverrideView;

    open spec fn view(&self) -> PlatformActionOverrideView {
        PlatformActionOverrideView {
            platform: self.platform,
            action: self.action@,
        }
    }
}

impl Clone for PlatformActionOverride {
    fn clone(&self) -> (r: Self)
        ensures
            r@ == self@,
    {
        PlatformActionOverride {
            platform: self.platform,
            action: Box::new((*self.action).clone()),
        }
    }
}

impl Faithful for PlatformActionOverride {
    proof fn clone_keeps_view(&self, copy: &Self) {
    }
}

/// One step of an automation.
#[derive(Debug, PartialEq)]
pub struct Step {
    pub id: String,
    pub label: Option<String>,
    pub action: Action,
    pub timeout: Option<DurationSpec>,
    pub retry: RetryPolicy,
    pub on_error: OnErrorPolicy,
    pub conditions: Vec<WaitCondition>,
    pub platform_overrides: Vec<PlatformActionOverride>,
}

/// What a [`Step`] stands for.
pub struct StepView {
    pub id: Seq<char>,
    pub label: Option<Seq<char>>,
    pub action: ActionView,
    pub timeout: Option<DurationSpec>,
    pub retry: RetryPolicy,
    pub on_error: OnErrorPolicy,
    pub conditions: Seq<WaitConditionView>,
    pub platform_overrides: Seq<PlatformActionOverrideView>,
}

impl View for Step {
    type V = StepView;

    open spec fn view(&self) -> StepView {
        StepView {
            id: self.id@,
            label: opt_text(self.label),
            action: self.action@,
            timeout: self.timeout,
            retry: self.retry,
            on_error: self.on_error,
            conditions: views(self.conditions@),
            platform_overrides: views(self.platform_overrides@),
        }
    }
}

impl Clone for Step {
    fn clone(&self) -> (r: Self)
        ensures
            r@ == self@,
    {
        Step {
            id: self.id.clone(),
            label: copy_opt_text(&self.label),
            action: self.action.clone(),
            timeout: self.timeout,
            retry: self.retry,
            on_error: self.on_error,
            conditions: copy_all(&self.conditions),
            platform_overrides: copy_all(&self.platform_overrides),
        }
    }
}

impl Faithful for Step {
    proof fn clone_keeps_view(&self, copy: &Self) {
    }
}

/// Where the value of a variable comes from when a run gives none.
#[derive(Debug, PartialEq)]
pub enum VariableSource {
    Literal { value: Json },
    SecretReference { reference: String },
}

/// What a [`VariableSource`] stands for.
pub enum VariableSourceView {
    Literal { value: Tree },
    SecretReference { reference: Seq<char> },
}

impl View for VariableSource {
    type V = VariableSourceView;

    open spec fn view(&self) -> VariableSourceView {
        match *self {
            VariableSource::Literal { value } => VariableSourceView::Literal {
                value: value@,
            },
            VariableSource::SecretReference { reference } => VariableSourceView::SecretReference {
                reference: reference@,
            },
        }
    }
}

impl Clone for VariableSource {
    fn clone(&self) -> (r: Self)
        ensures
            r@ == self@,
    {
        match self {
            VariableSource::Literal { value } => VariableSource::Literal {
                value: value.clone(),
            },
            VariableSource::SecretReference { reference } => VariableSource::SecretReference {
                reference: reference.clone(),
            },
        }
    }
}

impl Faithful for VariableSource {
    proof fn clone_keeps_view(&self, copy: &Self) {
    }
}

/// A variable that a definition declares.
#[derive(Debug, PartialEq)]
pub struct VariableDefinition {
    pub value_type: VariableType,
    pub description: Option<String>,
    pub required: bool,
    pub default: Option<VariableSource>,
}

/// What a [`VariableDefinition`] stands for.
pub struct VariableDefinitionView {
    pub value_type: VariableType,
    pub description: Option<Seq<char>>,
    pub required: bool,
    pub default: Option<VariableSourceView>,
}

impl View for VariableDefinition {
    type V = VariableDefinitionView;

    open spec fn view(&self) -> VariableDefinitionView {
        VariableDefinitionView {
            value_type: self.value_type,
            description: opt_text(self.description),
            required: self.required,
            default: opt_view(self.default),
        }
    }
}

impl Clone for VariableDefinition {
    fn clone(&self) -> (r: Self)
        ensures
            r@ == self@,
    {
        VariableDefinition {
            value_type: self.value_type,
            description: copy_opt_text(&self.description),
            required: self.required,
            default: copy_opt(&self.default),
        }
    }
}

impl Faithful for VariableDefinition {
    proof fn clone_keeps_view(&self, copy: &Self) {
    }
}

/// An automation: what it is called, its variables and its steps.
#[derive(Debug, PartialEq)]
pub struct AutomationDefinition {
    pub id: String,
    pub title: String,
    pub description: Option<String>,
    pub schema_version: u32,
    pub version: Option<String>,
    pub variables: TextMap<VariableDefinition>,
    pub metadata: TextMap<Json>,
    pub steps: Vec<Step>,
}

/// What an [`AutomationDefinition`] stands for.
pub struct AutomationDefinitionView {
    pub id: Seq<char>,
    pub title: Seq<char>,
    pub description: Option<Seq<char>>,
    pub schema_version: u32,
    pub version: Option<Seq<char>>,
    pub variables: Seq<(Seq<char>, VariableDefinitionView)>,
    pub metadata: Seq<(Seq<char>, Tree)>,
    pub steps: Seq<StepView>,
}

impl View for AutomationDefinition {
    type V = AutomationDefinitionView;

    open spec fn view(&self) -> AutomationDefinitionView {
        AutomationDefinitionView {
            id: self.id@,
            title: self.title@,
            description: opt_text(self.description),
            schema_version: self.schema_version,
            version: opt_text(self.version),
            variables: entry_views(self.variables@),
            metadata: entry_views(self.metadata@),
            steps: views(self.steps@),
        }
    }
}

impl Clone for AutomationDefinition {
    fn clone(&self) -> (r: Self)
        ensures
            r@ == self@,
    {
        AutomationDefinition {
            id: self.id.clone(),
            title: self.title.clone(),
            description: copy_opt_text(&self.description),
            schema_version: self.schema_version,
            version: copy_opt_text(&self.version),
            variables: copy_map(&self.variables),
            metadata: copy_map(&self.metadata),
            steps: copy_all(&self.steps),
        }
    }
}

impl Faithful for AutomationDefinition {
    proof fn clone_keeps_view(&self, copy: &Self) {
    }
}

} // verus!
