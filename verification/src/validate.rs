//! What makes a definition valid, and the first problem of one that is not.
use vstd::prelude::*;
use crate::definition::{
    AccessibilityTarget, AccessibilityTargetView, Action, ActionView, Assertion, AssertionView,
    AutomationDefinition, AutomationDefinitionView, CURRENT_SCHEMA_VERSION, DurationSpec,
    ImageTarget, ImageTargetView, Platform, PlatformActionOverride, PlatformActionOverrideView,
    PlatformSelector, PlatformSelectorView, PlatformSelectors, PlatformSelectorsView, RetryPolicy,
    Step, StepView, Target, TargetView, VariableDefinition, VariableDefinitionView, VariableSource,
    VariableSourceView, VariableType, WaitCondition, WaitConditionView,
};
use crate::collections::{entry_views, TextMap};
use crate::text::{blank, is_blank, opt_text, owned, same_text, to_chars};
use crate::value::{Json, Tree};
use crate::views::{opt_view, views};

verus! {

/// Why a definition is not valid.
#[derive(Debug, PartialEq, Eq)]
pub enum ValidationError {
    MissingField(&'static str),
    BlankField(&'static str),
    InvalidIdentifier { field: &'static str },
    UnsupportedSchemaVersion { expected: u32, actual: u32 },
    NoSteps,
    DuplicateStepId(String),
    DuplicatePlatformOverride(Platform),
    EmptyTarget,
    EmptyAccessibilityTarget,
    EmptyPlatformSelector,
    InvalidImageConfidence,
    InvalidImageRegion,
    InvalidDuration(&'static str),
    InvalidRetryPolicy,
    RequiredVariableHasDefault(String),
    InvalidVariableType { name: String, expected: VariableType },
}

/// What a [`ValidationError`] stands for.
pub enum Problem {
    MissingField(Seq<char>),
    BlankField(Seq<char>),
    InvalidIdentifier { field: Seq<char> },
    UnsupportedSchemaVersion { expected: u32, actual: u32 },
    NoSteps,
    DuplicateStepId(Seq<char>),
    DuplicatePlatformOverride(Platform),
    EmptyTarget,
    EmptyAccessibilityTarget,
    EmptyPlatformSelector,
    InvalidImageConfidence,
    InvalidImageRegion,
    InvalidDuration(Seq<char>),
    InvalidRetryPolicy,
    RequiredVariableHasDefault(Seq<char>),
    InvalidVariableType { name: Seq<char>, expected: VariableType },
}

impl View for ValidationError {
    type V = Problem;

    open spec fn view(&self) -> Problem {
        match *self {
            ValidationError::MissingField(field) => Problem::MissingField(field@),
            ValidationError::BlankField(field) => Problem::BlankField(field@),
            ValidationError::InvalidIdentifier { field } => Problem::InvalidIdentifier {
                field: field@,
            },
            ValidationError::UnsupportedSchemaVersion {
                expected,
                actual,
            } => Problem::UnsupportedSchemaVersion { expected, actual },
            ValidationError::NoSteps => Problem::NoSteps,
            ValidationError::DuplicateStepId(id) => Problem::DuplicateStepId(id@),
            ValidationError::DuplicatePlatformOverride(platform) =>
                Problem::DuplicatePlatformOverride(platform),
            ValidationError::EmptyTarget => Problem::EmptyTarget,
            ValidationError::EmptyAccessibilityTarget => Problem::EmptyAccessibilityTarget,
            ValidationError::EmptyPlatformSelector => Problem::EmptyPlatformSelector,
            ValidationError::InvalidImageConfidence => Problem::InvalidImageConfidence,
            ValidationError::InvalidImageRegion => Problem::InvalidImageRegion,
            ValidationError::InvalidDuration(field) => Problem::InvalidDuration(field@),
            ValidationError::InvalidRetryPolicy => Problem::InvalidRetryPolicy,
            ValidationError::RequiredVariableHasDefault(name) =>
                Problem::RequiredVariableHasDefault(name@),
            ValidationError::InvalidVariableType { name, expected } =>
                Problem::InvalidVariableType { name: name@, expected },
        }
    }
}

/// The problem that a check reports, if any.
pub open spec fn reported(r: Result<(), ValidationError>) -> Option<Problem> {
    match r {
        Ok(_) => None,
        Err(e) => Some(e@),
    }
}

/// The first of two possible problems.
pub open spec fn first_of(a: Option<Problem>, b: Option<Problem>) -> Option<Problem> {
    if a is Some {
        a
    } else {
        b
    }
}

/// The problem at the least index below `n` that has one.
pub open spec fn first_below(n: nat, problem: spec_fn(int) -> Option<Problem>) -> Option<Problem>
    decreases n,
{
    if n == 0 {
        None
    } else {
        first_of(first_below((n - 1) as nat, problem), problem(n - 1))
    }
}

/// A problem at some index stays the first one, however far the search goes on.
proof fn first_below_stays(n: nat, m: nat, problem: spec_fn(int) -> Option<Problem>)
    requires
        n <= m,
        first_below(n, problem) is Some,
    ensures
        first_below(m, problem) == first_below(n, problem),
    decreases m,
{
    if n < m {
        first_below_stays(n, (m - 1) as nat, problem);
    }
}

/// There is no problem below `n` exactly where no index below `n` has one.
pub proof fn first_below_none(n: nat, problem: spec_fn(int) -> Option<Problem>)
    ensures
        first_below(n, problem) is None <==> forall|i: int| 0 <= i < n ==> (#[trigger] problem(i)) is None,
    decreases n,
{
    if n > 0 {
        first_below_none((n - 1) as nat, problem);
    }
}

pub open spec fn alphanumeric(c: char) -> bool {
    ('0' <= c <= '9') || ('A' <= c <= 'Z') || ('a' <= c <= 'z')
}

/// A text that names a step, a variable or an automation.
pub open spec fn identifier(value: Seq<char>) -> bool {
    &&& value.len() > 0
    &&& alphanumeric(value[0])
    &&& forall|i: int|
        0 < i < value.len() ==> alphanumeric(#[trigger] value[i]) || value[i] == '-' || value[i]
            == '_' || value[i] == '.'
}

pub open spec fn identifier_problem(field: Seq<char>, value: Seq<char>) -> Option<Problem> {
    if identifier(value) {
        None
    } else {
        Some(Problem::InvalidIdentifier { field })
    }
}

pub open spec fn required_problem(field: Seq<char>, value: Seq<char>) -> Option<Problem> {
    if blank(value) {
        Some(Problem::MissingField(field))
    } else {
        None
    }
}

pub open spec fn optional_problem(field: Seq<char>, value: Option<Seq<char>>) -> Option<Problem> {
    match value {
        Some(text) => if blank(text) {
            Some(Problem::BlankField(field))
        } else {
            None
        },
        None => None,
    }
}

pub open spec fn duration_problem(field: Seq<char>, duration: DurationSpec) -> Option<Problem> {
    if duration.millis == 0 {
        Some(Problem::InvalidDuration(field))
    } else {
        None
    }
}

pub open spec fn retry_problem(retry: RetryPolicy) -> Option<Problem> {
    if retry.max_attempts == 0 {
        Some(Problem::InvalidRetryPolicy)
    } else {
        match retry.delay {
            Some(delay) => duration_problem("retry delay"@, delay),
            None => None,
        }
    }
}

/// A present text that is not blank.
pub open spec fn given(value: Option<Seq<char>>) -> bool {
    value is Some && !blank(value->0)
}

pub open spec fn accessibility_problem(t: AccessibilityTargetView) -> Option<Problem> {
    first_of(
        optional_problem("accessibility id"@, t.id),
        first_of(
            optional_problem("accessibility name"@, t.name),
            first_of(
                optional_problem("accessibility controlType"@, t.control_type),
                if given(t.id) || given(t.name) || given(t.control_type) || t.path is Some {
                    None
                } else {
                    Some(Problem::EmptyAccessibilityTarget)
                },
            ),
        ),
    )
}

pub open spec fn image_problem(t: ImageTargetView) -> Option<Problem> {
    first_of(
        required_problem("image path"@, t.path),
        if t.confidence == Some(0u8) {
            Some(Problem::InvalidImageConfidence)
        } else if t.region is Some && (t.region->0.width == 0 || t.region->0.height == 0) {
            Some(Problem::InvalidImageRegion)
        } else {
            None
        },
    )
}

pub open spec fn selector_problem(s: PlatformSelectorView) -> Option<Problem> {
    first_of(
        optional_problem("platform selector processName"@, s.process_name),
        first_of(
            optional_problem("platform selector windowTitle"@, s.window_title),
            first_of(
                optional_problem("platform selector accessibilityQuery"@, s.accessibility_query),
                first_of(
                    optional_problem("platform selector commandHint"@, s.command_hint),
                    if given(s.process_name) || given(s.window_title) || given(
                        s.accessibility_query,
                    ) || given(s.command_hint) {
                        None
                    } else {
                        Some(Problem::EmptyPlatformSelector)
                    },
                ),
            ),
        ),
    )
}

pub open spec fn opt_selector_problem(s: Option<PlatformSelectorView>) -> Option<Problem> {
    match s {
        Some(selector) => selector_problem(selector),
        None => None,
    }
}

/// The selectors are checked in the order of the platforms: Windows, macOS, Linux.
pub open spec fn selectors_problem(s: PlatformSelectorsView) -> Option<Problem> {
    first_of(
        opt_selector_problem(s.windows),
        first_of(opt_selector_problem(s.mac_os), opt_selector_problem(s.linux)),
    )
}

pub open spec fn no_selectors(s: PlatformSelectorsView) -> bool {
    s.windows is None && s.mac_os is None && s.linux is None
}

/// Whether a target says at least one thing about what it stands for.
pub open spec fn has_selector(t: TargetView) -> bool {
    given(t.app_name) || given(t.process_name) || given(t.window_title) || given(t.title_contains)
        || given(t.url) || given(t.file_path) || t.accessibility is Some || t.image is Some
        || t.coordinates is Some || !no_selectors(t.platform_selectors)
}

pub open spec fn target_problem(t: TargetView) -> Option<Problem> {
    first_of(
        optional_problem("target appName"@, t.app_name),
        first_of(
            optional_problem("target processName"@, t.process_name),
            first_of(
                optional_problem("target windowTitle"@, t.window_title),
                first_of(
                    optional_problem("target titleContains"@, t.title_contains),
                    first_of(
                        optional_problem("target url"@, t.url),
                        first_of(
                            optional_problem("target filePath"@, t.file_path),
                            first_of(
                                match t.accessibility {
                                    Some(a) => accessibility_problem(a),
                                    None => None,
                                },
                                first_of(
                                    match t.image {
                                        Some(i) => image_problem(i),
                                        None => None,
                                    },
                                    first_of(
                                        selectors_problem(t.platform_selectors),
                                        if has_selector(t) {
                                            None
                                        } else {
                                            Some(Problem::EmptyTarget)
                                        },
                                    ),
                                ),
                            ),
                        ),
                    ),
                ),
            ),
        ),
    )
}

pub open spec fn opt_target_problem(t: Option<TargetView>) -> Option<Problem> {
    match t {
        Some(target) => target_problem(target),
        None => None,
    }
}

pub open spec fn condition_problem(c: WaitConditionView) -> Option<Problem> {
    match c {
        WaitConditionView::Duration { duration } => duration_problem("wait duration"@, duration),
        WaitConditionView::WindowExists { target } => target_problem(target),
        WaitConditionView::WindowFocused { target } => target_problem(target),
        WaitConditionView::TargetExists { target } => target_problem(target),
        WaitConditionView::TargetNotExists { target } => target_problem(target),
        WaitConditionView::TargetFocused { target } => target_problem(target),
        WaitConditionView::TargetEnabled { target } => target_problem(target),
        WaitConditionView::TargetVisible { target } => target_problem(target),
        WaitConditionView::TargetActionable { target } => target_problem(target),
        WaitConditionView::TargetNameContains { target, text } => first_of(
            target_problem(target),
            required_problem("text"@, text),
        ),
        WaitConditionView::TargetValueContains { target, text } => first_of(
            target_problem(target),
            required_problem("text"@, text),
        ),
        WaitConditionView::ProcessRunning { target } => target_problem(target),
        WaitConditionView::FileExists { path } => required_problem("path"@, path),
        WaitConditionView::CommandExits { command, args } => required_problem("command"@, command),
    }
}

pub open spec fn assertion_problem(a: AssertionView) -> Option<Problem> {
    match a {
        AssertionView::Condition { condition } => condition_problem(condition),
        AssertionView::TargetExists { target } => target_problem(target),
    }
}

pub open spec fn action_problem(a: ActionView) -> Option<Problem> {
    match a {
        ActionView::LaunchUrl { url, target } => first_of(
            required_problem("url"@, url),
            opt_target_problem(target),
        ),
        ActionView::LaunchApp { app, target } => first_of(
            required_problem("app"@, app),
            opt_target_problem(target),
        ),
        ActionView::FocusWindow { target } => target_problem(target),
        ActionView::ClickTarget { target } => target_problem(target),
        ActionView::TypeText { text, target } => first_of(
            opt_target_problem(target),
            required_problem("text"@, text),
        ),
        ActionView::PressKey { keys, target } => first_of(
            opt_target_problem(target),
            required_problem("keys"@, keys),
        ),
        ActionView::Scroll { delta_x, delta_y, target } => opt_target_problem(target),
        ActionView::WaitFor { condition } => condition_problem(condition),
        ActionView::Assert { assertion } => assertion_problem(assertion),
        ActionView::RunCommand { command, args } => required_problem("command"@, command),
        ActionView::OpenFile { path, target } => first_of(
            opt_target_problem(target),
            required_problem("path"@, path),
        ),
    }
}

/// Whether an override before the one at `i` is for the same platform.
pub open spec fn platform_repeats(overrides: Seq<PlatformActionOverrideView>, i: int) -> bool {
    exists|j: int| 0 <= j < i && (#[trigger] overrides[j]).platform == overrides[i].platform
}

pub open spec fn override_problem(
    overrides: Seq<PlatformActionOverrideView>,
    i: int,
) -> Option<Problem> {
    if platform_repeats(overrides, i) {
        Some(Problem::DuplicatePlatformOverride(overrides[i].platform))
    } else {
        action_problem(overrides[i].action)
    }
}

pub open spec fn step_problem(s: StepView) -> Option<Problem> {
    first_of(
        identifier_problem("step id"@, s.id),
        first_of(
            action_problem(s.action),
            first_of(
                match s.timeout {
                    Some(timeout) => duration_problem("step timeout"@, timeout),
                    None => None,
                },
                first_of(
                    retry_problem(s.retry),
                    first_of(
                        first_below(
                            s.conditions.len(),
                            |i: int| condition_problem(s.conditions[i]),
                        ),
                        first_below(
                            s.platform_overrides.len(),
                            |i: int| override_problem(s.platform_overrides, i),
                        ),
                    ),
                ),
            ),
        ),
    )
}

/// Whether a value has a declared type.
pub open spec fn accepts(value_type: VariableType, value: Tree) -> bool {
    match value_type {
        VariableType::String => value is Text,
        VariableType::Boolean => value is Bool,
        VariableType::Number => value is Number,
        VariableType::Json => true,
    }
}

pub open spec fn variable_problem(name: Seq<char>, v: VariableDefinitionView) -> Option<Problem> {
    if v.required && v.default is Some {
        Some(Problem::RequiredVariableHasDefault(name))
    } else {
        match v.default {
            Some(VariableSourceView::Literal { value }) => if accepts(v.value_type, value) {
                None
            } else {
                Some(Problem::InvalidVariableType { name, expected: v.value_type })
            },
            _ => None,
        }
    }
}

/// Whether a step before the one at `i` has the same id.
pub open spec fn id_repeats(steps: Seq<StepView>, i: int) -> bool {
    exists|j: int| 0 <= j < i && (#[trigger] steps[j]).id == steps[i].id
}

pub open spec fn step_problem_at(steps: Seq<StepView>, i: int) -> Option<Problem> {
    first_of(
        step_problem(steps[i]),
        if id_repeats(steps, i) {
            Some(Problem::DuplicateStepId(steps[i].id))
        } else {
            None
        },
    )
}

pub open spec fn variable_problem_at(
    variables: Seq<(Seq<char>, VariableDefinitionView)>,
    i: int,
) -> Option<Problem> {
    first_of(
        identifier_problem("variable name"@, variables[i].0),
        variable_problem(variables[i].0, variables[i].1),
    )
}

/// The first problem of a definition, if it has any.
pub open spec fn definition_problem(d: AutomationDefinitionView) -> Option<Problem> {
    first_of(
        identifier_problem("automation id"@, d.id),
        first_of(
            required_problem("title"@, d.title),
            if d.schema_version != CURRENT_SCHEMA_VERSION {
                Some(
                    Problem::UnsupportedSchemaVersion {
                        expected: CURRENT_SCHEMA_VERSION,
                        actual: d.schema_version,
                    },
                )
            } else if d.steps.len() == 0 {
                Some(Problem::NoSteps)
            } else {
                first_of(
                    first_below(
                        d.variables.len(),
                        |i: int| variable_problem_at(d.variables, i),
                    ),
                    first_below(d.steps.len(), |i: int| step_problem_at(d.steps, i)),
                )
            },
        ),
    )
}

/// A definition is valid exactly where its names are identifiers, its title is not blank, its
/// schema version is the current one, it has steps, every variable and every step is valid, and no
/// two steps share an id.
pub proof fn valid_definition(d: AutomationDefinitionView)
    ensures
        definition_problem(d) is None <==> {
            &&& identifier(d.id)
            &&& !blank(d.title)
            &&& d.schema_version == CURRENT_SCHEMA_VERSION
            &&& d.steps.len() > 0
            &&& forall|i: int|
                0 <= i < d.variables.len() ==> identifier((#[trigger] d.variables[i]).0)
                    && variable_problem(d.variables[i].0, d.variables[i].1) is None
            &&& forall|i: int| 0 <= i < d.steps.len() ==> step_problem(#[trigger] d.steps[i]) is None
            &&& forall|i: int, j: int|
                0 <= i < j < d.steps.len() ==> (#[trigger] d.steps[i]).id != (
                #[trigger] d.steps[j]).id
        },
{
    let by_variable = |i: int| variable_problem_at(d.variables, i);
    let by_step = |i: int| step_problem_at(d.steps, i);
    first_below_none(d.variables.len(), by_variable);
    first_below_none(d.steps.len(), by_step);
    if definition_problem(d) is None {
        assert forall|i: int| 0 <= i < d.variables.len() implies identifier(
            (#[trigger] d.variables[i]).0,
        ) && variable_problem(d.variables[i].0, d.variables[i].1) is None by {
            assert(by_variable(i) is None);
        }
        assert forall|i: int| 0 <= i < d.steps.len() implies step_problem(
            #[trigger] d.steps[i],
        ) is None by {
            assert(by_step(i) is None);
        }
        assert forall|i: int, j: int| 0 <= i < j < d.steps.len() implies (#[trigger] d.steps[i]).id
            != (#[trigger] d.steps[j]).id by {
            assert(by_step(j) is None);
            assert(!id_repeats(d.steps, j));
        }
    }
}

/// A step is valid exactly where its id is an identifier, its action, retry policy, conditions and
/// overriding actions are valid, its timeout is not zero, and no two overrides are for one
/// platform.
pub proof fn valid_step(s: StepView)
    ensures
        step_problem(s) is None <==> {
            &&& identifier(s.id)
            &&& action_problem(s.action) is None
            &&& s.timeout is Some ==> s.timeout->0.millis > 0
            &&& s.retry.max_attempts > 0
            &&& s.retry.delay is Some ==> s.retry.delay->0.millis > 0
            &&& forall|i: int|
                0 <= i < s.conditions.len() ==> condition_problem(#[trigger] s.conditions[i]) is None
            &&& forall|i: int|
                0 <= i < s.platform_overrides.len() ==> action_problem(
                    (#[trigger] s.platform_overrides[i]).action,
                ) is None
            &&& forall|i: int, j: int|
                0 <= i < j < s.platform_overrides.len() ==> (
                #[trigger] s.platform_overrides[i]).platform != (
                #[trigger] s.platform_overrides[j]).platform
        },
{
    let by_condition = |i: int| condition_problem(s.conditions[i]);
    let by_override = |i: int| override_problem(s.platform_overrides, i);
    first_below_none(s.conditions.len(), by_condition);
    first_below_none(s.platform_overrides.len(), by_override);
    if step_problem(s) is None {
        assert forall|i: int| 0 <= i < s.conditions.len() implies condition_problem(
            #[trigger] s.conditions[i],
        ) is None by {
            assert(by_condition(i) is None);
        }
        assert forall|i: int| 0 <= i < s.platform_overrides.len() implies action_problem(
            (#[trigger] s.platform_overrides[i]).action,
        ) is None by {
            assert(by_override(i) is None);
        }
        assert forall|i: int, j: int| 0 <= i < j < s.platform_overrides.len() implies (
        #[trigger] s.platform_overrides[i]).platform != (
        #[trigger] s.platform_overrides[j]).platform by {
            assert(by_override(j) is None);
            assert(!platform_repeats(s.platform_overrides, j));
        }
    }
}

/// A target is valid exactly where it has a selector, none of its texts is blank, and its
/// accessibility, image and platform selectors are valid.
pub proof fn valid_target(t: TargetView)
    ensures
        target_problem(t) is None <==> {
            &&& has_selector(t)
            &&& t.app_name is Some ==> !blank(t.app_name->0)
            &&& t.process_name is Some ==> !blank(t.process_name->0)
            &&& t.window_title is Some ==> !blank(t.window_title->0)
            &&& t.title_contains is Some ==> !blank(t.title_contains->0)
            &&& t.url is Some ==> !blank(t.url->0)
            &&& t.file_path is Some ==> !blank(t.file_path->0)
            &&& t.accessibility is Some ==> accessibility_problem(t.accessibility->0) is None
            &&& t.image is Some ==> image_problem(t.image->0) is None
            &&& t.platform_selectors.windows is Some ==> selector_problem(
                t.platform_selectors.windows->0,
            ) is None
            &&& t.platform_selectors.mac_os is Some ==> selector_problem(
                t.platform_selectors.mac_os->0,
            ) is None
            &&& t.platform_selectors.linux is Some ==> selector_problem(
                t.platform_selectors.linux->0,
            ) is None
        },
{
}

pub(crate) fn is_alphanumeric(c: char) -> (r: bool)
    ensures
        r == alphanumeric(c),
{
    ('0' <= c && c <= '9') || ('A' <= c && c <= 'Z') || ('a' <= c && c <= 'z')
}

fn is_identifier(value: &str) -> (r: bool)
    ensures
        r == identifier(value@),
{
    let chars = to_chars(value);
    if chars.len() == 0 || !is_alphanumeric(chars[0]) {
        return false;
    }
    let mut i: usize = 1;
    while i < chars.len()
        invariant
            1 <= i <= chars@.len(),
            chars@ == value@,
            forall|j: int|
                0 < j < i ==> alphanumeric(#[trigger] value@[j]) || value@[j] == '-' || value@[j]
                    == '_' || value@[j] == '.',
        decreases chars@.len() - i,
    {
        let c: char = chars[i];
        if !(is_alphanumeric(c) || c == '-' || c == '_' || c == '.') {
            assert(value@[i as int] == c);
            return false;
        }
        i = i + 1;
    }
    true
}

pub fn validate_identifier(field: &'static str, value: &str) -> (r: Result<(), ValidationError>)
    ensures
        reported(r) == identifier_problem(field@, value@),
{
    if is_identifier(value) {
        Ok(())
    } else {
        Err(ValidationError::InvalidIdentifier { field })
    }
}

pub fn validate_non_empty(field: &'static str, value: &str) -> (r: Result<(), ValidationError>)
    ensures
        reported(r) == required_problem(field@, value@),
{
    if is_blank(value) {
        Err(ValidationError::MissingField(field))
    } else {
        Ok(())
    }
}

pub fn validate_optional_non_empty(field: &'static str, value: &Option<String>) -> (r: Result<
    (),
    ValidationError,
>)
    ensures
        reported(r) == optional_problem(field@, opt_text(*value)),
{
    match value {
        Some(text) => if is_blank(text.as_str()) {
            Err(ValidationError::BlankField(field))
        } else {
            Ok(())
        },
        None => Ok(()),
    }
}

fn is_given(value: &Option<String>) -> (r: bool)
    ensures
        r == given(opt_text(*value)),
{
    match value {
        Some(text) => !is_blank(text.as_str()),
        None => false,
    }
}

impl VariableType {
    /// Whether a value has this type.
    pub fn accepts(self, value: &Json) -> (r: bool)
        ensures
            r == accepts(self, value@),
    {
        match self {
            VariableType::String => matches!(value, Json::String(_)),
            VariableType::Boolean => matches!(value, Json::Bool(_)),
            VariableType::Number => matches!(value, Json::Number(_)),
            VariableType::Json => true,
        }
    }
}

impl VariableDefinition {
    pub fn validate(&self, name: &str) -> (r: Result<(), ValidationError>)
        ensures
            reported(r) == variable_problem(name@, self@),
    {
        if self.required && self.default.is_some() {
            return Err(ValidationError::RequiredVariableHasDefault(owned(name)));
        }
        if let Some(VariableSource::Literal { value }) = &self.default {
            if !self.value_type.accepts(value) {
                return Err(
                    ValidationError::InvalidVariableType {
                        name: owned(name),
                        expected: self.value_type,
                    },
                );
            }
        }
        Ok(())
    }
}

impl DurationSpec {
    pub fn validate(self, field: &'static str) -> (r: Result<(), ValidationError>)
        ensures
            reported(r) == duration_problem(field@, self),
    {
        if self.millis == 0 {
            Err(ValidationError::InvalidDuration(field))
        } else {
            Ok(())
        }
    }
}

impl RetryPolicy {
    pub fn validate(self) -> (r: Result<(), ValidationError>)
        ensures
            reported(r) == retry_problem(self),
    {
        if self.max_attempts == 0 {
            return Err(ValidationError::InvalidRetryPolicy);
        }
        match self.delay {
            Some(delay) => delay.validate("retry delay"),
            None => Ok(()),
        }
    }
}

impl AccessibilityTarget {
    pub fn validate(&self) -> (r: Result<(), ValidationError>)
        ensures
            reported(r) == accessibility_problem(self@),
    {
        validate_optional_non_empty("accessibility id", &self.id)?;
        validate_optional_non_empty("accessibility name", &self.name)?;
        validate_optional_non_empty("accessibility controlType", &self.control_type)?;
        if is_given(&self.id) || is_given(&self.name) || is_given(&self.control_type)
            || self.path.is_some() {
            Ok(())
        } else {
            Err(ValidationError::EmptyAccessibilityTarget)
        }
    }
}

impl ImageTarget {
    pub fn validate(&self) -> (r: Result<(), ValidationError>)
        ensures
            reported(r) == image_problem(self@),
    {
        validate_non_empty("image path", self.path.as_str())?;
        if let Some(confidence) = self.confidence {
            if confidence == 0 {
                return Err(ValidationError::InvalidImageConfidence);
            }
        }
        if let Some(region) = self.region {
            if region.width == 0 || region.height == 0 {
                return Err(ValidationError::InvalidImageRegion);
            }
        }
        Ok(())
    }
}

impl PlatformSelector {
    pub fn validate(&self) -> (r: Result<(), ValidationError>)
        ensures
            reported(r) == selector_problem(self@),
    {
        validate_optional_non_empty("platform selector processName", &self.process_name)?;
        validate_optional_non_empty("platform selector windowTitle", &self.window_title)?;
        validate_optional_non_empty(
            "platform selector accessibilityQuery",
            &self.accessibility_query,
        )?;
        validate_optional_non_empty("platform selector commandHint", &self.command_hint)?;
        if is_given(&self.process_name) || is_given(&self.window_title) || is_given(
            &self.accessibility_query,
        ) || is_given(&self.command_hint) {
            Ok(())
        } else {
            Err(ValidationError::EmptyPlatformSelector)
        }
    }
}

fn validate_optional_selector(selector: &Option<PlatformSelector>) -> (r: Result<
    (),
    ValidationError,
>)
    ensures
        reported(r) == opt_selector_problem(opt_view(*selector)),
{
    match selector {
        Some(s) => s.validate(),
        None => Ok(()),
    }
}

impl PlatformSelectors {
    pub fn new() -> (r: Self)
        ensures
            no_selectors(r@),
    {
        PlatformSelectors { windows: None, mac_os: None, linux: None }
    }

    pub fn is_empty(&self) -> (r: bool)
        ensures
            r == no_selectors(self@),
    {
        self.windows.is_none() && self.mac_os.is_none() && self.linux.is_none()
    }

    pub fn validate(&self) -> (r: Result<(), ValidationError>)
        ensures
            reported(r) == selectors_problem(self@),
    {
        validate_optional_selector(&self.windows)?;
        validate_optional_selector(&self.mac_os)?;
        validate_optional_selector(&self.linux)
    }
}

impl Target {
    pub fn validate(&self) -> (r: Result<(), ValidationError>)
        ensures
            reported(r) == target_problem(self@),
    {
        validate_optional_non_empty("target appName", &self.app_name)?;
        validate_optional_non_empty("target processName", &self.process_name)?;
        validate_optional_non_empty("target windowTitle", &self.window_title)?;
        validate_optional_non_empty("target titleContains", &self.title_contains)?;
        validate_optional_non_empty("target url", &self.url)?;
        validate_optional_non_empty("target filePath", &self.file_path)?;
        if let Some(accessibility) = &self.accessibility {
            accessibility.validate()?;
        }
        if let Some(image) = &self.image {
            image.validate()?;
        }
        self.platform_selectors.validate()?;
        if is_given(&self.app_name) || is_given(&self.process_name) || is_given(&self.window_title)
            || is_given(&self.title_contains) || is_given(&self.url) || is_given(&self.file_path)
            || self.accessibility.is_some() || self.image.is_some() || self.coordinates.is_some()
            || !self.platform_selectors.is_empty() {
            Ok(())
        } else {
            Err(ValidationError::EmptyTarget)
        }
    }
}

pub fn validate_optional_target(target: &Option<Target>) -> (r: Result<(), ValidationError>)
    ensures
        reported(r) == opt_target_problem(opt_view(*target)),
{
    match target {
        Some(t) => t.validate(),
        None => Ok(()),
    }
}

impl WaitCondition {
    pub fn validate(&self) -> (r: Result<(), ValidationError>)
        ensures
            reported(r) == condition_problem(self@),
    {
        match self {
            WaitCondition::Duration { duration } => duration.validate("wait duration"),
            WaitCondition::WindowExists { target }
            | WaitCondition::WindowFocused { target }
            | WaitCondition::TargetExists { target }
            | WaitCondition::TargetNotExists { target }
            | WaitCondition::TargetFocused { target }
            | WaitCondition::TargetEnabled { target }
            | WaitCondition::TargetVisible { target }
            | WaitCondition::TargetActionable { target }
            | WaitCondition::ProcessRunning { target } => target.validate(),
            WaitCondition::TargetNameContains { target, text }
            | WaitCondition::TargetValueContains { target, text } => {
                target.validate()?;
                validate_non_empty("text", text.as_str())
            },
            WaitCondition::FileExists { path } => validate_non_empty("path", path.as_str()),
            WaitCondition::CommandExits { command, .. } => validate_non_empty(
                "command",
                command.as_str(),
            ),
        }
    }
}

impl Assertion {
    pub fn validate(&self) -> (r: Result<(), ValidationError>)
        ensures
            reported(r) == assertion_problem(self@),
    {
        match self {
            Assertion::Condition { condition } => condition.validate(),
            Assertion::TargetExists { target } => target.validate(),
        }
    }
}

impl Action {
    pub fn validate(&self) -> (r: Result<(), ValidationError>)
        ensures
            reported(r) == action_problem(self@),
    {
        match self {
            Action::LaunchUrl { url, target } => {
                validate_non_empty("url", url.as_str())?;
                validate_optional_target(target)
            },
            Action::LaunchApp { app, target } => {
                validate_non_empty("app", app.as_str())?;
                validate_optional_target(target)
            },
            Action::FocusWindow { target } | Action::ClickTarget { target } => target.validate(),
            Action::TypeText { text, target } => {
                validate_optional_target(target)?;
                validate_non_empty("text", text.as_str())
            },
            Action::PressKey { keys, target } => {
                validate_optional_target(target)?;
                validate_non_empty("keys", keys.as_str())
            },
            Action::Scroll { target, .. } => validate_optional_target(target),
            Action::WaitFor { condition } => condition.validate(),
            Action::Assert { assertion } => assertion.validate(),
            Action::RunCommand { command, .. } => validate_non_empty("command", command.as_str()),
            Action::OpenFile { path, target } => {
                validate_optional_target(target)?;
                validate_non_empty("path", path.as_str())
            },
        }
    }
}

fn validate_conditions(conditions: &Vec<WaitCondition>) -> (r: Result<(), ValidationError>)
    ensures
        reported(r) == first_below(
            conditions@.len(),
            |i: int| condition_problem(views(conditions@)[i]),
        ),
{
    let ghost by_condition = |i: int| condition_problem(views(conditions@)[i]);
    let mut i: usize = 0;
    while i < conditions.len()
        invariant
            i <= conditions@.len(),
            by_condition == (|i: int| condition_problem(views(conditions@)[i])),
            first_below(i as nat, by_condition) is None,
        decreases conditions@.len() - i,
    {
        let checked = conditions[i].validate();
        assert(by_condition(i as int) == reported(checked));
        if let Err(error) = checked {
            proof {
                first_below_stays((i + 1) as nat, conditions@.len(), by_condition);
            }
            return Err(error);
        }
        i = i + 1;
    }
    Ok(())
}

/// Whether an override before the one at `k` is for the same platform.
fn repeats_platform(overrides: &Vec<PlatformActionOverride>, k: usize) -> (r: bool)
    requires
        k < overrides@.len(),
    ensures
        r == platform_repeats(views(overrides@), k as int),
{
    let mut m: usize = 0;
    while m < k
        invariant
            m <= k < overrides@.len(),
            forall|j: int|
                0 <= j < m ==> (#[trigger] views(overrides@)[j]).platform
                    != overrides@[k as int].platform,
        decreases k - m,
    {
        if overrides[m].platform == overrides[k].platform {
            assert(views(overrides@)[m as int].platform == views(overrides@)[k as int].platform);
            return true;
        }
        m = m + 1;
    }
    false
}

fn validate_overrides(overrides: &Vec<PlatformActionOverride>) -> (r: Result<(), ValidationError>)
    ensures
        reported(r) == first_below(
            overrides@.len(),
            |i: int| override_problem(views(overrides@), i),
        ),
{
    let ghost by_override = |i: int| override_problem(views(overrides@), i);
    let mut k: usize = 0;
    while k < overrides.len()
        invariant
            k <= overrides@.len(),
            by_override == (|i: int| override_problem(views(overrides@), i)),
            first_below(k as nat, by_override) is None,
        decreases overrides@.len() - k,
    {
        let checked = if repeats_platform(overrides, k) {
            Err(ValidationError::DuplicatePlatformOverride(overrides[k].platform))
        } else {
            overrides[k].action.validate()
        };
        assert(by_override(k as int) == reported(checked));
        if let Err(error) = checked {
            proof {
                first_below_stays((k + 1) as nat, overrides@.len(), by_override);
            }
            return Err(error);
        }
        k = k + 1;
    }
    Ok(())
}

impl Step {
    /// Checks the step and reports the first problem.
    pub fn validate(&self) -> (r: Result<(), ValidationError>)
        ensures
            reported(r) == step_problem(self@),
    {
        proof {
            let v = self@;
            assert((|i: int| condition_problem(views(self.conditions@)[i])) =~= (|i: int|
                condition_problem(v.conditions[i])));
            assert((|i: int| override_problem(views(self.platform_overrides@), i)) =~= (|i: int|
                override_problem(v.platform_overrides, i)));
        }
        validate_identifier("step id", self.id.as_str())?;
        self.action.validate()?;
        if let Some(timeout) = self.timeout {
            timeout.validate("step timeout")?;
        }
        self.retry.validate()?;
        validate_conditions(&self.conditions)?;
        validate_overrides(&self.platform_overrides)
    }
}

fn validate_variables(variables: &TextMap<VariableDefinition>) -> (r: Result<(), ValidationError>)
    ensures
        reported(r) == first_below(
            variables@.len(),
            |i: int| variable_problem_at(entry_views(variables@), i),
        ),
{
    let ghost by_variable = |i: int| variable_problem_at(entry_views(variables@), i);
    let mut i: usize = 0;
    while i < variables.len()
        invariant
            i <= variables@.len(),
            by_variable == (|i: int| variable_problem_at(entry_views(variables@), i)),
            first_below(i as nat, by_variable) is None,
        decreases variables@.len() - i,
    {
        let name = variables.key_at(i);
        let checked = match validate_identifier("variable name", name.as_str()) {
            Ok(_) => variables.value_at(i).validate(name.as_str()),
            Err(error) => Err(error),
        };
        assert(by_variable(i as int) == reported(checked));
        if let Err(error) = checked {
            proof {
                first_below_stays((i + 1) as nat, variables@.len(), by_variable);
            }
            return Err(error);
        }
        i = i + 1;
    }
    Ok(())
}

fn validate_steps(steps: &Vec<Step>) -> (r: Result<(), ValidationError>)
    ensures
        reported(r) == first_below(steps@.len(), |i: int| step_problem_at(views(steps@), i)),
{
    let ghost by_step = |i: int| step_problem_at(views(steps@), i);
    let mut i: usize = 0;
    while i < steps.len()
        invariant
            i <= steps@.len(),
            by_step == (|i: int| step_problem_at(views(steps@), i)),
            first_below(i as nat, by_step) is None,
        decreases steps@.len() - i,
    {
        let step = &steps[i];
        match step.validate() {
            Ok(_) => {},
            Err(error) => {
                proof {
                    assert(by_step(i as int) == Some(error@));
                    first_below_stays((i + 1) as nat, steps@.len(), by_step);
                }
                return Err(error);
            },
        }
        let mut m: usize = 0;
        while m < i
            invariant
                m <= i < steps@.len(),
                *step == steps@[i as int],
                step_problem(step@) is None,
                by_step == (|i: int| step_problem_at(views(steps@), i)),
                first_below(i as nat, by_step) is None,
                forall|j: int| 0 <= j < m ==> (#[trigger] views(steps@)[j]).id != step@.id,
            decreases i - m,
        {
            if same_text(steps[m].id.as_str(), step.id.as_str()) {
                proof {
                    assert(views(steps@)[m as int].id == views(steps@)[i as int].id);
                    assert(id_repeats(views(steps@), i as int));
                    assert(by_step(i as int) == Some(Problem::DuplicateStepId(step@.id)));
                    first_below_stays((i + 1) as nat, steps@.len(), by_step);
                }
                return Err(ValidationError::DuplicateStepId(step.id.clone()));
            }
            m = m + 1;
        }
        assert(!id_repeats(views(steps@), i as int));
        assert(by_step(i as int) is None);
        i = i + 1;
    }
    Ok(())
}

impl AutomationDefinition {
    /// Checks the whole definition and reports the first problem.
    pub fn validate(&self) -> (r: Result<(), ValidationError>)
        ensures
            reported(r) == definition_problem(self@),
    {
        validate_identifier("automation id", self.id.as_str())?;
        validate_non_empty("title", self.title.as_str())?;
        if self.schema_version != CURRENT_SCHEMA_VERSION {
            return Err(
                ValidationError::UnsupportedSchemaVersion {
                    expected: CURRENT_SCHEMA_VERSION,
                    actual: self.schema_version,
                },
            );
        }
        if self.steps.len() == 0 {
            return Err(ValidationError::NoSteps);
        }
        validate_variables(&self.variables)?;
        validate_steps(&self.steps)
    }
}

} // verus!
