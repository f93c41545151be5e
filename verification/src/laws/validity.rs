//! Which definitions are valid, and what is reported of one that is not.
use vstd::prelude::*;
use crate::definition::{
    AccessibilityTargetView, ActionView, AssertionView, AutomationDefinition,
    AutomationDefinitionView, ImageTargetView, PlatformSelectorView, StepView, TargetView,
    VariableDefinitionView, VariableSourceView, WaitConditionView,
};
use crate::laws::resolution::of_type;
use crate::laws::texts::white;
use crate::text::{blank, is_space};
use crate::validate::{
    accessibility_problem, action_problem, condition_problem, definition_problem, first_below,
    image_problem, selector_problem, step_problem, step_problem_at, target_problem,
    valid_definition, valid_step, valid_target, variable_problem, variable_problem_at, Problem,
    ValidationError,
};

verus! {

/// A text in which there is more than blank space.
pub open spec fn written(text: Seq<char>) -> bool {
    exists|i: int| 0 <= i < text.len() && !white(#[trigger] text[i])
}

/// A text that is left out, or in which there is more than blank space.
pub open spec fn written_if_given(text: Option<Seq<char>>) -> bool {
    text is Some ==> written(text->0)
}

pub proof fn blanks_are_not_written(text: Seq<char>)
    ensures
        blank(text) == !written(text),
{
    assert forall|i: int| 0 <= i < text.len() implies is_space(#[trigger] text[i]) == white(
        text[i],
    ) by {
        crate::laws::texts::blank_is_known(text[i]);
    }
    if !blank(text) {
        let i = choose|i: int| 0 <= i < text.len() && !is_space(#[trigger] text[i]);
        assert(!white(text[i]));
    }
}

proof fn optional_blanks_are_not_written(text: Option<Seq<char>>)
    ensures
        (text is Some ==> !blank(text->0)) == written_if_given(text),
{
    if text is Some {
        blanks_are_not_written(text->0);
    }
}

/// An identifier: letters, digits, and after the first character also `-`, `_` and `.`.
pub open spec fn an_identifier(name: Seq<char>) -> bool {
    name.len() > 0 && forall|i: int|
        0 <= i < name.len() ==> {
            ||| 'a' <= #[trigger] name[i] <= 'z'
            ||| 'A' <= name[i] <= 'Z'
            ||| '0' <= name[i] <= '9'
            ||| i > 0 && (name[i] == '-' || name[i] == '_' || name[i] == '.')
        }
}

pub open spec fn good_accessibility(a: AccessibilityTargetView) -> bool {
    &&& written_if_given(a.id) && written_if_given(a.name) && written_if_given(a.control_type)
    &&& a.id is Some || a.name is Some || a.control_type is Some || a.path is Some
}

pub open spec fn good_image(i: ImageTargetView) -> bool {
    &&& written(i.path)
    &&& i.confidence != Some(0u8)
    &&& i.region is Some ==> i.region->0.width > 0 && i.region->0.height > 0
}

pub open spec fn good_selector(s: PlatformSelectorView) -> bool {
    &&& written_if_given(s.process_name) && written_if_given(s.window_title)
    &&& written_if_given(s.accessibility_query) && written_if_given(s.command_hint)
    &&& s.process_name is Some || s.window_title is Some || s.accessibility_query is Some
        || s.command_hint is Some
}

pub open spec fn good_target(t: TargetView) -> bool {
    &&& written_if_given(t.app_name) && written_if_given(t.process_name)
    &&& written_if_given(t.window_title) && written_if_given(t.title_contains)
    &&& written_if_given(t.url) && written_if_given(t.file_path)
    &&& t.accessibility is Some ==> good_accessibility(t.accessibility->0)
    &&& t.image is Some ==> good_image(t.image->0)
    &&& t.platform_selectors.windows is Some ==> good_selector(t.platform_selectors.windows->0)
    &&& t.platform_selectors.mac_os is Some ==> good_selector(t.platform_selectors.mac_os->0)
    &&& t.platform_selectors.linux is Some ==> good_selector(t.platform_selectors.linux->0)
    &&& t.app_name is Some || t.process_name is Some || t.window_title is Some
        || t.title_contains is Some || t.url is Some || t.file_path is Some || t.accessibility
        is Some || t.image is Some || t.coordinates is Some || t.platform_selectors.windows is Some
        || t.platform_selectors.mac_os is Some || t.platform_selectors.linux is Some
}

pub open spec fn good_target_if_given(t: Option<TargetView>) -> bool {
    t is Some ==> good_target(t->0)
}

/// Targets are valid where what they give is written out, and where they give something.
pub proof fn targets_are_valid_where_good(t: TargetView)
    ensures
        target_problem(t) is None <==> good_target(t),
{
    valid_target(t);
    optional_blanks_are_not_written(t.app_name);
    optional_blanks_are_not_written(t.process_name);
    optional_blanks_are_not_written(t.window_title);
    optional_blanks_are_not_written(t.title_contains);
    optional_blanks_are_not_written(t.url);
    optional_blanks_are_not_written(t.file_path);
    if let Some(a) = t.accessibility {
        optional_blanks_are_not_written(a.id);
        optional_blanks_are_not_written(a.name);
        optional_blanks_are_not_written(a.control_type);
        assert(accessibility_problem(a) is None <==> good_accessibility(a));
    }
    if let Some(i) = t.image {
        blanks_are_not_written(i.path);
        assert(image_problem(i) is None <==> good_image(i));
    }
    if let Some(s) = t.platform_selectors.windows {
        selectors_are_valid_where_good(s);
    }
    if let Some(s) = t.platform_selectors.mac_os {
        selectors_are_valid_where_good(s);
    }
    if let Some(s) = t.platform_selectors.linux {
        selectors_are_valid_where_good(s);
    }
}

proof fn selectors_are_valid_where_good(s: PlatformSelectorView)
    ensures
        selector_problem(s) is None <==> good_selector(s),
{
    optional_blanks_are_not_written(s.process_name);
    optional_blanks_are_not_written(s.window_title);
    optional_blanks_are_not_written(s.accessibility_query);
    optional_blanks_are_not_written(s.command_hint);
}

pub open spec fn good_condition(c: WaitConditionView) -> bool {
    match c {
        WaitConditionView::Duration { duration } => duration.millis > 0,
        WaitConditionView::WindowExists { target } => good_target(target),
        WaitConditionView::WindowFocused { target } => good_target(target),
        WaitConditionView::TargetExists { target } => good_target(target),
        WaitConditionView::TargetNotExists { target } => good_target(target),
        WaitConditionView::TargetFocused { target } => good_target(target),
        WaitConditionView::TargetEnabled { target } => good_target(target),
        WaitConditionView::TargetVisible { target } => good_target(target),
        WaitConditionView::TargetActionable { target } => good_target(target),
        WaitConditionView::ProcessRunning { target } => good_target(target),
        WaitConditionView::TargetNameContains { target, text } => good_target(target) && written(
            text,
        ),
        WaitConditionView::TargetValueContains { target, text } => good_target(target) && written(
            text,
        ),
        WaitConditionView::FileExists { path } => written(path),
        WaitConditionView::CommandExits { command, .. } => written(command),
    }
}

proof fn conditions_are_valid_where_good(c: WaitConditionView)
    ensures
        condition_problem(c) is None <==> good_condition(c),
{
    match c {
        WaitConditionView::Duration { duration } => {},
        WaitConditionView::WindowExists { target } => targets_are_valid_where_good(target),
        WaitConditionView::WindowFocused { target } => targets_are_valid_where_good(target),
        WaitConditionView::TargetExists { target } => targets_are_valid_where_good(target),
        WaitConditionView::TargetNotExists { target } => targets_are_valid_where_good(target),
        WaitConditionView::TargetFocused { target } => targets_are_valid_where_good(target),
        WaitConditionView::TargetEnabled { target } => targets_are_valid_where_good(target),
        WaitConditionView::TargetVisible { target } => targets_are_valid_where_good(target),
        WaitConditionView::TargetActionable { target } => targets_are_valid_where_good(target),
        WaitConditionView::ProcessRunning { target } => targets_are_valid_where_good(target),
        WaitConditionView::TargetNameContains { target, text } => {
            targets_are_valid_where_good(target);
            blanks_are_not_written(text);
        },
        WaitConditionView::TargetValueContains { target, text } => {
            targets_are_valid_where_good(target);
            blanks_are_not_written(text);
        },
        WaitConditionView::FileExists { path } => blanks_are_not_written(path),
        WaitConditionView::CommandExits { command, .. } => blanks_are_not_written(command),
    }
}

pub open spec fn good_action(a: ActionView) -> bool {
    match a {
        ActionView::LaunchUrl { url, target } => written(url) && good_target_if_given(target),
        ActionView::LaunchApp { app, target } => written(app) && good_target_if_given(target),
        ActionView::FocusWindow { target } => good_target(target),
        ActionView::ClickTarget { target } => good_target(target),
        ActionView::TypeText { text, target } => written(text) && good_target_if_given(target),
        ActionView::PressKey { keys, target } => written(keys) && good_target_if_given(target),
        ActionView::Scroll { target, .. } => good_target_if_given(target),
        ActionView::WaitFor { condition } => good_condition(condition),
        ActionView::Assert { assertion: AssertionView::Condition { condition } } => good_condition(
            condition,
        ),
        ActionView::Assert { assertion: AssertionView::TargetExists { target } } => good_target(
            target,
        ),
        ActionView::RunCommand { command, .. } => written(command),
        ActionView::OpenFile { path, target } => written(path) && good_target_if_given(target),
    }
}

proof fn given_targets_are_valid_where_good(t: Option<TargetView>)
    ensures
        crate::validate::opt_target_problem(t) is None <==> good_target_if_given(t),
{
    if t is Some {
        targets_are_valid_where_good(t->0);
    }
}

/// Actions are valid where what they are about is written out, and where their targets are good.
pub proof fn actions_are_valid_where_good(a: ActionView)
    ensures
        action_problem(a) is None <==> good_action(a),
{
    match a {
        ActionView::LaunchUrl { url, target } => {
            blanks_are_not_written(url);
            given_targets_are_valid_where_good(target);
        },
        ActionView::LaunchApp { app, target } => {
            blanks_are_not_written(app);
            given_targets_are_valid_where_good(target);
        },
        ActionView::FocusWindow { target } => targets_are_valid_where_good(target),
        ActionView::ClickTarget { target } => targets_are_valid_where_good(target),
        ActionView::TypeText { text, target } => {
            blanks_are_not_written(text);
            given_targets_are_valid_where_good(target);
        },
        ActionView::PressKey { keys, target } => {
            blanks_are_not_written(keys);
            given_targets_are_valid_where_good(target);
        },
        ActionView::Scroll { target, .. } => given_targets_are_valid_where_good(target),
        ActionView::WaitFor { condition } => conditions_are_valid_where_good(condition),
        ActionView::Assert { assertion: AssertionView::Condition { condition } } =>
            conditions_are_valid_where_good(condition),
        ActionView::Assert { assertion: AssertionView::TargetExists { target } } =>
            targets_are_valid_where_good(target),
        ActionView::RunCommand { command, .. } => blanks_are_not_written(command),
        ActionView::OpenFile { path, target } => {
            blanks_are_not_written(path);
            given_targets_are_valid_where_good(target);
        },
    }
}

pub open spec fn good_step(s: StepView) -> bool {
    &&& an_identifier(s.id)
    &&& good_action(s.action)
    &&& s.timeout is Some ==> s.timeout->0.millis > 0
    &&& s.retry.max_attempts > 0
    &&& s.retry.delay is Some ==> s.retry.delay->0.millis > 0
    &&& forall|i: int| 0 <= i < s.conditions.len() ==> good_condition(#[trigger] s.conditions[i])
    &&& forall|i: int|
        0 <= i < s.platform_overrides.len() ==> good_action(
            (#[trigger] s.platform_overrides[i]).action,
        )
    &&& forall|i: int, j: int|
        0 <= i < j < s.platform_overrides.len() ==> (#[trigger] s.platform_overrides[i]).platform
            != (#[trigger] s.platform_overrides[j]).platform
}

proof fn identifiers_are_known(name: Seq<char>)
    ensures
        crate::validate::identifier(name) <==> an_identifier(name),
{
    if an_identifier(name) {
        assert('a' <= name[0] <= 'z' || 'A' <= name[0] <= 'Z' || '0' <= name[0] <= '9');
    }
}

/// Steps are valid where they have an identifier, where their actions and conditions are good, and
/// where no time and no number of attempts is zero. Each platform has one override at most.
pub proof fn steps_are_valid_where_good(s: StepView)
    ensures
        step_problem(s) is None <==> good_step(s),
{
    valid_step(s);
    identifiers_are_known(s.id);
    actions_are_valid_where_good(s.action);
    assert forall|i: int| 0 <= i < s.conditions.len() implies (condition_problem(
        #[trigger] s.conditions[i],
    ) is None <==> good_condition(s.conditions[i])) by {
        conditions_are_valid_where_good(s.conditions[i]);
    }
    assert forall|i: int| 0 <= i < s.platform_overrides.len() implies (action_problem(
        (#[trigger] s.platform_overrides[i]).action,
    ) is None <==> good_action(s.platform_overrides[i].action)) by {
        actions_are_valid_where_good(s.platform_overrides[i].action);
    }
}

pub open spec fn good_variable(v: VariableDefinitionView) -> bool {
    &&& v.required ==> v.default is None
    &&& v.default matches Some(VariableSourceView::Literal { value }) ==> of_type(
        v.value_type,
        value,
    )
}

pub open spec fn good_definition(d: AutomationDefinitionView) -> bool {
    &&& an_identifier(d.id)
    &&& written(d.title)
    &&& d.schema_version == 1
    &&& d.steps.len() > 0
    &&& forall|i: int|
        0 <= i < d.variables.len() ==> an_identifier((#[trigger] d.variables[i]).0)
            && good_variable(d.variables[i].1)
    &&& forall|i: int| 0 <= i < d.steps.len() ==> good_step(#[trigger] d.steps[i])
    &&& forall|i: int, j: int|
        0 <= i < j < d.steps.len() ==> (#[trigger] d.steps[i]).id != (#[trigger] d.steps[j]).id
}

/// A definition is found valid exactly where it is good: what it gives is written out, its steps
/// and variables are good, and no two steps have one name. What is reported of another is so.
pub proof fn definitions_are_valid_where_good(
    definition: &AutomationDefinition,
    r: Result<(), ValidationError>,
)
    requires
        call_ensures(AutomationDefinition::validate, (definition,), r),
    ensures
        r is Ok <==> good_definition(definition@),
        ({
            let d = definition@;
            let e = r->Err_0;
            &&& !an_identifier(d.id) ==> r is Err && e is InvalidIdentifier
            &&& an_identifier(d.id) && !written(d.title) ==> r is Err && e is MissingField
            &&& an_identifier(d.id) && written(d.title) && d.schema_version != 1 ==> r is Err && e@
                == (Problem::UnsupportedSchemaVersion { expected: 1, actual: d.schema_version })
            &&& an_identifier(d.id) && written(d.title) && d.schema_version == 1 && d.steps.len()
                == 0 ==> r is Err && e is NoSteps
            &&& r is Err && e is NoSteps ==> d.steps.len() == 0
        }),
{
    let d = definition@;
    valid_definition(d);
    identifiers_are_known(d.id);
    blanks_are_not_written(d.title);
    assert forall|i: int| 0 <= i < d.variables.len() implies (crate::validate::identifier(
        (#[trigger] d.variables[i]).0,
    ) && variable_problem(d.variables[i].0, d.variables[i].1) is None <==> an_identifier(
        d.variables[i].0,
    ) && good_variable(d.variables[i].1)) by {
        identifiers_are_known(d.variables[i].0);
    }
    assert forall|i: int| 0 <= i < d.steps.len() implies (step_problem(#[trigger] d.steps[i])
        is None <==> good_step(d.steps[i])) by {
        steps_are_valid_where_good(d.steps[i]);
    }
    if d.steps.len() > 0 && definition_problem(d) == Some(Problem::NoSteps) {
        no_such_problem(d);
    }
}

proof fn no_such_problem(d: AutomationDefinitionView)
    requires
        d.steps.len() > 0,
    ensures
        definition_problem(d) != Some(Problem::NoSteps),
{
    let by_variable = |i: int| variable_problem_at(d.variables, i);
    let by_step = |i: int| step_problem_at(d.steps, i);
    if first_below(d.variables.len(), by_variable) is Some {
        let i = first_of_them(d.variables.len(), by_variable);
    }
    if first_below(d.steps.len(), by_step) is Some {
        let i = first_of_them(d.steps.len(), by_step);
        step_problems_are_their_own(d.steps[i]);
    }
}

proof fn first_of_them(n: nat, problem: spec_fn(int) -> Option<Problem>) -> (at: int)
    requires
        first_below(n, problem) is Some,
    ensures
        0 <= at < n,
        first_below(n, problem) == problem(at),
        forall|i: int| 0 <= i < at ==> #[trigger] problem(i) is None,
    decreases n,
{
    if n > 0 && first_below((n - 1) as nat, problem) is Some {
        first_of_them((n - 1) as nat, problem)
    } else {
        crate::validate::first_below_none((n - 1) as nat, problem);
        n - 1
    }
}

proof fn step_problems_are_their_own(s: StepView)
    ensures
        step_problem(s) != Some(Problem::NoSteps),
{
    let by_condition = |i: int| condition_problem(s.conditions[i]);
    let by_override = |i: int| crate::validate::override_problem(s.platform_overrides, i);
    if first_below(s.conditions.len(), by_condition) is Some {
        let i = first_of_them(s.conditions.len(), by_condition);
    }
    if first_below(s.platform_overrides.len(), by_override) is Some {
        let i = first_of_them(s.platform_overrides.len(), by_override);
    }
}

} // verus!
