//! What the values of the library stand for, field by field.
use vstd::prelude::*;
use crate::accessibility::{AccessibilitySelectorCandidate, WindowIdentity};
use crate::collections::entry_views;
use crate::definition::{
    AccessibilityTarget, Action, ActionView, Assertion, AssertionView, AutomationDefinition,
    ImageTarget, PlatformActionOverride, PlatformSelector, PlatformSelectors, Step, Target,
    VariableDefinition, VariableSource, VariableSourceView, WaitCondition, WaitConditionView,
};
use crate::elements::ElementFacts;
use crate::run::{Artifact, PreflightDiagnostic, RunConfig, RunError, RunEvent, RunEventView};
use crate::text::{opt_text, texts};
use crate::views::{opt_view, views};

verus! {

/// An accessibility target stands for what it holds.
pub proof fn accessibility_target_shows_its_fields(x: AccessibilityTarget)
    ensures
        x@.id == opt_text(x.id),
        x@.name == opt_text(x.name),
        x@.control_type == opt_text(x.control_type),
        x@.path == opt_view(x.path),
{
}

/// An image target stands for what it holds.
pub proof fn image_target_shows_its_fields(x: ImageTarget)
    ensures
        x@.path == x.path@,
        x@.confidence == x.confidence,
        x@.region == x.region,
{
}

/// A platform selector stands for what it holds.
pub proof fn platform_selector_shows_its_fields(x: PlatformSelector)
    ensures
        x@.process_name == opt_text(x.process_name),
        x@.window_title == opt_text(x.window_title),
        x@.accessibility_query == opt_text(x.accessibility_query),
        x@.command_hint == opt_text(x.command_hint),
{
}

/// The selectors of a target stand for what they hold.
pub proof fn platform_selectors_shows_its_fields(x: PlatformSelectors)
    ensures
        x@.windows == opt_view(x.windows),
        x@.mac_os == opt_view(x.mac_os),
        x@.linux == opt_view(x.linux),
{
}

/// A target stands for what it holds.
pub proof fn target_shows_its_fields(x: Target)
    ensures
        x@.app_name == opt_text(x.app_name),
        x@.process_name == opt_text(x.process_name),
        x@.window_title == opt_text(x.window_title),
        x@.title_contains == opt_text(x.title_contains),
        x@.url == opt_text(x.url),
        x@.file_path == opt_text(x.file_path),
        x@.accessibility == opt_view(x.accessibility),
        x@.image == opt_view(x.image),
        x@.coordinates == x.coordinates,
        x@.platform_selectors == x.platform_selectors@,
{
}

/// A wait condition stands for what it holds.
pub proof fn wait_condition_shows_its_fields(x: WaitCondition)
    ensures
        match x {
                WaitCondition::Duration { duration } => x@ == WaitConditionView::Duration {
                duration,
            },
            WaitCondition::WindowExists { target } => x@ == WaitConditionView::WindowExists {
                target: target@,
            },
            WaitCondition::WindowFocused { target } => x@ == WaitConditionView::WindowFocused {
                target: target@,
            },
            WaitCondition::TargetExists { target } => x@ == WaitConditionView::TargetExists {
                target: target@,
            },
            WaitCondition::TargetNotExists { target } => x@ == WaitConditionView::TargetNotExists {
                target: target@,
            },
            WaitCondition::TargetFocused { target } => x@ == WaitConditionView::TargetFocused {
                target: target@,
            },
            WaitCondition::TargetEnabled { target } => x@ == WaitConditionView::TargetEnabled {
                target: target@,
            },
            WaitCondition::TargetVisible { target } => x@ == WaitConditionView::TargetVisible {
                target: target@,
            },
            WaitCondition::TargetActionable { target } => x@
                == WaitConditionView::TargetActionable {
                target: target@,
            },
            WaitCondition::TargetNameContains { target, text } => x@
                == WaitConditionView::TargetNameContains {
                target: target@,
                text: text@,
            },
            WaitCondition::TargetValueContains { target, text } => x@
                == WaitConditionView::TargetValueContains {
                target: target@,
                text: text@,
            },
            WaitCondition::ProcessRunning { target } => x@ == WaitConditionView::ProcessRunning {
                target: target@,
            },
            WaitCondition::FileExists { path } => x@ == WaitConditionView::FileExists {
                path: path@,
            },
            WaitCondition::CommandExits { command, args } => x@ == WaitConditionView::CommandExits {
                command: command@,
                args: texts(args@),
            },
        },
{
}

/// An assertion stands for what it holds.
pub proof fn assertion_shows_its_fields(x: Assertion)
    ensures
        match x {
                Assertion::Condition { condition } => x@ == AssertionView::Condition {
                condition: condition@,
            },
            Assertion::TargetExists { target } => x@ == AssertionView::TargetExists {
                target: target@,
            },
        },
{
}

/// An action stands for what it holds.
pub proof fn action_shows_its_fields(x: Action)
    ensures
        match x {
                Action::LaunchUrl { url, target } => x@ == ActionView::LaunchUrl {
                url: url@,
                target: opt_view(target),
            },
            Action::LaunchApp { app, target } => x@ == ActionView::LaunchApp {
                app: app@,
                target: opt_view(target),
            },
            Action::FocusWindow { target } => x@ == ActionView::FocusWindow {
                target: target@,
            },
            Action::TypeText { text, target } => x@ == ActionView::TypeText {
                text: text@,
                target: opt_view(target),
            },
            Action::PressKey { keys, target } => x@ == ActionView::PressKey {
                keys: keys@,
                target: opt_view(target),
            },
            Action::ClickTarget { target } => x@ == ActionView::ClickTarget {
                target: target@,
            },
            Action::Scroll { delta_x, delta_y, target } => x@ == ActionView::Scroll {
                delta_x,
                delta_y,
                target: opt_view(target),
            },
            Action::WaitFor { condition } => x@ == ActionView::WaitFor {
                condition: condition@,
            },
            Action::Assert { assertion } => x@ == ActionView::Assert {
                assertion: assertion@,
            },
            Action::RunCommand { command, args } => x@ == ActionView::RunCommand {
                command: command@,
                args: texts(args@),
            },
            Action::OpenFile { path, target } => x@ == ActionView::OpenFile {
                path: path@,
                target: opt_view(target),
            },
        },
{
}

/// A platform action override stands for what it holds.
pub proof fn platform_action_override_shows_its_fields(x: PlatformActionOverride)
    ensures
        x@.platform == x.platform,
        x@.action == x.action@,
{
}

/// A step stands for what it holds.
pub proof fn step_shows_its_fields(x: Step)
    ensures
        x@.id == x.id@,
        x@.label == opt_text(x.label),
        x@.action == x.action@,
        x@.timeout == x.timeout,
        x@.retry == x.retry,
        x@.on_error == x.on_error,
        x@.conditions == views(x.conditions@),
        x@.platform_overrides == views(x.platform_overrides@),
{
}

/// A variable source stands for what it holds.
pub proof fn variable_source_shows_its_fields(x: VariableSource)
    ensures
        match x {
                VariableSource::Literal { value } => x@ == VariableSourceView::Literal {
                value: value@,
            },
            VariableSource::SecretReference { reference } => x@
                == VariableSourceView::SecretReference {
                reference: reference@,
            },
        },
{
}

/// A variable definition stands for what it holds.
pub proof fn variable_definition_shows_its_fields(x: VariableDefinition)
    ensures
        x@.value_type == x.value_type,
        x@.description == opt_text(x.description),
        x@.required == x.required,
        x@.default == opt_view(x.default),
{
}

/// An automation definition stands for what it holds.
pub proof fn automation_definition_shows_its_fields(x: AutomationDefinition)
    ensures
        x@.id == x.id@,
        x@.title == x.title@,
        x@.description == opt_text(x.description),
        x@.schema_version == x.schema_version,
        x@.version == opt_text(x.version),
        x@.variables == entry_views(x.variables@),
        x@.metadata == entry_views(x.metadata@),
        x@.steps == views(x.steps@),
{
}

/// A run error stands for what it holds.
pub proof fn run_error_shows_its_fields(x: RunError)
    ensures
        x@.kind == x.kind,
        x@.message == x.message@,
        x@.step_id == opt_text(x.step_id),
        x@.source == opt_text(x.source),
        x@.failure_kind == x.failure_kind,
{
}

/// A preflight diagnostic stands for what it holds.
pub proof fn preflight_diagnostic_shows_its_fields(x: PreflightDiagnostic)
    ensures
        x@.severity == x.severity,
        x@.code == x.code@,
        x@.message == x.message@,
        x@.step_id == opt_text(x.step_id),
{
}

/// An artifact stands for what it holds.
pub proof fn artifact_shows_its_fields(x: Artifact)
    ensures
        x@.kind == x.kind,
        x@.uri == x.uri@,
        x@.label == opt_text(x.label),
{
}

/// A run event stands for what it holds.
pub proof fn run_event_shows_its_fields(x: RunEvent)
    ensures
        match x {
                RunEvent::Started { run_id, automation_id } => x@ == RunEventView::Started {
                run_id: run_id@,
                automation_id: automation_id@,
            },
            RunEvent::StepStarted {
                run_id,
                automation_id,
                step_id,
                step_kind,
            } => x@ == RunEventView::StepStarted {
                run_id: run_id@,
                automation_id: automation_id@,
                step_id: step_id@,
                step_kind: step_kind@,
            },
            RunEvent::StepSucceeded {
                run_id,
                automation_id,
                step_id,
                artifacts,
            } => x@ == RunEventView::StepSucceeded {
                run_id: run_id@,
                automation_id: automation_id@,
                step_id: step_id@,
                artifacts: views(artifacts@),
            },
            RunEvent::StepFailed {
                run_id,
                automation_id,
                step_id,
                error,
            } => x@ == RunEventView::StepFailed {
                run_id: run_id@,
                automation_id: automation_id@,
                step_id: step_id@,
                error: error@,
            },
            RunEvent::Paused { run_id, automation_id, step_id } => x@ == RunEventView::Paused {
                run_id: run_id@,
                automation_id: automation_id@,
                step_id: opt_text(step_id),
            },
            RunEvent::Resumed { run_id, automation_id, step_id } => x@ == RunEventView::Resumed {
                run_id: run_id@,
                automation_id: automation_id@,
                step_id: opt_text(step_id),
            },
            RunEvent::ManualIntervention {
                run_id,
                automation_id,
                step_id,
                error,
            } => x@ == RunEventView::ManualIntervention {
                run_id: run_id@,
                automation_id: automation_id@,
                step_id: step_id@,
                error: error@,
            },
            RunEvent::Log { run_id, automation_id, step_id, level, message } => x@
                == RunEventView::Log {
                run_id: run_id@,
                automation_id: automation_id@,
                step_id: opt_text(step_id),
                level,
                message: message@,
            },
            RunEvent::Artifact {
                run_id,
                automation_id,
                step_id,
                artifact,
            } => x@ == RunEventView::Artifact {
                run_id: run_id@,
                automation_id: automation_id@,
                step_id: opt_text(step_id),
                artifact: artifact@,
            },
            RunEvent::Completed { run_id, automation_id, status } => x@ == RunEventView::Completed {
                run_id: run_id@,
                automation_id: automation_id@,
                status,
            },
            RunEvent::Cancelled { run_id, automation_id } => x@ == RunEventView::Cancelled {
                run_id: run_id@,
                automation_id: automation_id@,
            },
        },
{
}

/// A run config stands for what it holds.
pub proof fn run_config_shows_its_fields(x: RunConfig)
    ensures
        x@.dry_run == x.dry_run,
        x@.run_id == opt_text(x.run_id),
        x@.variables == entry_views(x.variables@),
        x@.working_directory == opt_text(x.working_directory),
        x@.environment == entry_views(x.environment@),
        x@.approved_commands == x.approved_commands@,
        x@.platform == x.platform,
        x@.allow_coordinate_targets == x.allow_coordinate_targets,
        x@.allow_path_only_selectors == x.allow_path_only_selectors,
        x@.allow_value_capture == x.allow_value_capture,
        x@.allow_screenshot_capture == x.allow_screenshot_capture,
        x@.allow_image_targets == x.allow_image_targets,
        x@.capture_step_evidence == x.capture_step_evidence,
        x@.evidence_directory == opt_text(x.evidence_directory),
        x@.evidence_max_artifact_bytes == x.evidence_max_artifact_bytes,
{
}

/// The facts of an element stand for what they hold.
pub proof fn element_facts_shows_its_fields(x: ElementFacts)
    ensures
        x@.automation_id == opt_text(x.automation_id),
        x@.name == opt_text(x.name),
        x@.control_type == opt_text(x.control_type),
        x@.class_name == x.class_name@,
        x@.subrole == x.subrole@,
        x@.bounds == x.bounds,
        x@.enabled == x.enabled,
        x@.offscreen == x.offscreen,
        x@.keyboard_focusable == x.keyboard_focusable,
        x@.has_keyboard_focus == x.has_keyboard_focus,
        x@.password == x.password,
        x@.value == opt_text(x.value),
        x@.actions == texts(x.actions@),
{
}

/// A window identity stands for what it holds.
pub proof fn window_identity_shows_its_fields(x: WindowIdentity)
    ensures
        x@.handle == x.handle@,
        x@.title == x.title@,
        x@.class_name == x.class_name@,
        x@.process_id == x.process_id,
        x@.process_name == opt_text(x.process_name),
        x@.bounds == x.bounds,
        x@.is_foreground == x.is_foreground,
        x@.is_minimized == x.is_minimized,
        x@.owner == opt_text(x.owner),
{
}

/// An accessibility selector candidate stands for what it holds.
pub proof fn accessibility_selector_candidate_shows_its_fields(x: AccessibilitySelectorCandidate)
    ensures
        x@.confidence == x.confidence,
        x@.score == x.score,
        x@.target == x.target@,
        x@.rationale == x.rationale@,
        x@.changes == texts(x.changes@),
        x@.warnings == texts(x.warnings@),
{
}

} // verus!
