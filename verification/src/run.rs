//! Runs: how they are configured, what they report, and how they fail.
use vstd::prelude::*;
use crate::collections::{copy_map, entry_views, TextMap, TextSet};
use crate::definition::Platform;
use crate::text::{copy_opt_text, opt_text};
use crate::value::{Json, Tree};
use crate::views::{copy_all, views, Faithful};

verus! {

/// How weighty a log message is.
#[derive(Debug, Clone, Copy, PartialEq, Eq, Structural)]
pub enum LogLevel {
    Trace,
    Debug,
    Info,
    Warn,
    Error,
}

/// How a run that was not cancelled ended.
#[derive(Debug, Clone, Copy, PartialEq, Eq, Structural)]
pub enum RunStatus {
    Succeeded,
    Failed,
}

/// What kind of thing went wrong in a run.
#[derive(Debug, Clone, Copy, PartialEq, Eq, Structural)]
pub enum RunErrorKind {
    Validation,
    Adapter,
    Timeout,
    Assertion,
    Cancelled,
    Unsupported,
}

/// Why an adapter could not do what it was asked to do.
#[derive(Debug, Clone, Copy, PartialEq, Eq, Structural)]
pub enum FailureKind {
    NotFound,
    Ambiguous,
    Disabled,
    Offscreen,
    FocusDenied,
    CapabilityUnavailable,
    Transient,
    PolicyDenied,
    TruncatedSearch,
}

/// How grave a preflight diagnostic is.
#[derive(Debug, Clone, Copy, PartialEq, Eq, Structural)]
pub enum PreflightSeverity {
    Warning,
    Error,
}

/// What an artifact is.
#[derive(Debug, Clone, Copy, PartialEq, Eq, Structural)]
pub enum ArtifactKind {
    Screenshot,
    AccessibilityTree,
    Log,
    Video,
    File,
}

/// What went wrong in a run.
#[derive(Debug, PartialEq, Eq)]
pub struct RunError {
    pub kind: RunErrorKind,
    pub message: String,
    pub step_id: Option<String>,
    /// What the adapter had to say about the circumstances.
    pub source: Option<String>,
    pub failure_kind: Option<FailureKind>,
}

/// What a [`RunError`] stands for.
pub struct RunErrorView {
    pub kind: RunErrorKind,
    pub message: Seq<char>,
    pub step_id: Option<Seq<char>>,
    pub source: Option<Seq<char>>,
    pub failure_kind: Option<FailureKind>,
}

impl View for RunError {
    type V = RunErrorView;

    open spec fn view(&self) -> RunErrorView {
        RunErrorView {
            kind: self.kind,
            message: self.message@,
            step_id: opt_text(self.step_id),
            source: opt_text(self.source),
            failure_kind: self.failure_kind,
        }
    }
}

impl Clone for RunError {
    fn clone(&self) -> (r: Self)
        ensures
            r@ == self@,
    {
        RunError {
            kind: self.kind,
            message: self.message.clone(),
            step_id: copy_opt_text(&self.step_id),
            source: copy_opt_text(&self.source),
            failure_kind: self.failure_kind,
        }
    }
}

impl Faithful for RunError {
    proof fn clone_keeps_view(&self, copy: &Self) {
    }
}

impl RunError {
    pub fn new(kind: RunErrorKind, message: String) -> (r: Self)
        ensures
            r@ == (RunErrorView {
                kind,
                message: message@,
                step_id: None,
                source: None,
                failure_kind: None,
            }),
    {
        RunError { kind, message, step_id: None, source: None, failure_kind: None }
    }

    pub fn with_step_id(self, step_id: String) -> (r: Self)
        ensures
            r@ == (RunErrorView { step_id: Some(step_id@), ..self@ }),
    {
        RunError { step_id: Some(step_id), ..self }
    }

    pub fn with_source(self, source: String) -> (r: Self)
        ensures
            r@ == (RunErrorView { source: Some(source@), ..self@ }),
    {
        RunError { source: Some(source), ..self }
    }

    pub fn with_failure_kind(self, failure_kind: FailureKind) -> (r: Self)
        ensures
            r@ == (RunErrorView { failure_kind: Some(failure_kind), ..self@ }),
    {
        RunError { failure_kind: Some(failure_kind), ..self }
    }
}

/// What was found to be in the way of a run before it began.
#[derive(Debug, PartialEq, Eq)]
pub struct PreflightDiagnostic {
    pub severity: PreflightSeverity,
    pub code: String,
    pub message: String,
    pub step_id: Option<String>,
}

/// What a [`PreflightDiagnostic`] stands for.
pub struct PreflightDiagnosticView {
    pub severity: PreflightSeverity,
    pub code: Seq<char>,
    pub message: Seq<char>,
    pub step_id: Option<Seq<char>>,
}

impl View for PreflightDiagnostic {
    type V = PreflightDiagnosticView;

    open spec fn view(&self) -> PreflightDiagnosticView {
        PreflightDiagnosticView {
            severity: self.severity,
            code: self.code@,
            message: self.message@,
            step_id: opt_text(self.step_id),
        }
    }
}

impl Clone for PreflightDiagnostic {
    fn clone(&self) -> (r: Self)
        ensures
            r@ == self@,
    {
        PreflightDiagnostic {
            severity: self.severity,
            code: self.code.clone(),
            message: self.message.clone(),
            step_id: copy_opt_text(&self.step_id),
        }
    }
}

impl Faithful for PreflightDiagnostic {
    proof fn clone_keeps_view(&self, copy: &Self) {
    }
}

/// Something that a run left behind.
#[derive(Debug, PartialEq, Eq)]
pub struct Artifact {
    pub kind: ArtifactKind,
    pub uri: String,
    pub label: Option<String>,
}

/// What an [`Artifact`] stands for.
pub struct ArtifactView {
    pub kind: ArtifactKind,
    pub uri: Seq<char>,
    pub label: Option<Seq<char>>,
}

impl View for Artifact {
    type V = ArtifactView;

    open spec fn view(&self) -> ArtifactView {
        ArtifactView {
            kind: self.kind,
            uri: self.uri@,
            label: opt_text(self.label),
        }
    }
}

impl Clone for Artifact {
    fn clone(&self) -> (r: Self)
        ensures
            r@ == self@,
    {
        Artifact {
            kind: self.kind,
            uri: self.uri.clone(),
            label: copy_opt_text(&self.label),
        }
    }
}

impl Faithful for Artifact {
    proof fn clone_keeps_view(&self, copy: &Self) {
    }
}

/// Something that happened in a run.
#[derive(Debug, PartialEq)]
pub enum RunEvent {
    Started { run_id: String, automation_id: String },
    StepStarted { run_id: String, automation_id: String, step_id: String, step_kind: String },
    StepSucceeded {
        run_id: String,
        automation_id: String,
        step_id: String,
        artifacts: Vec<Artifact>,
    },
    StepFailed { run_id: String, automation_id: String, step_id: String, error: RunError },
    Paused { run_id: String, automation_id: String, step_id: Option<String> },
    Resumed { run_id: String, automation_id: String, step_id: Option<String> },
    ManualIntervention { run_id: String, automation_id: String, step_id: String, error: RunError },
    Log {
        run_id: String,
        automation_id: String,
        step_id: Option<String>,
        level: LogLevel,
        message: String,
    },
    Artifact { run_id: String, automation_id: String, step_id: Option<String>, artifact: Artifact },
    Completed { run_id: String, automation_id: String, status: RunStatus },
    Cancelled { run_id: String, automation_id: String },
}

/// What a [`RunEvent`] stands for.
pub enum RunEventView {
    Started { run_id: Seq<char>, automation_id: Seq<char> },
    StepStarted {
        run_id: Seq<char>,
        automation_id: Seq<char>,
        step_id: Seq<char>,
        step_kind: Seq<char>,
    },
    StepSucceeded {
        run_id: Seq<char>,
        automation_id: Seq<char>,
        step_id: Seq<char>,
        artifacts: Seq<ArtifactView>,
    },
    StepFailed {
        run_id: Seq<char>,
        automation_id: Seq<char>,
        step_id: Seq<char>,
        error: RunErrorView,
    },
    Paused { run_id: Seq<char>, automation_id: Seq<char>, step_id: Option<Seq<char>> },
    Resumed { run_id: Seq<char>, automation_id: Seq<char>, step_id: Option<Seq<char>> },
    ManualIntervention {
        run_id: Seq<char>,
        automation_id: Seq<char>,
        step_id: Seq<char>,
        error: RunErrorView,
    },
    Log {
        run_id: Seq<char>,
        automation_id: Seq<char>,
        step_id: Option<Seq<char>>,
        level: LogLevel,
        message: Seq<char>,
    },
    Artifact {
        run_id: Seq<char>,
        automation_id: Seq<char>,
        step_id: Option<Seq<char>>,
        artifact: ArtifactView,
    },
    Completed { run_id: Seq<char>, automation_id: Seq<char>, status: RunStatus },
    Cancelled { run_id: Seq<char>, automation_id: Seq<char> },
}

impl View for RunEvent {
    type V = RunEventView;

    open spec fn view(&self) -> RunEventView {
        match *self {
            RunEvent::Started { run_id, automation_id } => RunEventView::Started {
                run_id: run_id@,
                automation_id: automation_id@,
            },
            RunEvent::StepStarted {
                run_id,
                automation_id,
                step_id,
                step_kind,
            } => RunEventView::StepStarted {
                run_id: run_id@,
                automation_id: automation_id@,
                step_id: step_id@,
                step_kind: step_kind@,
            },
            RunEvent::StepSucceeded {
                run_id,
                automation_id,
                step_id,
                artifacts,
            } => RunEventView::StepSucceeded {
                run_id: run_id@,
                automation_id: automation_id@,
                step_id: step_id@,
                artifacts: views(artifacts@),
            },
            RunEvent::StepFailed {
                run_id,
                automation_id,
                step_id,
                error,
            } => RunEventView::StepFailed {
                run_id: run_id@,
                automation_id: automation_id@,
                step_id: step_id@,
                error: error@,
            },
            RunEvent::Paused { run_id, automation_id, step_id } => RunEventView::Paused {
                run_id: run_id@,
                automation_id: automation_id@,
                step_id: opt_text(step_id),
            },
            RunEvent::Resumed { run_id, automation_id, step_id } => RunEventView::Resumed {
                run_id: run_id@,
                automation_id: automation_id@,
                step_id: opt_text(step_id),
            },
            RunEvent::ManualIntervention {
                run_id,
                automation_id,
                step_id,
                error,
            } => RunEventView::ManualIntervention {
                run_id: run_id@,
                automation_id: automation_id@,
                step_id: step_id@,
                error: error@,
            },
            RunEvent::Log { run_id, automation_id, step_id, level, message } => RunEventView::Log {
                run_id: run_id@,
                automation_id: automation_id@,
                step_id: opt_text(step_id),
                level,
                message: message@,
            },
            RunEvent::Artifact {
                run_id,
                automation_id,
                step_id,
                artifact,
            } => RunEventView::Artifact {
                run_id: run_id@,
                automation_id: automation_id@,
                step_id: opt_text(step_id),
                artifact: artifact@,
            },
            RunEvent::Completed { run_id, automation_id, status } => RunEventView::Completed {
                run_id: run_id@,
                automation_id: automation_id@,
                status,
            },
            RunEvent::Cancelled { run_id, automation_id } => RunEventView::Cancelled {
                run_id: run_id@,
                automation_id: automation_id@,
            },
        }
    }
}

impl Clone for RunEvent {
    fn clone(&self) -> (r: Self)
        ensures
            r@ == self@,
    {
        match self {
            RunEvent::Started { run_id, automation_id } => RunEvent::Started {
                run_id: run_id.clone(),
                automation_id: automation_id.clone(),
            },
            RunEvent::StepStarted {
                run_id,
                automation_id,
                step_id,
                step_kind,
            } => RunEvent::StepStarted {
                run_id: run_id.clone(),
                automation_id: automation_id.clone(),
                step_id: step_id.clone(),
                step_kind: step_kind.clone(),
            },
            RunEvent::StepSucceeded {
                run_id,
                automation_id,
                step_id,
                artifacts,
            } => RunEvent::StepSucceeded {
                run_id: run_id.clone(),
                automation_id: automation_id.clone(),
                step_id: step_id.clone(),
                artifacts: copy_all(artifacts),
            },
            RunEvent::StepFailed { run_id, automation_id, step_id, error } => RunEvent::StepFailed {
                run_id: run_id.clone(),
                automation_id: automation_id.clone(),
                step_id: step_id.clone(),
                error: error.clone(),
            },
            RunEvent::Paused { run_id, automation_id, step_id } => RunEvent::Paused {
                run_id: run_id.clone(),
                automation_id: automation_id.clone(),
                step_id: copy_opt_text(step_id),
            },
            RunEvent::Resumed { run_id, automation_id, step_id } => RunEvent::Resumed {
                run_id: run_id.clone(),
                automation_id: automation_id.clone(),
                step_id: copy_opt_text(step_id),
            },
            RunEvent::ManualIntervention {
                run_id,
                automation_id,
                step_id,
                error,
            } => RunEvent::ManualIntervention {
                run_id: run_id.clone(),
                automation_id: automation_id.clone(),
                step_id: step_id.clone(),
                error: error.clone(),
            },
            RunEvent::Log { run_id, automation_id, step_id, level, message } => RunEvent::Log {
                run_id: run_id.clone(),
                automation_id: automation_id.clone(),
                step_id: copy_opt_text(step_id),
                level: *level,
                message: message.clone(),
            },
            RunEvent::Artifact { run_id, automation_id, step_id, artifact } => RunEvent::Artifact {
                run_id: run_id.clone(),
                automation_id: automation_id.clone(),
                step_id: copy_opt_text(step_id),
                artifact: artifact.clone(),
            },
            RunEvent::Completed { run_id, automation_id, status } => RunEvent::Completed {
                run_id: run_id.clone(),
                automation_id: automation_id.clone(),
                status: *status,
            },
            RunEvent::Cancelled { run_id, automation_id } => RunEvent::Cancelled {
                run_id: run_id.clone(),
                automation_id: automation_id.clone(),
            },
        }
    }
}

impl Faithful for RunEvent {
    proof fn clone_keeps_view(&self, copy: &Self) {
    }
}

/// How a run is to be done, and what it is allowed to do.
#[derive(Debug, PartialEq)]
pub struct RunConfig {
    /// Whether the run only goes through the motions.
    pub dry_run: bool,
    pub run_id: Option<String>,
    pub variables: TextMap<Json>,
    pub working_directory: Option<String>,
    pub environment: TextMap<String>,
    /// The commands that may be run, by their exact names.
    pub approved_commands: TextSet,
    pub platform: Option<Platform>,
    pub allow_coordinate_targets: bool,
    pub allow_path_only_selectors: bool,
    pub allow_value_capture: bool,
    pub allow_screenshot_capture: bool,
    pub allow_image_targets: bool,
    pub capture_step_evidence: bool,
    pub evidence_directory: Option<String>,
    pub evidence_max_artifact_bytes: Option<u64>,
}

/// What a [`RunConfig`] stands for.
pub struct RunConfigView {
    pub dry_run: bool,
    pub run_id: Option<Seq<char>>,
    pub variables: Seq<(Seq<char>, Tree)>,
    pub working_directory: Option<Seq<char>>,
    pub environment: Seq<(Seq<char>, Seq<char>)>,
    pub approved_commands: Set<Seq<char>>,
    pub platform: Option<Platform>,
    pub allow_coordinate_targets: bool,
    pub allow_path_only_selectors: bool,
    pub allow_value_capture: bool,
    pub allow_screenshot_capture: bool,
    pub allow_image_targets: bool,
    pub capture_step_evidence: bool,
    pub evidence_directory: Option<Seq<char>>,
    pub evidence_max_artifact_bytes: Option<u64>,
}

impl View for RunConfig {
    type V = RunConfigView;

    open spec fn view(&self) -> RunConfigView {
        RunConfigView {
            dry_run: self.dry_run,
            run_id: opt_text(self.run_id),
            variables: entry_views(self.variables@),
            working_directory: opt_text(self.working_directory),
            environment: entry_views(self.environment@),
            approved_commands: self.approved_commands@,
            platform: self.platform,
            allow_coordinate_targets: self.allow_coordinate_targets,
            allow_path_only_selectors: self.allow_path_only_selectors,
            allow_value_capture: self.allow_value_capture,
            allow_screenshot_capture: self.allow_screenshot_capture,
            allow_image_targets: self.allow_image_targets,
            capture_step_evidence: self.capture_step_evidence,
            evidence_directory: opt_text(self.evidence_directory),
            evidence_max_artifact_bytes: self.evidence_max_artifact_bytes,
        }
    }
}

impl Clone for RunConfig {
    fn clone(&self) -> (r: Self)
        ensures
            r@ == self@,
    {
        RunConfig {
            dry_run: self.dry_run,
            run_id: copy_opt_text(&self.run_id),
            variables: copy_map(&self.variables),
            working_directory: copy_opt_text(&self.working_directory),
            environment: copy_map(&self.environment),
            approved_commands: self.approved_commands.clone(),
            platform: self.platform,
            allow_coordinate_targets: self.allow_coordinate_targets,
            allow_path_only_selectors: self.allow_path_only_selectors,
            allow_value_capture: self.allow_value_capture,
            allow_screenshot_capture: self.allow_screenshot_capture,
            allow_image_targets: self.allow_image_targets,
            capture_step_evidence: self.capture_step_evidence,
            evidence_directory: copy_opt_text(&self.evidence_directory),
            evidence_max_artifact_bytes: self.evidence_max_artifact_bytes,
        }
    }
}

impl Faithful for RunConfig {
    proof fn clone_keeps_view(&self, copy: &Self) {
    }
}

/// A dry run that is allowed nothing.
pub open spec fn default_config() -> RunConfigView {
    RunConfigView {
        dry_run: true,
        run_id: None,
        variables: Seq::empty(),
        working_directory: None,
        environment: Seq::empty(),
        approved_commands: Set::empty(),
        platform: None,
        allow_coordinate_targets: false,
        allow_path_only_selectors: false,
        allow_value_capture: false,
        allow_screenshot_capture: false,
        allow_image_targets: false,
        capture_step_evidence: false,
        evidence_directory: None,
        evidence_max_artifact_bytes: None,
    }
}

impl Default for RunConfig {
    fn default() -> (r: Self)
        ensures
            r@ == default_config(),
    {
        let r = RunConfig {
            dry_run: true,
            run_id: None,
            variables: TextMap::new(),
            working_directory: None,
            environment: TextMap::new(),
            approved_commands: TextSet::new(),
            platform: None,
            allow_coordinate_targets: false,
            allow_path_only_selectors: false,
            allow_value_capture: false,
            allow_screenshot_capture: false,
            allow_image_targets: false,
            capture_step_evidence: false,
            evidence_directory: None,
            evidence_max_artifact_bytes: None,
        };
        assert(entry_views(r.variables@) =~= Seq::empty());
        assert(entry_views(r.environment@) =~= Seq::empty());
        r
    }
}

} // verus!
