//! The commands.
use vstd::prelude::*;
use crate::cli::args::{
    automation_options, inspect_options, parse_automation_args, parse_inspect_window_args,
    parse_repair_selector_args, parse_screenshot_args, repair_options, screenshot_options,
    window_target, AutomationCliOptions, AutomationCliOptionsView, ScreenshotCliOptions,
    ScreenshotCliOptionsView,
};
use crate::cli::profiles::{configure, configured};
use crate::definition::{Platform, Target, TargetView};
use crate::run::RunConfig;
use crate::text::{copy_opt_text, opt_text, owned, same_text, texts};
use crate::views::opt_view;

verus! {

/// What the command line asks for.
#[derive(Debug)]
pub enum Command {
    Capabilities,
    RequestAccessibilityPermission,
    InspectWindow {
        target: Target,
        max_depth: u32,
        max_nodes: usize,
        include_values: bool,
        output: Option<String>,
    },
    RepairSelector { target: Target, max_depth: u32, max_nodes: usize },
    Screenshot(ScreenshotCliOptions),
    RunDrills { manifest: String },
    /// Something that is to be done with a definition.
    Automation { name: String, options: AutomationCliOptions },
}

/// What a [`Command`] stands for.
pub enum CommandView {
    Capabilities,
    RequestAccessibilityPermission,
    InspectWindow {
        target: TargetView,
        max_depth: u32,
        max_nodes: usize,
        include_values: bool,
        output: Option<Seq<char>>,
    },
    RepairSelector { target: TargetView, max_depth: u32, max_nodes: usize },
    Screenshot(ScreenshotCliOptionsView),
    RunDrills { manifest: Seq<char> },
    Automation { name: Seq<char>, options: AutomationCliOptionsView },
}

impl View for Command {
    type V = CommandView;

    open spec fn view(&self) -> CommandView {
        match *self {
            Command::Capabilities => CommandView::Capabilities,
            Command::RequestAccessibilityPermission => CommandView::RequestAccessibilityPermission,
            Command::InspectWindow { target, max_depth, max_nodes, include_values, output } =>
                CommandView::InspectWindow {
                target: target@,
                max_depth,
                max_nodes,
                include_values,
                output: opt_text(output),
            },
            Command::RepairSelector { target, max_depth, max_nodes } =>
                CommandView::RepairSelector { target: target@, max_depth, max_nodes },
            Command::Screenshot(options) => CommandView::Screenshot(options@),
            Command::RunDrills { manifest } => CommandView::RunDrills { manifest: manifest@ },
            Command::Automation { name, options } => CommandView::Automation {
                name: name@,
                options: options@,
            },
        }
    }
}

/// What a command with its arguments asks for. Nothing where the user is to be told how the
/// command line is used.
pub open spec fn command_of(name: Seq<char>, args: Seq<Seq<char>>) -> Option<CommandView> {
    if name == "capabilities"@ {
        if args.len() == 0 {
            Some(CommandView::Capabilities)
        } else {
            None
        }
    } else if name == "request-accessibility-permission"@ {
        if args.len() == 0 {
            Some(CommandView::RequestAccessibilityPermission)
        } else {
            None
        }
    } else if name == "inspect-window"@ {
        match inspect_options(args) {
            Some(o) => Some(
                CommandView::InspectWindow {
                    target: window_target(o.window_title, o.title_contains),
                    max_depth: o.max_depth,
                    max_nodes: o.max_nodes,
                    include_values: o.include_values,
                    output: o.output,
                },
            ),
            None => None,
        }
    } else if name == "repair-selector"@ {
        match repair_options(args) {
            Some(o) => Some(
                CommandView::RepairSelector {
                    target: TargetView {
                        accessibility: Some(o.accessibility),
                        ..window_target(o.window_title, o.title_contains)
                    },
                    max_depth: o.max_depth,
                    max_nodes: o.max_nodes,
                },
            ),
            None => None,
        }
    } else if name == "screenshot"@ {
        match screenshot_options(args) {
            Some(o) => Some(CommandView::Screenshot(o)),
            None => None,
        }
    } else if name == "run-drills"@ {
        if args.len() == 1 {
            Some(CommandView::RunDrills { manifest: args[0] })
        } else {
            None
        }
    } else {
        match automation_options(name, args) {
            Some(options) => Some(CommandView::Automation { name, options }),
            None => None,
        }
    }
}

/// Reads the command line, without the name of the program.
pub fn parse_command(name: &str, args: &Vec<String>) -> (r: Option<Command>)
    ensures
        opt_view(r) == command_of(name@, texts(args@)),
{
    if same_text(name, "capabilities") {
        if args.len() == 0 {
            Some(Command::Capabilities)
        } else {
            None
        }
    } else if same_text(name, "request-accessibility-permission") {
        if args.len() == 0 {
            Some(Command::RequestAccessibilityPermission)
        } else {
            None
        }
    } else if same_text(name, "inspect-window") {
        match parse_inspect_window_args(args) {
            Some((target, max_depth, max_nodes, include_values, output)) => Some(
                Command::InspectWindow { target, max_depth, max_nodes, include_values, output },
            ),
            None => None,
        }
    } else if same_text(name, "repair-selector") {
        match parse_repair_selector_args(args) {
            Some((target, max_depth, max_nodes)) => Some(
                Command::RepairSelector { target, max_depth, max_nodes },
            ),
            None => None,
        }
    } else if same_text(name, "screenshot") {
        match parse_screenshot_args(args) {
            Some(options) => Some(Command::Screenshot(options)),
            None => None,
        }
    } else if same_text(name, "run-drills") {
        if args.len() == 1 {
            Some(Command::RunDrills { manifest: args[0].clone() })
        } else {
            None
        }
    } else {
        match parse_automation_args(name, args) {
            Some(options) => Some(Command::Automation { name: owned(name), options }),
            None => None,
        }
    }
}

/// What is done with a definition that was read.
#[derive(Debug, Clone, Copy, PartialEq, Eq, Structural)]
pub enum AutomationTask {
    Validate,
    Preflight,
    DryRun,
    Run,
}

/// The task that goes by a name.
pub open spec fn task_named(name: Seq<char>) -> Option<AutomationTask> {
    if name == "validate"@ {
        Some(AutomationTask::Validate)
    } else if name == "preflight"@ {
        Some(AutomationTask::Preflight)
    } else if name == "dry-run"@ {
        Some(AutomationTask::DryRun)
    } else if name == "run"@ {
        Some(AutomationTask::Run)
    } else {
        None
    }
}

impl AutomationTask {
    /// The task that goes by a name.
    pub fn from_cli(name: &str) -> (r: Option<Self>)
        ensures
            r == task_named(name@),
    {
        if same_text(name, "validate") {
            Some(AutomationTask::Validate)
        } else if same_text(name, "preflight") {
            Some(AutomationTask::Preflight)
        } else if same_text(name, "dry-run") {
            Some(AutomationTask::DryRun)
        } else if same_text(name, "run") {
            Some(AutomationTask::Run)
        } else {
            None
        }
    }

    /// How the task is configured.
    pub fn config(self, options: &AutomationCliOptions, platform: Platform) -> (r: RunConfig)
        ensures
            r@ == configured(
                self == AutomationTask::DryRun,
                platform,
                options.policy_profile,
                options.approvals,
                options.evidence_max_artifact_bytes,
                opt_text(options.evidence_dir),
            ),
    {
        configure(
            self == AutomationTask::DryRun,
            platform,
            options.policy_profile,
            options.approvals,
            options.evidence_max_artifact_bytes,
            copy_opt_text(&options.evidence_dir),
        )
    }

    /// Which directory is cleared of earlier evidence before the run: only a run that was asked
    /// to do so clears any.
    pub fn prunes(self, options: &AutomationCliOptions) -> (r: Option<String>)
        ensures
            opt_text(r) == (if self == AutomationTask::Run && options.prune_evidence_before_run {
                opt_text(options.evidence_dir)
            } else {
                None
            }),
    {
        if self == AutomationTask::Run && options.prune_evidence_before_run {
            copy_opt_text(&options.evidence_dir)
        } else {
            None
        }
    }
}

} // verus!
