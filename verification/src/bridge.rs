//! The bridge for applications that submit runs.
use vstd::prelude::*;
use crate::adapter::ExecutionAdapter;
use crate::control::RunControl;
use crate::definition::{AutomationDefinition, Platform};
use crate::executor::{
    blocked, named, phase_after, plan, preflighted, runnable, AutomationExecutor, ExecutionClock,
    ExecutorError, Phase, RunEventSink, RunReport,
};
use crate::messages::problem_text;
use crate::run::{PreflightDiagnosticView, RunConfig, RunConfigView};
use crate::story::{ran, streamed};
use crate::validate::definition_problem;
use crate::views::views;

verus! {

/// A request to run an automation.
#[derive(Debug, PartialEq)]
pub struct RunAutomationRequest {
    pub automation: AutomationDefinition,
}

/// What the bridge says of itself.
#[derive(Debug, Clone, Copy, PartialEq, Eq)]
pub struct PluginInfo {
    pub name: &'static str,
    pub description: &'static str,
}

pub fn plugin_info() -> (r: PluginInfo)
    ensures
        r.name@ == "cueflow"@,
        r.description@
            == "Thin application bridge for submitting Cueflow automation run requests."@,
{
    PluginInfo {
        name: "cueflow",
        description: "Thin application bridge for submitting Cueflow automation run requests.",
    }
}

/// The configuration of a requested run: that of the caller, on the platform of the host.
pub open spec fn host_config(c: RunConfigView, platform: Platform) -> RunConfigView {
    RunConfigView { platform: Some(platform), ..c }
}

/// Runs a requested automation on the platform of the host. It goes through the executor, which
/// validates and preflights before anything is done.
pub fn run_automation<A: ExecutionAdapter, S: RunEventSink, C: ExecutionClock>(
    request: RunAutomationRequest,
    config: RunConfig,
    platform: Platform,
    adapter: &mut A,
    control: &RunControl,
    sink: &mut S,
    clock: &C,
) -> (r: Result<RunReport, ExecutorError>)
    ensures
        ({
            let d = request.automation@;
            match r {
                Err(ExecutorError::Validation(reason)) => definition_problem(d) matches Some(problem)
                    && reason@ == problem_text(problem),
                Err(ExecutorError::Preflight(reason)) => definition_problem(d) is None && exists|
                    diagnostics: Seq<PreflightDiagnosticView>,
                |
                    blocked(diagnostics, reason@) && #[trigger] preflighted(
                        *old(adapter),
                        d,
                        host_config(config@, platform),
                        diagnostics,
                    ),
                Ok(report) => {
                    &&& definition_problem(d) is None
                    &&& exists|diagnostics: Seq<PreflightDiagnosticView>|
                        runnable(diagnostics) && #[trigger] preflighted(
                            *old(adapter),
                            d,
                            host_config(config@, platform),
                            diagnostics,
                        )
                    &&& named(config@.run_id, report.run_id@)
                    &&& phase_after(
                        plan(d, host_config(config@, platform), report.run_id@),
                        views(report.events@),
                    ) == Some(Phase::Done { outcome: report.outcome })
                    &&& ran(
                        plan(d, host_config(config@, platform), report.run_id@),
                        control,
                        clock,
                        *old(adapter),
                        *final(adapter),
                        report.outcome,
                        views(report.events@),
                    )
                    &&& streamed(*old(sink), *final(sink), views(report.events@))
                },
            }
        }),
        r is Err ==> *final(adapter) == *old(adapter) && *final(sink) == *old(sink),
        config@.dry_run ==> *final(adapter) == *old(adapter),
{
    let executor = AutomationExecutor::new();
    let mut hosted = config;
    hosted.platform = Some(platform);
    assert(hosted@ == host_config(config@, platform));
    executor.run_with(&request.automation, hosted, adapter, control, sink, clock)
}

} // verus!
