//! The adapter for platforms on which nothing is executed yet.
use vstd::prelude::*;
use crate::accessibility::{AccessibilityTree, AdapterCapabilities};
use crate::adapter::{
    plain_error, AdapterError, AdapterErrorView, ExecutionAdapter, NoopDesktopAdapter,
};
use crate::definition::{Action, Platform, Target};
use crate::platform::kind_of;
use crate::run::{Artifact, RunConfig, RunErrorKind};
use crate::text::{concat3, same_text};

verus! {

/// The platform that goes by an operating system's name; any other counts as Linux.
pub fn current_platform(os: &str) -> (r: Platform)
    ensures
        r == (if os@ == "windows"@ {
            Platform::Windows
        } else if os@ == "macos"@ {
            Platform::MacOs
        } else {
            Platform::Linux
        }),
{
    if same_text(os, "windows") {
        Platform::Windows
    } else if same_text(os, "macos") {
        Platform::MacOs
    } else {
        Platform::Linux
    }
}

/// An adapter that goes through the motions of a dry run and refuses anything else.
#[derive(Debug)]
pub struct CurrentPlatformAdapter {
    noop: NoopDesktopAdapter,
}

impl Default for CurrentPlatformAdapter {
    fn default() -> (r: Self) {
        CurrentPlatformAdapter { noop: NoopDesktopAdapter }
    }
}

/// The error for what is not there on this platform.
pub open spec fn missing(message: Seq<char>) -> AdapterErrorView {
    plain_error(RunErrorKind::Unsupported, message)
}

impl CurrentPlatformAdapter {
    pub fn new() -> (r: Self) {
        CurrentPlatformAdapter { noop: NoopDesktopAdapter }
    }

    /// The adapter can do nothing.
    pub fn capabilities(platform: Platform) -> (r: AdapterCapabilities)
        ensures
            r == (AdapterCapabilities {
                platform,
                supports_launch: false,
                supports_focus: false,
                supports_input: false,
                supports_semantic_targets: false,
                supports_coordinate_targets: false,
                supports_window_queries: false,
                supports_process_queries: false,
                supports_accessibility_tree: false,
            }),
    {
        AdapterCapabilities {
            platform,
            supports_launch: false,
            supports_focus: false,
            supports_input: false,
            supports_semantic_targets: false,
            supports_coordinate_targets: false,
            supports_window_queries: false,
            supports_process_queries: false,
            supports_accessibility_tree: false,
        }
    }

    pub fn inspect_window(&self, target: &Target, max_depth: u32, max_nodes: usize) -> (r: Result<
        AccessibilityTree,
        AdapterError,
    >)
        ensures
            r matches Err(e) && e@ == missing(
                "accessibility tree inspection is not implemented on this platform"@,
            ),
    {
        self.inspect_window_with_options(target, max_depth, max_nodes, false)
    }

    pub fn inspect_window_with_options(
        &self,
        target: &Target,
        max_depth: u32,
        max_nodes: usize,
        include_values: bool,
    ) -> (r: Result<AccessibilityTree, AdapterError>)
        ensures
            r matches Err(e) && e@ == missing(
                "accessibility tree inspection is not implemented on this platform"@,
            ),
    {
        Err(
            AdapterError::unsupported(
                "accessibility tree inspection is not implemented on this platform".to_owned(),
            ),
        )
    }

    pub fn capture_screenshot(&self, path: &str) -> (r: Result<Artifact, AdapterError>)
        ensures
            r matches Err(e) && e@ == missing(
                "screenshot capture is not implemented on this platform"@,
            ),
    {
        Err(
            AdapterError::unsupported(
                "screenshot capture is not implemented on this platform".to_owned(),
            ),
        )
    }
}

impl ExecutionAdapter for CurrentPlatformAdapter {
    fn execute(&mut self, action: &Action, config: &RunConfig) -> (r: Result<
        Vec<Artifact>,
        AdapterError,
    >)
        ensures
            match r {
                Ok(artifacts) => config@.dry_run && artifacts@.len() == 0,
                Err(e) => !config@.dry_run && e@ == missing(
                    "real execution is not implemented for "@ + kind_of(action@)
                        + " on this platform"@,
                ),
            },
    {
        if config.dry_run {
            return self.noop.execute(action, config);
        }
        Err(
            AdapterError::unsupported(
                concat3(
                    "real execution is not implemented for ",
                    action.kind(),
                    " on this platform",
                ),
            ),
        )
    }
}

} // verus!
