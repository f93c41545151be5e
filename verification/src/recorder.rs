//! Recording: an optional way to author definitions.
use vstd::prelude::*;
use crate::definition::AutomationDefinition;

verus! {

/// What a recording captures.
#[derive(Debug, Clone, Copy, PartialEq, Eq, Structural)]
pub struct RecorderConfig {
    pub capture_screenshots: bool,
    pub consolidate_events: bool,
}

impl Default for RecorderConfig {
    fn default() -> (r: Self)
        ensures
            r == (RecorderConfig { capture_screenshots: false, consolidate_events: true }),
    {
        RecorderConfig { capture_screenshots: false, consolidate_events: true }
    }
}

/// Something that happened while recording.
#[derive(Debug, PartialEq, Eq)]
pub enum RecorderEvent {
    Started,
    InputCaptured { description: String },
    ScreenshotCaptured { uri: String },
    Stopped,
}

/// Why a recording could not be made.
#[derive(Debug, PartialEq, Eq)]
pub enum RecorderError {
    Unsupported(&'static str),
}

impl RecorderError {
    /// The words for the user.
    pub fn message(&self) -> (r: &'static str)
        ensures
            self matches RecorderError::Unsupported(reason) && r@ == reason@,
    {
        match self {
            RecorderError::Unsupported(reason) => reason,
        }
    }
}

/// Captures what a user does and turns it into a definition.
pub trait AutomationRecorder {
    fn start(&mut self, config: RecorderConfig) -> (r: Result<(), RecorderError>);

    fn stop(&mut self) -> (r: Result<AutomationDefinition, RecorderError>);
}

/// A recorder for hosts that do not record.
#[derive(Debug)]
pub struct UnsupportedRecorder;

impl Default for UnsupportedRecorder {
    fn default() -> (r: Self) {
        UnsupportedRecorder
    }
}

pub open spec fn recording_unsupported() -> Seq<char> {
    "recording capture is intentionally not implemented in the foundation crate"@
}

impl AutomationRecorder for UnsupportedRecorder {
    fn start(&mut self, config: RecorderConfig) -> (r: Result<(), RecorderError>)
        ensures
            r matches Err(RecorderError::Unsupported(reason)) && reason@ == recording_unsupported(),
    {
        Err(
            RecorderError::Unsupported(
                "recording capture is intentionally not implemented in the foundation crate",
            ),
        )
    }

    fn stop(&mut self) -> (r: Result<AutomationDefinition, RecorderError>)
        ensures
            r matches Err(RecorderError::Unsupported(reason)) && reason@ == recording_unsupported(),
    {
        Err(
            RecorderError::Unsupported(
                "recording capture is intentionally not implemented in the foundation crate",
            ),
        )
    }
}

} // verus!
