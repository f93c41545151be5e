//! What is made of what a desktop shows.
use vstd::prelude::*;
use crate::accessibility::AccessibilityBounds;
use crate::adapter::{focus_denied, focus_denied_error, AdapterError, AdapterErrorView};
use crate::bitmap::{match_center, VisualMatch};
use crate::definition::Platform;
use crate::run::{Artifact, ArtifactKind, ArtifactView, FailureKind, RunErrorKind};
use crate::text::{
    blank, concat, concat3, concat5, decimal, format_u128, format_u64, is_blank, owned,
    replace_char, replaced, strip_prefix, trim, trimmed, without_prefix,
};
use crate::time::{millis_long, Duration};
use crate::windows::titles::has_failure_kind;

verus! {

/// Whether a window that was looked for has the focus: one that was not found has not, and any
/// other error stays an error.
pub fn window_is_focused(found: Result<usize, AdapterError>, in_front: bool) -> (r: Result<
    bool,
    AdapterError,
>)
    ensures
        match found {
            Ok(_) => r == Ok::<bool, AdapterError>(in_front),
            Err(e) => if e@.failure_kind == Some(FailureKind::NotFound) {
                r == Ok::<bool, AdapterError>(false)
            } else {
                r == Err::<bool, AdapterError>(e)
            },
        },
{
    match found {
        Ok(_) => Ok(in_front),
        Err(e) => if has_failure_kind(&e, FailureKind::NotFound) {
            Ok(false)
        } else {
            Err(e)
        },
    }
}

/// How the words for the user call a platform.
pub open spec fn system_name(platform: Platform) -> Seq<char> {
    match platform {
        Platform::Windows => "Windows"@,
        Platform::MacOs => "macOS"@,
        Platform::Linux => "Linux"@,
    }
}

fn system_text(platform: Platform) -> (r: &'static str)
    ensures
        r@ == system_name(platform),
{
    match platform {
        Platform::Windows => "Windows",
        Platform::MacOs => "macOS",
        Platform::Linux => "Linux",
    }
}

/// How long a window is given to come to the front.
pub const FOREGROUND_MILLIS: u64 = 750;

/// Whether a window that was asked to come to the front has done so: `None` where it is to be
/// looked at again.
pub fn judge_foreground(platform: Platform, elapsed: Duration, in_front: bool, label: &str) -> (r:
    Option<Result<(), AdapterError>>)
    ensures
        match r {
            Some(Ok(_)) => elapsed.nanos < millis_long(FOREGROUND_MILLIS).nanos && in_front,
            None => elapsed.nanos < millis_long(FOREGROUND_MILLIS).nanos && !in_front,
            Some(Err(e)) => elapsed.nanos >= millis_long(FOREGROUND_MILLIS).nanos && e@
                == focus_denied(system_name(platform) + " did not foreground the "@ + label@),
        },
{
    let limit = Duration::from_millis(FOREGROUND_MILLIS);
    if elapsed.nanos >= limit.nanos {
        return Some(
            Err(
                focus_denied_error(
                    concat3(system_text(platform), " did not foreground the ", label),
                ),
            ),
        );
    }
    if in_front {
        Some(Ok(()))
    } else {
        None
    }
}

/// What comes of giving the focus to an element.
pub fn judge_focus(platform: Platform, has_focus: bool) -> (r: Result<(), AdapterError>)
    ensures
        match r {
            Ok(_) => has_focus,
            Err(e) => !has_focus && e@ == focus_denied(
                system_name(platform) + (if platform == Platform::MacOs {
                    " did not give focus to the requested semantic target"@
                } else {
                    " did not give keyboard focus to the requested semantic target"@
                }),
            ),
        },
{
    if has_focus {
        return Ok(());
    }
    let words = if platform == Platform::MacOs {
        " did not give focus to the requested semantic target"
    } else {
        " did not give keyboard focus to the requested semantic target"
    };
    Err(focus_denied_error(concat(system_text(platform), words)))
}

/// The error where an image is not seen in a window.
pub open spec fn image_not_found() -> AdapterErrorView {
    AdapterErrorView {
        message: "requested image target was not found"@,
        kind: RunErrorKind::Adapter,
        diagnostics: Some("failureKind=notFound; visualTarget=image"@),
        failure_kind: Some(FailureKind::NotFound),
    }
}

/// Where to click for an image that was looked for in a window: in its middle. `None` where no
/// `i32` can count so far.
pub fn image_click_point(window: AccessibilityBounds, found: Option<VisualMatch>) -> (r: Result<
    Option<(i32, i32)>,
    AdapterError,
>)
    requires
        found matches Some(m) ==> m.width >= 0 && m.height >= 0,
    ensures
        match (r, found) {
            (Ok(point), Some(m)) => {
                let x = window.left + m.left + m.width / 2;
                let y = window.top + m.top + m.height / 2;
                point == (if i32::MIN <= x <= i32::MAX && i32::MIN <= y <= i32::MAX {
                    Some((x as i32, y as i32))
                } else {
                    None
                })
            },
            (Err(e), None) => e@ == image_not_found(),
            _ => false,
        },
{
    match found {
        Some(m) => Ok(match_center(window.left, window.top, m)),
        None => Err(
            AdapterError::new("requested image target was not found".to_owned()).with_failure_kind(
                FailureKind::NotFound,
            ).with_source("failureKind=notFound; visualTarget=image".to_owned()),
        ),
    }
}

/// The application in front, as the system names it: no name where it names none.
pub fn frontmost_name(output: &str) -> (r: Option<String>)
    ensures
        crate::text::opt_text(r) == (if blank(output@) {
            None
        } else {
            Some(trimmed(output@))
        }),
{
    if is_blank(output) {
        None
    } else {
        Some(trim(output))
    }
}

/// The address of a file on a platform: macOS writes spaces as `%20`, and Windows leaves out the
/// marker by which it keeps long paths apart.
pub open spec fn file_address(platform: Platform, path: Seq<char>) -> Seq<char> {
    match platform {
        Platform::MacOs => "file://"@ + replaced(path, ' ', "%20"@),
        _ => "file://"@ + without_prefix(path, "\\\\?\\"@),
    }
}

pub fn file_uri(platform: Platform, path: &str) -> (r: String)
    ensures
        r@ == file_address(platform, path@),
{
    match platform {
        Platform::MacOs => {
            let shown = replace_char(path, ' ', "%20");
            concat("file://", shown.as_str())
        },
        _ => {
            let shown = strip_prefix(path, "\\\\?\\");
            concat("file://", shown.as_str())
        },
    }
}

/// The artifact of a screenshot of a window, or of the whole desktop.
pub open spec fn screenshot_view(platform: Platform, window: bool, path: Seq<char>) -> ArtifactView {
    ArtifactView {
        kind: ArtifactKind::Screenshot,
        uri: file_address(platform, path),
        label: Some(
            if window {
                "Window screenshot"@
            } else {
                "Desktop screenshot"@
            },
        ),
    }
}

pub fn screenshot_artifact(platform: Platform, window: bool, path: &str) -> (r: Artifact)
    ensures
        r@ == screenshot_view(platform, window, path@),
{
    let label = if window {
        "Window screenshot"
    } else {
        "Desktop screenshot"
    };
    Artifact {
        kind: ArtifactKind::Screenshot,
        uri: file_uri(platform, path),
        label: Some(owned(label)),
    }
}

/// The name of a file that is needed for a moment only.
pub fn temp_file_name(prefix: &str, process: u32, nanos: u128, extension: &str) -> (r: String)
    ensures
        r@ == prefix@ + "-"@ + decimal(process as nat) + "-"@ + decimal(nanos as nat) + "."@
            + extension@,
{
    let process = format_u64(process as u64);
    let nanos = format_u128(nanos);
    let mut name = concat5(prefix, "-", process.as_str(), "-", nanos.as_str());
    name.append(".");
    name.append(extension);
    name
}

} // verus!
