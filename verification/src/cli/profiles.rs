//! What a run is allowed: named sets of approvals, and approvals given one by one.
use vstd::prelude::*;
use crate::definition::Platform;
use crate::run::{default_config, RunConfig, RunConfigView};
use crate::text::same_text;

verus! {

/// A named set of approvals.
#[derive(Debug, Clone, Copy, PartialEq, Eq, Structural)]
pub enum AutomationPolicyProfile {
    /// Nothing but what the definition may do anyway.
    Strict,
    /// Evidence is captured around each step.
    Evidence,
    /// Besides, screenshots may be taken and images looked for.
    VisualFallback,
    /// Everything is allowed.
    UnsafeLab,
}

/// What may be approved.
#[derive(Debug, Clone, Copy, PartialEq, Eq, Structural)]
pub struct Approvals {
    pub allow_coordinate_targets: bool,
    pub allow_path_only_selectors: bool,
    pub allow_value_capture: bool,
    pub capture_step_evidence: bool,
    pub allow_screenshot_capture: bool,
    pub allow_image_targets: bool,
}

/// Nothing is approved.
pub open spec fn nothing_approved() -> Approvals {
    Approvals {
        allow_coordinate_targets: false,
        allow_path_only_selectors: false,
        allow_value_capture: false,
        capture_step_evidence: false,
        allow_screenshot_capture: false,
        allow_image_targets: false,
    }
}

impl Default for Approvals {
    fn default() -> (r: Self)
        ensures
            r == nothing_approved(),
    {
        Approvals {
            allow_coordinate_targets: false,
            allow_path_only_selectors: false,
            allow_value_capture: false,
            capture_step_evidence: false,
            allow_screenshot_capture: false,
            allow_image_targets: false,
        }
    }
}

/// What a profile approves.
pub open spec fn approved_by(profile: AutomationPolicyProfile) -> Approvals {
    match profile {
        AutomationPolicyProfile::Strict => nothing_approved(),
        AutomationPolicyProfile::Evidence => Approvals {
            capture_step_evidence: true,
            ..nothing_approved()
        },
        AutomationPolicyProfile::VisualFallback => Approvals {
            capture_step_evidence: true,
            allow_screenshot_capture: true,
            allow_image_targets: true,
            ..nothing_approved()
        },
        AutomationPolicyProfile::UnsafeLab => Approvals {
            allow_coordinate_targets: true,
            allow_path_only_selectors: true,
            allow_value_capture: true,
            capture_step_evidence: true,
            allow_screenshot_capture: true,
            allow_image_targets: true,
        },
    }
}

/// The configuration with more approvals.
pub open spec fn approve(c: RunConfigView, more: Approvals) -> RunConfigView {
    RunConfigView {
        allow_coordinate_targets: c.allow_coordinate_targets || more.allow_coordinate_targets,
        allow_path_only_selectors: c.allow_path_only_selectors || more.allow_path_only_selectors,
        allow_value_capture: c.allow_value_capture || more.allow_value_capture,
        capture_step_evidence: c.capture_step_evidence || more.capture_step_evidence,
        allow_screenshot_capture: c.allow_screenshot_capture || more.allow_screenshot_capture,
        allow_image_targets: c.allow_image_targets || more.allow_image_targets,
        ..c
    }
}

/// What a configuration approves.
pub open spec fn approvals_of(c: RunConfigView) -> Approvals {
    Approvals {
        allow_coordinate_targets: c.allow_coordinate_targets,
        allow_path_only_selectors: c.allow_path_only_selectors,
        allow_value_capture: c.allow_value_capture,
        capture_step_evidence: c.capture_step_evidence,
        allow_screenshot_capture: c.allow_screenshot_capture,
        allow_image_targets: c.allow_image_targets,
    }
}

/// Whether what is approved by `fewer` is approved by `more`.
pub open spec fn within(fewer: Approvals, more: Approvals) -> bool {
    &&& fewer.allow_coordinate_targets ==> more.allow_coordinate_targets
    &&& fewer.allow_path_only_selectors ==> more.allow_path_only_selectors
    &&& fewer.allow_value_capture ==> more.allow_value_capture
    &&& fewer.capture_step_evidence ==> more.capture_step_evidence
    &&& fewer.allow_screenshot_capture ==> more.allow_screenshot_capture
    &&& fewer.allow_image_targets ==> more.allow_image_targets
}

/// The profile that goes by a name.
pub open spec fn profile_named(name: Seq<char>) -> Option<AutomationPolicyProfile> {
    if name == "strict"@ {
        Some(AutomationPolicyProfile::Strict)
    } else if name == "evidence"@ {
        Some(AutomationPolicyProfile::Evidence)
    } else if name == "visual-fallback"@ || name == "visualFallback"@ {
        Some(AutomationPolicyProfile::VisualFallback)
    } else if name == "unsafe-lab"@ || name == "unsafeLab"@ {
        Some(AutomationPolicyProfile::UnsafeLab)
    } else {
        None
    }
}

impl AutomationPolicyProfile {
    /// The profile that goes by a name.
    pub fn from_cli(value: &str) -> (r: Option<Self>)
        ensures
            r == profile_named(value@),
    {
        if same_text(value, "strict") {
            Some(AutomationPolicyProfile::Strict)
        } else if same_text(value, "evidence") {
            Some(AutomationPolicyProfile::Evidence)
        } else if same_text(value, "visual-fallback") || same_text(value, "visualFallback") {
            Some(AutomationPolicyProfile::VisualFallback)
        } else if same_text(value, "unsafe-lab") || same_text(value, "unsafeLab") {
            Some(AutomationPolicyProfile::UnsafeLab)
        } else {
            None
        }
    }

    /// Approves what the profile approves; nothing is taken back.
    pub fn apply_to(self, config: &mut RunConfig)
        ensures
            final(config)@ == approve(old(config)@, approved_by(self)),
    {
        match self {
            AutomationPolicyProfile::Strict => {},
            AutomationPolicyProfile::Evidence => {
                config.capture_step_evidence = true;
            },
            AutomationPolicyProfile::VisualFallback => {
                config.capture_step_evidence = true;
                config.allow_screenshot_capture = true;
                config.allow_image_targets = true;
            },
            AutomationPolicyProfile::UnsafeLab => {
                config.allow_coordinate_targets = true;
                config.allow_path_only_selectors = true;
                config.allow_value_capture = true;
                config.capture_step_evidence = true;
                config.allow_screenshot_capture = true;
                config.allow_image_targets = true;
            },
        }
    }
}

impl Approvals {
    /// Approves what is approved here; nothing is taken back.
    pub fn apply_to(self, config: &mut RunConfig)
        ensures
            final(config)@ == approve(old(config)@, self),
    {
        config.allow_coordinate_targets =
        config.allow_coordinate_targets || self.allow_coordinate_targets;
        config.allow_path_only_selectors =
        config.allow_path_only_selectors || self.allow_path_only_selectors;
        config.allow_value_capture = config.allow_value_capture || self.allow_value_capture;
        config.capture_step_evidence = config.capture_step_evidence || self.capture_step_evidence;
        config.allow_screenshot_capture =
        config.allow_screenshot_capture || self.allow_screenshot_capture;
        config.allow_image_targets = config.allow_image_targets || self.allow_image_targets;
    }
}

/// How a run is configured that was asked for with a profile, approvals and a place for evidence.
pub open spec fn configured(
    dry_run: bool,
    platform: Platform,
    profile: Option<AutomationPolicyProfile>,
    approvals: Approvals,
    max_bytes: Option<u64>,
    evidence_directory: Option<Seq<char>>,
) -> RunConfigView {
    let base = RunConfigView {
        dry_run,
        platform: Some(platform),
        evidence_max_artifact_bytes: max_bytes,
        evidence_directory,
        ..default_config()
    };
    let with_profile = match profile {
        Some(p) => approve(base, approved_by(p)),
        None => base,
    };
    approve(with_profile, approvals)
}

/// Configures a run.
pub fn configure(
    dry_run: bool,
    platform: Platform,
    profile: Option<AutomationPolicyProfile>,
    approvals: Approvals,
    max_bytes: Option<u64>,
    evidence_directory: Option<String>,
) -> (r: RunConfig)
    ensures
        r@ == configured(
            dry_run,
            platform,
            profile,
            approvals,
            max_bytes,
            crate::text::opt_text(evidence_directory),
        ),
{
    let mut config = RunConfig::default();
    config.dry_run = dry_run;
    config.platform = Some(platform);
    config.evidence_max_artifact_bytes = max_bytes;
    config.evidence_directory = evidence_directory;
    match profile {
        Some(p) => p.apply_to(&mut config),
        None => {},
    }
    approvals.apply_to(&mut config);
    config
}

/// Profiles only add approvals, each later one to those of the one before it, and change nothing
/// else.
pub proof fn profiles_only_add(c: RunConfigView, profile: AutomationPolicyProfile)
    ensures
        within(approvals_of(c), approvals_of(approve(c, approved_by(profile)))),
        within(approved_by(profile), approvals_of(approve(c, approved_by(profile)))),
        approve(c, approved_by(AutomationPolicyProfile::Strict)) == c,
        within(
            approved_by(AutomationPolicyProfile::Evidence),
            approved_by(AutomationPolicyProfile::VisualFallback),
        ),
        within(
            approved_by(AutomationPolicyProfile::VisualFallback),
            approved_by(AutomationPolicyProfile::UnsafeLab),
        ),
        ({
            let after = approve(c, approved_by(profile));
            &&& after.dry_run == c.dry_run
            &&& after.run_id == c.run_id
            &&& after.variables == c.variables
            &&& after.working_directory == c.working_directory
            &&& after.environment == c.environment
            &&& after.approved_commands == c.approved_commands
            &&& after.platform == c.platform
            &&& after.evidence_directory == c.evidence_directory
            &&& after.evidence_max_artifact_bytes == c.evidence_max_artifact_bytes
        }),
{
}

/// A run that was asked for without a profile and without approvals is allowed nothing, and no
/// profile approves a command.
pub proof fn nothing_is_allowed_unasked(
    dry_run: bool,
    platform: Platform,
    profile: Option<AutomationPolicyProfile>,
    max_bytes: Option<u64>,
    evidence_directory: Option<Seq<char>>,
)
    ensures
        approvals_of(
            configured(dry_run, platform, None, nothing_approved(), max_bytes, evidence_directory),
        ) == nothing_approved(),
        configured(
            dry_run,
            platform,
            profile,
            nothing_approved(),
            max_bytes,
            evidence_directory,
        ).approved_commands == Set::<Seq<char>>::empty(),
{
}

} // verus!
