//! The arguments of the command line.
use vstd::prelude::*;
use crate::cli::numbers::{
    number_of, parse_number, parse_path_indexes, parse_u32, parse_usize, path_of,
};
use crate::cli::profiles::{nothing_approved, profile_named, Approvals, AutomationPolicyProfile};
use crate::definition::{
    AccessibilityTarget, AccessibilityTargetView, PlatformSelectors, Target, TargetView,
};
use crate::platform::empty_target;
use crate::text::{opt_text, same_text, texts};
use crate::views::opt_view;

verus! {

/// The target of a window.
pub open spec fn window_target(
    window_title: Option<Seq<char>>,
    title_contains: Option<Seq<char>>,
) -> TargetView {
    TargetView { window_title, title_contains, ..empty_target() }
}

fn target_of_window(window_title: Option<String>, title_contains: Option<String>) -> (r: Target)
    ensures
        r@ == window_target(opt_text(window_title), opt_text(title_contains)),
{
    Target {
        app_name: None,
        process_name: None,
        window_title,
        title_contains,
        url: None,
        file_path: None,
        accessibility: None,
        image: None,
        coordinates: None,
        platform_selectors: PlatformSelectors::new(),
    }
}

fn is_flag(args: &Vec<String>, at: usize, flag: &str) -> (r: bool)
    requires
        at < args@.len(),
    ensures
        r == (texts(args@)[at as int] == flag@),
{
    same_text(args[at].as_str(), flag)
}

/// Moving on by one argument, or by a flag and its value.
proof fn moved_on(args: Seq<Seq<char>>, at: int)
    requires
        0 <= at < args.len(),
    ensures
        args.skip(at).len() == args.len() - at,
        args.skip(at)[0] == args[at],
        args.skip(at).skip(1) == args.skip(at + 1),
        at + 1 < args.len() ==> args.skip(at)[1] == args[at + 1] && args.skip(at).skip(2)
            == args.skip(at + 2),
{
    assert(args.skip(at).skip(1) =~= args.skip(at + 1));
    if at + 1 < args.len() {
        assert(args.skip(at).skip(2) =~= args.skip(at + 2));
    }
}

/// What a screenshot was asked for with, as far as it was read.
#[derive(Debug)]
pub struct ScreenshotFlags {
    pub output: Option<String>,
    pub window_title: Option<String>,
    pub title_contains: Option<String>,
    pub allow_desktop: bool,
}

pub struct ScreenshotFlagsView {
    pub output: Option<Seq<char>>,
    pub window_title: Option<Seq<char>>,
    pub title_contains: Option<Seq<char>>,
    pub allow_desktop: bool,
}

impl View for ScreenshotFlags {
    type V = ScreenshotFlagsView;

    open spec fn view(&self) -> ScreenshotFlagsView {
        ScreenshotFlagsView {
            output: opt_text(self.output),
            window_title: opt_text(self.window_title),
            title_contains: opt_text(self.title_contains),
            allow_desktop: self.allow_desktop,
        }
    }
}

/// Reads the arguments of a screenshot from left to right. Where a flag is given twice, the later
/// one counts; a flag without its value, or an argument that is no flag, spoils the whole.
pub open spec fn screenshot_flags(args: Seq<Seq<char>>, o: ScreenshotFlagsView) -> Option<
    ScreenshotFlagsView,
>
    decreases args.len(),
{
    if args.len() == 0 {
        Some(o)
    } else if args[0] == "--allow-desktop-screenshot"@ {
        screenshot_flags(args.skip(1), ScreenshotFlagsView { allow_desktop: true, ..o })
    } else if args.len() == 1 {
        None
    } else if args[0] == "--output"@ {
        screenshot_flags(args.skip(2), ScreenshotFlagsView { output: Some(args[1]), ..o })
    } else if args[0] == "--window-title"@ {
        screenshot_flags(args.skip(2), ScreenshotFlagsView { window_title: Some(args[1]), ..o })
    } else if args[0] == "--title-contains"@ {
        screenshot_flags(args.skip(2), ScreenshotFlagsView { title_contains: Some(args[1]), ..o })
    } else {
        None
    }
}

pub open spec fn no_screenshot_flags() -> ScreenshotFlagsView {
    ScreenshotFlagsView {
        output: None,
        window_title: None,
        title_contains: None,
        allow_desktop: false,
    }
}

fn read_screenshot_flags(args: &Vec<String>) -> (r: Option<ScreenshotFlags>)
    ensures
        opt_view(r) == screenshot_flags(texts(args@), no_screenshot_flags()),
{
    let ghost all = texts(args@);
    let mut o = ScreenshotFlags {
        output: None,
        window_title: None,
        title_contains: None,
        allow_desktop: false,
    };
    let mut i: usize = 0;
    assert(all.skip(0) =~= all);
    while i < args.len()
        invariant
            i <= args@.len(),
            all == texts(args@),
            screenshot_flags(all, no_screenshot_flags()) == screenshot_flags(
                all.skip(i as int),
                o@,
            ),
        decreases args@.len() - i,
    {
        proof {
            moved_on(all, i as int);
        }
        if is_flag(args, i, "--allow-desktop-screenshot") {
            o.allow_desktop = true;
            i = i + 1;
            continue ;
        }
        if args.len() - i < 2 {
            return None;
        }
        if is_flag(args, i, "--output") {
            o.output = Some(args[i + 1].clone());
        } else if is_flag(args, i, "--window-title") {
            o.window_title = Some(args[i + 1].clone());
        } else if is_flag(args, i, "--title-contains") {
            o.title_contains = Some(args[i + 1].clone());
        } else {
            return None;
        }
        i = i + 2;
    }
    Some(o)
}

/// Which screenshot to take.
#[derive(Debug)]
pub struct ScreenshotCliOptions {
    pub output: String,
    pub target: Option<Target>,
    pub allow_desktop: bool,
}

pub struct ScreenshotCliOptionsView {
    pub output: Seq<char>,
    pub target: Option<TargetView>,
    pub allow_desktop: bool,
}

impl View for ScreenshotCliOptions {
    type V = ScreenshotCliOptionsView;

    open spec fn view(&self) -> ScreenshotCliOptionsView {
        ScreenshotCliOptionsView {
            output: self.output@,
            target: opt_view(self.target),
            allow_desktop: self.allow_desktop,
        }
    }
}

/// A screenshot needs an output, and names its window in one way at most.
pub open spec fn screenshot_options(args: Seq<Seq<char>>) -> Option<ScreenshotCliOptionsView> {
    match screenshot_flags(args, no_screenshot_flags()) {
        Some(o) => if o.output is Some && !(o.window_title is Some && o.title_contains is Some) {
            Some(
                ScreenshotCliOptionsView {
                    output: o.output->0,
                    target: if o.window_title is Some || o.title_contains is Some {
                        Some(window_target(o.window_title, o.title_contains))
                    } else {
                        None
                    },
                    allow_desktop: o.allow_desktop,
                },
            )
        } else {
            None
        },
        None => None,
    }
}

pub fn parse_screenshot_args(args: &Vec<String>) -> (r: Option<ScreenshotCliOptions>)
    ensures
        opt_view(r) == screenshot_options(texts(args@)),
{
    match read_screenshot_flags(args) {
        None => None,
        Some(o) => {
            if o.window_title.is_some() && o.title_contains.is_some() {
                return None;
            }
            let target = if o.window_title.is_some() || o.title_contains.is_some() {
                Some(target_of_window(o.window_title, o.title_contains))
            } else {
                None
            };
            match o.output {
                Some(output) => Some(
                    ScreenshotCliOptions { output, target, allow_desktop: o.allow_desktop },
                ),
                None => None,
            }
        },
    }
}

/// What a screenshot shows.
#[derive(Debug)]
pub enum ScreenshotPlan {
    Window(Target),
    Desktop,
}

pub enum ScreenshotPlanView {
    Window(TargetView),
    Desktop,
}

impl View for ScreenshotPlan {
    type V = ScreenshotPlanView;

    open spec fn view(&self) -> ScreenshotPlanView {
        match *self {
            ScreenshotPlan::Window(target) => ScreenshotPlanView::Window(target@),
            ScreenshotPlan::Desktop => ScreenshotPlanView::Desktop,
        }
    }
}

/// What a screenshot shows: the window that was asked for; without one the whole desktop, which
/// takes an approval of its own.
pub fn plan_screenshot(options: &ScreenshotCliOptions) -> (r: Result<
    ScreenshotPlan,
    &'static str,
>)
    ensures
        match r {
            Ok(plan) => plan@ == (match options@.target {
                Some(target) => ScreenshotPlanView::Window(target),
                None => ScreenshotPlanView::Desktop,
            }) && (options@.target is Some || options.allow_desktop),
            Err(reason) => options@.target is None && !options.allow_desktop && reason@
                == "desktop screenshot capture requires --allow-desktop-screenshot or a window selector"@,
        },
{
    match &options.target {
        Some(target) => Ok(ScreenshotPlan::Window(target.clone())),
        None => if options.allow_desktop {
            Ok(ScreenshotPlan::Desktop)
        } else {
            Err(
                "desktop screenshot capture requires --allow-desktop-screenshot or a window selector",
            )
        },
    }
}

/// What was asked for with a definition.
#[derive(Debug)]
pub struct AutomationCliOptions {
    pub path: String,
    pub evidence_dir: Option<String>,
    pub policy_profile: Option<AutomationPolicyProfile>,
    pub approvals: Approvals,
    pub evidence_max_artifact_bytes: Option<u64>,
    pub prune_evidence_before_run: bool,
}

pub struct AutomationCliOptionsView {
    pub path: Seq<char>,
    pub evidence_dir: Option<Seq<char>>,
    pub policy_profile: Option<AutomationPolicyProfile>,
    pub approvals: Approvals,
    pub evidence_max_artifact_bytes: Option<u64>,
    pub prune_evidence_before_run: bool,
}

impl View for AutomationCliOptions {
    type V = AutomationCliOptionsView;

    open spec fn view(&self) -> AutomationCliOptionsView {
        AutomationCliOptionsView {
            path: self.path@,
            evidence_dir: opt_text(self.evidence_dir),
            policy_profile: self.policy_profile,
            approvals: self.approvals,
            evidence_max_artifact_bytes: self.evidence_max_artifact_bytes,
            prune_evidence_before_run: self.prune_evidence_before_run,
        }
    }
}

/// The arguments of a definition, as far as they were read.
pub struct AutomationFlagsView {
    pub path: Option<Seq<char>>,
    pub evidence_dir: Option<Seq<char>>,
    pub policy_profile: Option<AutomationPolicyProfile>,
    pub approvals: Approvals,
    pub evidence_max_artifact_bytes: Option<u64>,
    pub prune_evidence_before_run: bool,
}

#[derive(Debug)]
pub struct AutomationFlags {
    pub path: Option<String>,
    pub evidence_dir: Option<String>,
    pub policy_profile: Option<AutomationPolicyProfile>,
    pub approvals: Approvals,
    pub evidence_max_artifact_bytes: Option<u64>,
    pub prune_evidence_before_run: bool,
}

impl View for AutomationFlags {
    type V = AutomationFlagsView;

    open spec fn view(&self) -> AutomationFlagsView {
        AutomationFlagsView {
            path: opt_text(self.path),
            evidence_dir: opt_text(self.evidence_dir),
            policy_profile: self.policy_profile,
            approvals: self.approvals,
            evidence_max_artifact_bytes: self.evidence_max_artifact_bytes,
            prune_evidence_before_run: self.prune_evidence_before_run,
        }
    }
}

pub open spec fn no_automation_flags() -> AutomationFlagsView {
    AutomationFlagsView {
        path: None,
        evidence_dir: None,
        policy_profile: None,
        approvals: nothing_approved(),
        evidence_max_artifact_bytes: None,
        prune_evidence_before_run: false,
    }
}

/// Whether a command does, or pretends to do, what the definition says.
pub open spec fn is_run(command: Seq<char>) -> bool {
    command == "run"@ || command == "dry-run"@
}

/// The approval that a flag gives.
pub open spec fn approval_flag(flag: Seq<char>, a: Approvals) -> Option<Approvals> {
    if flag == "--allow-coordinate-targets"@ {
        Some(Approvals { allow_coordinate_targets: true, ..a })
    } else if flag == "--allow-path-only-selectors"@ {
        Some(Approvals { allow_path_only_selectors: true, ..a })
    } else if flag == "--allow-value-capture"@ {
        Some(Approvals { allow_value_capture: true, ..a })
    } else if flag == "--capture-step-evidence"@ {
        Some(Approvals { capture_step_evidence: true, ..a })
    } else if flag == "--allow-screenshot-capture"@ {
        Some(Approvals { allow_screenshot_capture: true, ..a })
    } else if flag == "--allow-image-targets"@ {
        Some(Approvals { allow_image_targets: true, ..a })
    } else {
        None
    }
}

fn give_approval(flag: &str, a: Approvals) -> (r: Option<Approvals>)
    ensures
        r == approval_flag(flag@, a),
{
    if same_text(flag, "--allow-coordinate-targets") {
        Some(Approvals { allow_coordinate_targets: true, ..a })
    } else if same_text(flag, "--allow-path-only-selectors") {
        Some(Approvals { allow_path_only_selectors: true, ..a })
    } else if same_text(flag, "--allow-value-capture") {
        Some(Approvals { allow_value_capture: true, ..a })
    } else if same_text(flag, "--capture-step-evidence") {
        Some(Approvals { capture_step_evidence: true, ..a })
    } else if same_text(flag, "--allow-screenshot-capture") {
        Some(Approvals { allow_screenshot_capture: true, ..a })
    } else if same_text(flag, "--allow-image-targets") {
        Some(Approvals { allow_image_targets: true, ..a })
    } else {
        None
    }
}

/// A flag that a command knows, and that takes a value.
pub open spec fn takes_value(command: Seq<char>, flag: Seq<char>) -> bool {
    ||| flag == "--evidence-dir"@ && is_run(command)
    ||| flag == "--policy-profile"@ && (is_run(command) || command == "preflight"@)
    ||| flag == "--evidence-max-artifact-bytes"@ && is_run(command)
}

/// The value of a flag, where it is one that the flag can have.
pub open spec fn with_value(
    flag: Seq<char>,
    value: Seq<char>,
    o: AutomationFlagsView,
) -> Option<AutomationFlagsView> {
    if flag == "--evidence-dir"@ {
        Some(AutomationFlagsView { evidence_dir: Some(value), ..o })
    } else if flag == "--policy-profile"@ {
        match profile_named(value) {
            Some(profile) => Some(AutomationFlagsView { policy_profile: Some(profile), ..o }),
            None => None,
        }
    } else {
        match number_of(value, u64::MAX as nat) {
            Some(n) => Some(
                AutomationFlagsView { evidence_max_artifact_bytes: Some(n as u64), ..o },
            ),
            None => None,
        }
    }
}

/// Reads the arguments of a definition from left to right. The first argument that is no flag of
/// the command is the path of the definition; another one spoils the whole, and so does a flag
/// without a value that it can have.
pub open spec fn automation_flags(
    command: Seq<char>,
    args: Seq<Seq<char>>,
    o: AutomationFlagsView,
) -> Option<AutomationFlagsView>
    decreases args.len(),
{
    if args.len() == 0 {
        Some(o)
    } else if takes_value(command, args[0]) {
        if args.len() == 1 {
            None
        } else {
            match with_value(args[0], args[1], o) {
                Some(more) => automation_flags(command, args.skip(2), more),
                None => None,
            }
        }
    } else if args[0] == "--prune-evidence-before-run"@ && command == "run"@ {
        automation_flags(
            command,
            args.skip(1),
            AutomationFlagsView { prune_evidence_before_run: true, ..o },
        )
    } else {
        match approval_flag(args[0], o.approvals) {
            Some(approvals) => automation_flags(
                command,
                args.skip(1),
                AutomationFlagsView { approvals, ..o },
            ),
            None => if o.path is None {
                automation_flags(
                    command,
                    args.skip(1),
                    AutomationFlagsView { path: Some(args[0]), ..o },
                )
            } else {
                None
            },
        }
    }
}

/// What was asked for with a definition.
pub open spec fn automation_options(command: Seq<char>, args: Seq<Seq<char>>) -> Option<
    AutomationCliOptionsView,
> {
    match automation_flags(command, args, no_automation_flags()) {
        Some(o) => match o.path {
            Some(path) => Some(
                AutomationCliOptionsView {
                    path,
                    evidence_dir: o.evidence_dir,
                    policy_profile: o.policy_profile,
                    approvals: o.approvals,
                    evidence_max_artifact_bytes: o.evidence_max_artifact_bytes,
                    prune_evidence_before_run: o.prune_evidence_before_run,
                },
            ),
            None => None,
        },
        None => None,
    }
}

fn runs(command: &str) -> (r: bool)
    ensures
        r == is_run(command@),
{
    same_text(command, "run") || same_text(command, "dry-run")
}

fn wants_value(command: &str, flag: &str) -> (r: bool)
    ensures
        r == takes_value(command@, flag@),
{
    (same_text(flag, "--evidence-dir") && runs(command)) || (same_text(flag, "--policy-profile") && (
    runs(command) || same_text(command, "preflight"))) || (same_text(
        flag,
        "--evidence-max-artifact-bytes",
    ) && runs(command))
}

fn take_value(flag: &str, value: &str, o: &mut AutomationFlags) -> (r: bool)
    ensures
        match with_value(flag@, value@, old(o)@) {
            Some(more) => r && final(o)@ == more,
            None => !r,
        },
{
    if same_text(flag, "--evidence-dir") {
        o.evidence_dir = Some(value.to_owned());
        true
    } else if same_text(flag, "--policy-profile") {
        match AutomationPolicyProfile::from_cli(value) {
            Some(profile) => {
                o.policy_profile = Some(profile);
                true
            },
            None => false,
        }
    } else {
        match parse_number(value, u64::MAX) {
            Some(n) => {
                o.evidence_max_artifact_bytes = Some(n);
                true
            },
            None => false,
        }
    }
}

fn read_automation_flags(command: &str, args: &Vec<String>) -> (r: Option<AutomationFlags>)
    ensures
        opt_view(r) == automation_flags(command@, texts(args@), no_automation_flags()),
{
    let ghost all = texts(args@);
    let mut o = AutomationFlags {
        path: None,
        evidence_dir: None,
        policy_profile: None,
        approvals: Approvals::default(),
        evidence_max_artifact_bytes: None,
        prune_evidence_before_run: false,
    };
    let mut i: usize = 0;
    assert(all.skip(0) =~= all);
    while i < args.len()
        invariant
            i <= args@.len(),
            all == texts(args@),
            automation_flags(command@, all, no_automation_flags()) == automation_flags(
                command@,
                all.skip(i as int),
                o@,
            ),
        decreases args@.len() - i,
    {
        proof {
            moved_on(all, i as int);
        }
        let flag = args[i].as_str();
        if wants_value(command, flag) {
            if args.len() - i < 2 {
                return None;
            }
            if !take_value(flag, args[i + 1].as_str(), &mut o) {
                return None;
            }
            i = i + 2;
        } else if same_text(flag, "--prune-evidence-before-run") && same_text(command, "run") {
            o.prune_evidence_before_run = true;
            i = i + 1;
        } else {
            match give_approval(flag, o.approvals) {
                Some(approvals) => {
                    o.approvals = approvals;
                },
                None => {
                    if o.path.is_some() {
                        return None;
                    }
                    o.path = Some(flag.to_owned());
                },
            }
            i = i + 1;
        }
    }
    Some(o)
}

pub fn parse_automation_args(command: &str, args: &Vec<String>) -> (r: Option<AutomationCliOptions>)
    ensures
        opt_view(r) == automation_options(command@, texts(args@)),
{
    match read_automation_flags(command, args) {
        None => None,
        Some(o) => match o.path {
            None => None,
            Some(path) => Some(
                AutomationCliOptions {
                    path,
                    evidence_dir: o.evidence_dir,
                    policy_profile: o.policy_profile,
                    approvals: o.approvals,
                    evidence_max_artifact_bytes: o.evidence_max_artifact_bytes,
                    prune_evidence_before_run: o.prune_evidence_before_run,
                },
            ),
        },
    }
}

/// What an inspection was asked for with, as far as it was read.
#[derive(Debug)]
pub struct InspectFlags {
    pub window_title: Option<String>,
    pub title_contains: Option<String>,
    pub max_depth: u32,
    pub max_nodes: usize,
    pub include_values: bool,
    pub output: Option<String>,
}

pub struct InspectFlagsView {
    pub window_title: Option<Seq<char>>,
    pub title_contains: Option<Seq<char>>,
    pub max_depth: u32,
    pub max_nodes: usize,
    pub include_values: bool,
    pub output: Option<Seq<char>>,
}

impl View for InspectFlags {
    type V = InspectFlagsView;

    open spec fn view(&self) -> InspectFlagsView {
        InspectFlagsView {
            window_title: opt_text(self.window_title),
            title_contains: opt_text(self.title_contains),
            max_depth: self.max_depth,
            max_nodes: self.max_nodes,
            include_values: self.include_values,
            output: opt_text(self.output),
        }
    }
}

/// The value of a flag of an inspection, where it is one that the flag can have.
pub open spec fn inspect_value(
    flag: Seq<char>,
    value: Seq<char>,
    o: InspectFlagsView,
) -> Option<InspectFlagsView> {
    if flag == "--window-title"@ {
        Some(InspectFlagsView { window_title: Some(value), ..o })
    } else if flag == "--title-contains"@ {
        Some(InspectFlagsView { title_contains: Some(value), ..o })
    } else if flag == "--max-depth"@ {
        match number_of(value, u32::MAX as nat) {
            Some(n) => Some(InspectFlagsView { max_depth: n as u32, ..o }),
            None => None,
        }
    } else if flag == "--max-nodes"@ {
        match number_of(value, usize::MAX as nat) {
            Some(n) => Some(InspectFlagsView { max_nodes: n as usize, ..o }),
            None => None,
        }
    } else if flag == "--output"@ {
        Some(InspectFlagsView { output: Some(value), ..o })
    } else {
        None
    }
}

/// Reads the arguments of an inspection from left to right.
pub open spec fn inspect_flags(args: Seq<Seq<char>>, o: InspectFlagsView) -> Option<
    InspectFlagsView,
>
    decreases args.len(),
{
    if args.len() == 0 {
        Some(o)
    } else if args[0] == "--include-values"@ {
        inspect_flags(args.skip(1), InspectFlagsView { include_values: true, ..o })
    } else if args.len() == 1 {
        None
    } else {
        match inspect_value(args[0], args[1], o) {
            Some(more) => inspect_flags(args.skip(2), more),
            None => None,
        }
    }
}

pub open spec fn no_inspect_flags() -> InspectFlagsView {
    InspectFlagsView {
        window_title: None,
        title_contains: None,
        max_depth: 4,
        max_nodes: 250,
        include_values: false,
        output: None,
    }
}

/// What an inspection was asked for with: it names its window.
pub open spec fn inspect_options(args: Seq<Seq<char>>) -> Option<InspectFlagsView> {
    match inspect_flags(args, no_inspect_flags()) {
        Some(o) => if o.window_title is None && o.title_contains is None {
            None
        } else {
            Some(o)
        },
        None => None,
    }
}

fn take_inspect_value(flag: &str, value: &str, o: &mut InspectFlags) -> (r: bool)
    ensures
        match inspect_value(flag@, value@, old(o)@) {
            Some(more) => r && final(o)@ == more,
            None => !r,
        },
{
    if same_text(flag, "--window-title") {
        o.window_title = Some(value.to_owned());
        true
    } else if same_text(flag, "--title-contains") {
        o.title_contains = Some(value.to_owned());
        true
    } else if same_text(flag, "--max-depth") {
        match parse_u32(value) {
            Some(n) => {
                o.max_depth = n;
                true
            },
            None => false,
        }
    } else if same_text(flag, "--max-nodes") {
        match parse_usize(value) {
            Some(n) => {
                o.max_nodes = n;
                true
            },
            None => false,
        }
    } else if same_text(flag, "--output") {
        o.output = Some(value.to_owned());
        true
    } else {
        false
    }
}

fn read_inspect_flags(args: &Vec<String>) -> (r: Option<InspectFlags>)
    ensures
        opt_view(r) == inspect_flags(texts(args@), no_inspect_flags()),
{
    let ghost all = texts(args@);
    let mut o = InspectFlags {
        window_title: None,
        title_contains: None,
        max_depth: 4,
        max_nodes: 250,
        include_values: false,
        output: None,
    };
    let mut i: usize = 0;
    assert(all.skip(0) =~= all);
    while i < args.len()
        invariant
            i <= args@.len(),
            all == texts(args@),
            inspect_flags(all, no_inspect_flags()) == inspect_flags(all.skip(i as int), o@),
        decreases args@.len() - i,
    {
        proof {
            moved_on(all, i as int);
        }
        if is_flag(args, i, "--include-values") {
            o.include_values = true;
            i = i + 1;
            continue ;
        }
        if args.len() - i < 2 {
            return None;
        }
        if !take_inspect_value(args[i].as_str(), args[i + 1].as_str(), &mut o) {
            return None;
        }
        i = i + 2;
    }
    Some(o)
}

/// The window to inspect, how deep, how many elements, whether with values, and where to write.
pub fn parse_inspect_window_args(args: &Vec<String>) -> (r: Option<
    (Target, u32, usize, bool, Option<String>),
>)
    ensures
        match (r, inspect_options(texts(args@))) {
            (Some((target, max_depth, max_nodes, include_values, output)), Some(o)) => {
                &&& target@ == window_target(o.window_title, o.title_contains)
                &&& max_depth == o.max_depth
                &&& max_nodes == o.max_nodes
                &&& include_values == o.include_values
                &&& opt_text(output) == o.output
            },
            (None, None) => true,
            _ => false,
        },
{
    match read_inspect_flags(args) {
        None => None,
        Some(o) => {
            if o.window_title.is_none() && o.title_contains.is_none() {
                return None;
            }
            Some(
                (
                    target_of_window(o.window_title, o.title_contains),
                    o.max_depth,
                    o.max_nodes,
                    o.include_values,
                    o.output,
                ),
            )
        },
    }
}

/// What a repair was asked for with, as far as it was read.
#[derive(Debug)]
pub struct RepairFlags {
    pub window_title: Option<String>,
    pub title_contains: Option<String>,
    pub accessibility: AccessibilityTarget,
    pub max_depth: u32,
    pub max_nodes: usize,
}

pub struct RepairFlagsView {
    pub window_title: Option<Seq<char>>,
    pub title_contains: Option<Seq<char>>,
    pub accessibility: AccessibilityTargetView,
    pub max_depth: u32,
    pub max_nodes: usize,
}

impl View for RepairFlags {
    type V = RepairFlagsView;

    open spec fn view(&self) -> RepairFlagsView {
        RepairFlagsView {
            window_title: opt_text(self.window_title),
            title_contains: opt_text(self.title_contains),
            accessibility: self.accessibility@,
            max_depth: self.max_depth,
            max_nodes: self.max_nodes,
        }
    }
}

/// The value of a flag of a repair, where it is one that the flag can have.
pub open spec fn repair_value(
    flag: Seq<char>,
    value: Seq<char>,
    o: RepairFlagsView,
) -> Option<RepairFlagsView> {
    if flag == "--window-title"@ {
        Some(RepairFlagsView { window_title: Some(value), ..o })
    } else if flag == "--title-contains"@ {
        Some(RepairFlagsView { title_contains: Some(value), ..o })
    } else if flag == "--id"@ {
        Some(
            RepairFlagsView {
                accessibility: AccessibilityTargetView { id: Some(value), ..o.accessibility },
                ..o
            },
        )
    } else if flag == "--name"@ {
        Some(
            RepairFlagsView {
                accessibility: AccessibilityTargetView { name: Some(value), ..o.accessibility },
                ..o
            },
        )
    } else if flag == "--control-type"@ {
        Some(
            RepairFlagsView {
                accessibility: AccessibilityTargetView {
                    control_type: Some(value),
                    ..o.accessibility
                },
                ..o
            },
        )
    } else if flag == "--path"@ {
        match path_of(value) {
            Some(path) => Some(
                RepairFlagsView {
                    accessibility: AccessibilityTargetView { path: Some(path), ..o.accessibility },
                    ..o
                },
            ),
            None => None,
        }
    } else if flag == "--max-depth"@ {
        match number_of(value, u32::MAX as nat) {
            Some(n) => Some(RepairFlagsView { max_depth: n as u32, ..o }),
            None => None,
        }
    } else if flag == "--max-nodes"@ {
        match number_of(value, usize::MAX as nat) {
            Some(n) => Some(RepairFlagsView { max_nodes: n as usize, ..o }),
            None => None,
        }
    } else {
        None
    }
}

/// Reads the arguments of a repair from left to right.
pub open spec fn repair_flags(args: Seq<Seq<char>>, o: RepairFlagsView) -> Option<RepairFlagsView>
    decreases args.len(),
{
    if args.len() == 0 {
        Some(o)
    } else if args.len() == 1 {
        None
    } else {
        match repair_value(args[0], args[1], o) {
            Some(more) => repair_flags(args.skip(2), more),
            None => None,
        }
    }
}

pub open spec fn no_repair_flags() -> RepairFlagsView {
    RepairFlagsView {
        window_title: None,
        title_contains: None,
        accessibility: AccessibilityTargetView {
            id: None,
            name: None,
            control_type: None,
            path: None,
        },
        max_depth: 4,
        max_nodes: 500,
    }
}

/// What a repair was asked for with: it names its window in one way.
pub open spec fn repair_options(args: Seq<Seq<char>>) -> Option<RepairFlagsView> {
    match repair_flags(args, no_repair_flags()) {
        Some(o) => if (o.window_title is None) == (o.title_contains is None) {
            None
        } else {
            Some(o)
        },
        None => None,
    }
}

fn take_repair_value(flag: &str, value: &str, o: &mut RepairFlags) -> (r: bool)
    ensures
        match repair_value(flag@, value@, old(o)@) {
            Some(more) => r && final(o)@ == more,
            None => !r,
        },
{
    if same_text(flag, "--window-title") {
        o.window_title = Some(value.to_owned());
        true
    } else if same_text(flag, "--title-contains") {
        o.title_contains = Some(value.to_owned());
        true
    } else if same_text(flag, "--id") {
        o.accessibility.id = Some(value.to_owned());
        true
    } else if same_text(flag, "--name") {
        o.accessibility.name = Some(value.to_owned());
        true
    } else if same_text(flag, "--control-type") {
        o.accessibility.control_type = Some(value.to_owned());
        true
    } else if same_text(flag, "--path") {
        match parse_path_indexes(value) {
            Some(path) => {
                o.accessibility.path = Some(path);
                true
            },
            None => false,
        }
    } else if same_text(flag, "--max-depth") {
        match parse_u32(value) {
            Some(n) => {
                o.max_depth = n;
                true
            },
            None => false,
        }
    } else if same_text(flag, "--max-nodes") {
        match parse_usize(value) {
            Some(n) => {
                o.max_nodes = n;
                true
            },
            None => false,
        }
    } else {
        false
    }
}

fn read_repair_flags(args: &Vec<String>) -> (r: Option<RepairFlags>)
    ensures
        opt_view(r) == repair_flags(texts(args@), no_repair_flags()),
{
    let ghost all = texts(args@);
    let mut o = RepairFlags {
        window_title: None,
        title_contains: None,
        accessibility: AccessibilityTarget { id: None, name: None, control_type: None, path: None },
        max_depth: 4,
        max_nodes: 500,
    };
    let mut i: usize = 0;
    assert(all.skip(0) =~= all);
    while i < args.len()
        invariant
            i <= args@.len(),
            all == texts(args@),
            repair_flags(all, no_repair_flags()) == repair_flags(all.skip(i as int), o@),
        decreases args@.len() - i,
    {
        proof {
            moved_on(all, i as int);
        }
        if args.len() - i < 2 {
            return None;
        }
        if !take_repair_value(args[i].as_str(), args[i + 1].as_str(), &mut o) {
            return None;
        }
        i = i + 2;
    }
    Some(o)
}

/// The target whose selector is to be repaired, how deep to look, and at how many elements.
pub fn parse_repair_selector_args(args: &Vec<String>) -> (r: Option<(Target, u32, usize)>)
    ensures
        match (r, repair_options(texts(args@))) {
            (Some((target, max_depth, max_nodes)), Some(o)) => {
                &&& target@ == (TargetView {
                    accessibility: Some(o.accessibility),
                    ..window_target(o.window_title, o.title_contains)
                })
                &&& max_depth == o.max_depth
                &&& max_nodes == o.max_nodes
            },
            (None, None) => true,
            _ => false,
        },
{
    match read_repair_flags(args) {
        None => None,
        Some(o) => {
            if o.window_title.is_none() && o.title_contains.is_none() {
                return None;
            }
            if o.window_title.is_some() && o.title_contains.is_some() {
                return None;
            }
            let mut target = target_of_window(o.window_title, o.title_contains);
            target.accessibility = Some(o.accessibility);
            Some((target, o.max_depth, o.max_nodes))
        },
    }
}

} // verus!
