//! What the adapters give for what they are asked.
use vstd::prelude::*;
use crate::{macos, windows};
use crate::accessibility::{
    AccessibilityBounds, AccessibilityTree, AdapterCapabilities, SelectorRepairReport,
};
use crate::adapter::AdapterError;
use crate::bitmap::{template_confidence, BmpImage};
use crate::bmp_file::{bmp_round_trip, encode_bmp, parse_bmp_image, BmpDepth};
use crate::definition::{Action, Assertion, AssertionView, Platform, Target, WaitCondition};
use crate::describe::QuoteStyle;
use crate::laws::evidence::{asks, inspections_show_what_is_there, shows};
use crate::laws::permissions::{
    allowed_on_windows, does_on_windows, element_on_macos, element_on_windows, picture_on_macos,
    picture_on_windows, place_on_macos, point_on_macos, point_on_windows,
};
use crate::laws::pictures::agreeing_pixels;
use crate::looking::{file_uri, screenshot_artifact};
use crate::macos::adapter::MacOsDesktopAdapter;
use crate::macos::desktop::{correlate_window, counts_as_window, AxWindow, MacWindow};
use crate::macos::tasks::window_only_target;
use crate::queries::{Query, QueryView};
use crate::run::{Artifact, ArtifactKind, PreflightDiagnostic, PreflightSeverity, RunConfig};
use crate::selectors::offered_candidates;
use crate::text::{joined, pieces};
use crate::views::views;
use crate::windows::adapter::{inspect, ShownWindow, WindowsDesktopAdapter};
use crate::windows::keys::ScrollAmount;
use crate::windows::tasks::screenshot_size;

verus! {

/// A scroll of an element on Windows goes sideways by its first number and up and down by its
/// second; on macOS it goes up and down. An element that may not be reached is not scrolled.
pub proof fn elements_are_scrolled_both_ways(
    on_windows: &WindowsDesktopAdapter,
    on_macos: &MacOsDesktopAdapter,
    target: &Target,
    delta_x: i32,
    delta_y: i32,
    config: &RunConfig,
    r: Result<windows::tasks::Task, AdapterError>,
    s: Result<macos::tasks::Task, AdapterError>,
)
    requires
        call_ensures(
            WindowsDesktopAdapter::scroll_target,
            (on_windows, target, delta_x, delta_y, config),
            r,
        ),
        call_ensures(MacOsDesktopAdapter::scroll_target, (on_macos, target, delta_y, config), s),
    ensures
        r is Ok <==> element_on_windows(target@, config@),
        r is Ok ==> ({
            let task = r->Ok_0@;
            &&& task is ScrollElement
            &&& task->ScrollElement_target == target@
            &&& task->horizontal == ScrollAmount::SmallIncrement <==> delta_x > 0
            &&& task->horizontal == ScrollAmount::SmallDecrement <==> delta_x < 0
            &&& task->vertical == ScrollAmount::SmallIncrement <==> delta_y > 0
            &&& task->vertical == ScrollAmount::SmallDecrement <==> delta_y < 0
        }),
        s is Ok <==> place_on_macos(target@, config@, on_macos.trusted) && element_on_macos(
            target@,
            config@,
            on_macos.trusted,
        ),
        s is Ok ==> s->Ok_0@ == (macos::tasks::TaskView::ScrollTarget { target: target@, delta_y }),
{
}

/// Invoking a target clicks its point where it gives one and invokes its element where it gives
/// none; setting a text sets that text in that element.
pub proof fn targets_are_invoked_and_filled(
    on_windows: &WindowsDesktopAdapter,
    on_macos: &MacOsDesktopAdapter,
    target: &Target,
    text: &str,
    config: &RunConfig,
    r: Result<windows::tasks::Task, AdapterError>,
    s: Result<macos::tasks::Task, AdapterError>,
    t: Result<windows::tasks::Task, AdapterError>,
    u: Result<macos::tasks::Task, AdapterError>,
)
    requires
        call_ensures(WindowsDesktopAdapter::invoke_target, (on_windows, target, config), r),
        call_ensures(MacOsDesktopAdapter::invoke_target, (on_macos, target, config), s),
        call_ensures(WindowsDesktopAdapter::set_target_text, (on_windows, target, text, config), t),
        call_ensures(MacOsDesktopAdapter::set_target_text, (on_macos, target, text, config), u),
    ensures
        target@.coordinates matches Some(p) ==> {
            &&& r is Ok <==> point_on_windows(target@, config@)
            &&& r is Ok ==> r->Ok_0@ == (windows::tasks::TaskView::ClickPoint { x: p.x, y: p.y })
            &&& s is Ok <==> point_on_macos(target@, config@)
            &&& s is Ok ==> s->Ok_0@ == (macos::tasks::TaskView::ClickPoint { x: p.x, y: p.y })
        },
        target@.coordinates is None ==> {
            &&& r is Ok <==> element_on_windows(target@, config@)
            &&& r is Ok ==> r->Ok_0@ == (windows::tasks::TaskView::Invoke { target: target@ })
            &&& s is Ok ==> element_on_macos(target@, config@, on_macos.trusted)
            &&& s is Ok ==> s->Ok_0@ == (macos::tasks::TaskView::Invoke { target: target@ })
        },
        t is Ok <==> element_on_windows(target@, config@),
        t is Ok ==> t->Ok_0@ == (windows::tasks::TaskView::SetText {
            target: target@,
            text: text@,
        }),
        u is Ok ==> element_on_macos(target@, config@, on_macos.trusted),
        u is Ok ==> u->Ok_0@ == (macos::tasks::TaskView::SetText { target: target@, text: text@ }),
{
}

/// What the Windows adapter is to do for an action is what the action asks for, and its preflight
/// finds an error exactly where it would do nothing.
pub proof fn windows_executes_what_it_preflights(
    adapter: &WindowsDesktopAdapter,
    action: &Action,
    config: &RunConfig,
    found: Vec<PreflightDiagnostic>,
    r: Result<windows::tasks::Task, AdapterError>,
)
    requires
        call_ensures(WindowsDesktopAdapter::preflight, (adapter, action, config), found),
        call_ensures(WindowsDesktopAdapter::execute, (adapter, action, config), r),
    ensures
        found@.len() == 0 <==> allowed_on_windows(action@, config@),
        found@.len() > 0 ==> found@.len() == 1 && found@[0].severity == PreflightSeverity::Error,
        r is Ok <==> found@.len() == 0 && !(action is WaitFor || action is Assert),
        r is Ok ==> does_on_windows(action@, r->Ok_0@),
{
    let all = views(found@);
    assert(all.len() == found@.len());
    if found@.len() > 0 {
        assert(all[0] == found@[0]@);
    }
}

/// What the adapters ask for a condition or an assertion is the question that it puts.
pub proof fn adapters_ask_what_is_asked(
    on_windows: &WindowsDesktopAdapter,
    on_macos: &MacOsDesktopAdapter,
    condition: &WaitCondition,
    assertion: &Assertion,
    config: &RunConfig,
    r: Result<Option<Query>, AdapterError>,
    s: Result<Option<Query>, AdapterError>,
    t: Result<Option<Query>, AdapterError>,
)
    requires
        call_ensures(WindowsDesktopAdapter::evaluate_wait, (on_windows, condition, config), r),
        call_ensures(MacOsDesktopAdapter::evaluate_wait, (on_macos, condition, config), s),
        call_ensures(WindowsDesktopAdapter::evaluate_assertion, (on_windows, assertion, config), t),
    ensures
        r is Ok ==> (r->Ok_0 is None <==> condition is Duration),
        r is Ok && r->Ok_0 is Some ==> asks(condition@, r->Ok_0->0@),
        s is Ok ==> (s->Ok_0 is None <==> condition is Duration),
        s is Ok && s->Ok_0 is Some ==> asks(condition@, s->Ok_0->0@),
        t is Ok ==> match assertion@ {
            AssertionView::Condition { condition: c } => t->Ok_0 is Some ==> asks(c, t->Ok_0->0@),
            AssertionView::TargetExists { target } => t->Ok_0 is Some
                && t->Ok_0->0@ == if target.image
                is Some {
                QueryView::ImageExists { target }
            } else if target.accessibility is Some {
                QueryView::ElementExists { target }
            } else {
                QueryView::WindowExists { target }
            },
        },
{
}

/// An inspection shows the window that it is given, down to the depth that is asked for, and at
/// least its root.
pub proof fn inspections_show_the_window(
    platform: Platform,
    style: QuoteStyle,
    target: &Target,
    window: ShownWindow,
    max_depth: u32,
    max_nodes: usize,
    values: bool,
    r: AccessibilityTree,
)
    requires
        call_ensures(
            inspect,
            (platform, style, target, window, max_depth, max_nodes, values),
            r,
        ),
    ensures
        r.platform == platform,
        r.window_title@ == window.title@,
        r.max_depth == max_depth,
        max_nodes > 0 ==> r.max_nodes == max_nodes,
        max_nodes == 0 ==> r.max_nodes == 1,
        shows(r.root@, window.root, Seq::empty(), values),
{
    inspections_show_what_is_there(
        platform,
        window.title@,
        window.root,
        Seq::empty(),
        max_depth as nat,
        values,
        if max_nodes == 0 {
            1nat
        } else {
            max_nodes as nat
        },
    );
}

/// A repair names the target that it is for, says whether that still works, and offers no more than
/// twenty selectors, the best first, no two alike.
pub proof fn repairs_offer_what_works(
    adapter: &WindowsDesktopAdapter,
    target: &Target,
    tree: &AccessibilityTree,
    exists: &Result<bool, AdapterError>,
    r: SelectorRepairReport,
    i: int,
    j: int,
)
    requires
        call_ensures(WindowsDesktopAdapter::repair_selector, (adapter, target, tree, exists), r),
    ensures
        r.original@ == target@,
        r.matched <==> target.accessibility is None || *exists == Ok::<bool, AdapterError>(true),
        r.candidates@.len() <= 20,
        0 <= i < j < r.candidates@.len() ==> r.candidates@[i].score >= r.candidates@[j].score
            && r.candidates@[i].target@ != r.candidates@[j].target@,
{
    let all = crate::selectors::with_changes(
        Platform::Windows,
        target@.accessibility,
        crate::selectors::repair_candidates(
            Platform::Windows,
            tree.root@,
            target@.accessibility,
        ),
    );
    offered_candidates(all);
    let shown = views(r.candidates@);
    assert(shown.len() == r.candidates@.len());
    if 0 <= i < j < r.candidates@.len() {
        assert(shown[i] == r.candidates@[i]@);
        assert(shown[j] == r.candidates@[j]@);
    }
}

/// A picture that was written to a file is read back: the same size, and the same pixels.
pub proof fn pictures_are_read_back(
    image: BmpImage,
    pixels: &Vec<u8>,
    bytes: Vec<u8>,
    depth: BmpDepth,
    r: Result<BmpImage, AdapterError>,
)
    requires
        image.complete(),
        pixels@ == image.pixels@,
        call_ensures(encode_bmp, (image.width, image.height, pixels), bytes),
        call_ensures(parse_bmp_image, (&bytes, depth), r),
    ensures
        r is Ok,
        r->Ok_0.width == image.width,
        r->Ok_0.height == image.height,
        r->Ok_0.pixels@ == image.pixels@,
{
    if r is Ok {
        bmp_round_trip(image, depth, r->Ok_0);
    } else {
        bmp_round_trip(image, depth, image);
    }
}

/// How sure a picture is found is how many of a hundred of its pixels agree, rounded down.
pub proof fn confidence_is_a_share_of_the_pixels(
    screenshot: &BmpImage,
    template: &BmpImage,
    left: i32,
    top: i32,
    r: u8,
)
    requires
        screenshot.complete(),
        template.complete(),
        0 <= left && 0 <= top,
        left + template.width <= screenshot.width,
        top + template.height <= screenshot.height,
        call_ensures(template_confidence, (screenshot, template, left, top), r),
    ensures
        ({
            let agreeing = agreeing_pixels(*screenshot, *template, left as int, top as int).len();
            let all = template.width * template.height;
            r * all <= agreeing * 100 < (r + 1) * all
        }),
{
    crate::laws::pictures::confidence_counts_agreeing_pixels(
        *screenshot,
        *template,
        left as int,
        top as int,
    );
    let agreeing = agreeing_pixels(*screenshot, *template, left as int, top as int).len() as int;
    let all = template.width * template.height;
    assert(all > 0) by (nonlinear_arith)
        requires
            template.width > 0,
            template.height > 0,
            all == template.width * template.height,
    ;
    let q = (agreeing * 100) / all;
    assert(q * all <= agreeing * 100 < (q + 1) * all) by (nonlinear_arith)
        requires
            all > 0,
            q == (agreeing * 100) / all,
    ;
}

/// The adapters say what they can do: everything, but that on macOS elements are out of reach
/// without trust.
pub proof fn adapters_say_what_they_can(
    trusted: bool,
    on_windows: AdapterCapabilities,
    on_macos: AdapterCapabilities,
)
    requires
        call_ensures(WindowsDesktopAdapter::capabilities, (), on_windows),
        call_ensures(MacOsDesktopAdapter::capabilities, (trusted,), on_macos),
    ensures
        on_windows.platform == Platform::Windows,
        on_windows.supports_launch && on_windows.supports_focus && on_windows.supports_input
            && on_windows.supports_semantic_targets && on_windows.supports_coordinate_targets
            && on_windows.supports_window_queries && on_windows.supports_process_queries
            && on_windows.supports_accessibility_tree,
        on_macos.platform == Platform::MacOs,
        on_macos.supports_launch && on_macos.supports_focus && on_macos.supports_input
            && on_macos.supports_coordinate_targets && on_macos.supports_window_queries
            && on_macos.supports_process_queries,
        on_macos.supports_semantic_targets == trusted,
        on_macos.supports_accessibility_tree == trusted,
{
}

/// A window on macOS counts where it is an ordinary one of a named application; and a window of the
/// accessibility service is the window on the screen that has its title, or its place where it has
/// no title: the first such.
pub proof fn windows_on_macos_are_recognised(
    layer: i32,
    app: &str,
    id: u32,
    counts: bool,
    window: &MacWindow,
    listed: &Vec<AxWindow>,
    r: Option<usize>,
    i: int,
)
    requires
        call_ensures(counts_as_window, (layer, app, id), counts),
        call_ensures(correlate_window, (window, listed), r),
    ensures
        counts <==> layer == 0 && id != 0 && crate::laws::validity::written(app@),
        0 <= i < listed@.len() && listed@[i].title@ == window.title@ ==> r is Some && r->0 <= i,
        r is Some ==> r->0 < listed@.len() && (listed@[r->0 as int].title@ == window.title@
            || window.title@.len() == 0 && listed@[r->0 as int].bounds is Some),
{
    crate::laws::validity::blanks_are_not_written(app@);
}

/// What a target says of windows is kept, and nothing else of it; and the size of a picture of a
/// window is that of its bounds.
pub proof fn windows_are_asked_for_alone(
    target: &Target,
    r: Target,
    bounds: AccessibilityBounds,
    size: Option<(i32, i32)>,
)
    requires
        call_ensures(window_only_target, (target,), r),
        call_ensures(screenshot_size, (bounds,), size),
    ensures
        r@.app_name == target@.app_name && r@.process_name == target@.process_name,
        r@.window_title == target@.window_title && r@.title_contains == target@.title_contains,
        r@.accessibility is None && r@.image is None && r@.coordinates is None && r@.url is None
            && r@.file_path is None,
        size is Some ==> ({
            let (width, height) = size->0;
            width == bounds.right - bounds.left && height == bounds.bottom - bounds.top && width > 0
                && height > 0
        }),
        bounds.right - bounds.left <= 0 || bounds.bottom - bounds.top <= 0 ==> size is None,
{
}

/// A screenshot is reported with the address of its file: spaces are written as `%20` on macOS.
pub proof fn screenshots_are_reported_with_their_file(
    window: bool,
    path: &str,
    on_macos: Artifact,
    uri: String,
)
    requires
        call_ensures(screenshot_artifact, (Platform::MacOs, window, path), on_macos),
        call_ensures(file_uri, (Platform::MacOs, path), uri),
    ensures
        on_macos.kind == ArtifactKind::Screenshot,
        on_macos.uri@ == uri@,
        on_macos@.label == Some(
            if window {
                "Window screenshot"@
            } else {
                "Desktop screenshot"@
            },
        ),
        uri@ == "file://"@ + joined(pieces(path@, ' '), "%20"@),
{
    crate::laws::texts::replacing_joins_the_pieces(path@, ' ', "%20"@);
}

/// A picture may be looked for only with both approvals; what is looked for is the picture of the
/// target.
pub proof fn pictures_are_looked_for_with_approval(
    on_windows: &WindowsDesktopAdapter,
    on_macos: &MacOsDesktopAdapter,
    target: &Target,
    config: &RunConfig,
    r: Result<crate::definition::ImageTarget, AdapterError>,
    s: Result<crate::definition::ImageTarget, AdapterError>,
)
    requires
        call_ensures(WindowsDesktopAdapter::image_to_find, (on_windows, target, config), r),
        call_ensures(MacOsDesktopAdapter::image_to_find, (on_macos, target, config), s),
    ensures
        r is Ok ==> picture_on_windows(target@, config@) && target@.image == Some(r->Ok_0@),
        picture_on_windows(target@, config@) ==> r is Ok,
        s is Ok ==> picture_on_macos(target@, config@) && target@.image == Some(s->Ok_0@),
        picture_on_macos(target@, config@) ==> s is Ok,
{
}

} // verus!
