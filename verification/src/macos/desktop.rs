//! Windows and processes of a Mac.
use vstd::prelude::*;
use crate::accessibility::{
    bounds_roughly_equal, roughly_equal, AccessibilityBounds, WindowIdentity, WindowIdentityView,
};
use crate::adapter::{plain_error, AdapterError, AdapterErrorView};
use crate::definition::{Target, TargetView};
use crate::describe::{quote, quoted, window_summary, window_target_summary, QuoteStyle};
use crate::macos::policy::{
    refusal, reject_unsupported_target, unsupported_window_target_reason, window_target_reason,
};
use crate::run::{FailureKind, RunErrorKind};
use crate::text::{
    blank, concat, contains, contains_text, decimal, eq_ignore_ascii_case, format_u64, is_blank,
    join, joined, lowercase, lowercase_of, owned, pieces, same_but_case, same_text, split, texts,
    trim, trimmed,
};

verus! {

/// A window on the screen.
#[derive(Debug, PartialEq, Eq)]
pub struct MacWindow {
    pub window_id: u32,
    pub title: String,
    pub app_name: String,
    pub process_id: u32,
    pub bounds: Option<AccessibilityBounds>,
}

/// What a [`MacWindow`] stands for.
pub struct MacWindowView {
    pub window_id: u32,
    pub title: Seq<char>,
    pub app_name: Seq<char>,
    pub process_id: u32,
    pub bounds: Option<AccessibilityBounds>,
}

impl View for MacWindow {
    type V = MacWindowView;

    open spec fn view(&self) -> MacWindowView {
        MacWindowView {
            window_id: self.window_id,
            title: self.title@,
            app_name: self.app_name@,
            process_id: self.process_id,
            bounds: self.bounds,
        }
    }
}

/// Whether a window of the system counts: an ordinary one of a named application.
pub fn counts_as_window(layer: i32, app_name: &str, window_id: u32) -> (r: bool)
    ensures
        r == (layer == 0 && !blank(app_name@) && window_id != 0),
{
    layer == 0 && !is_blank(app_name) && window_id != 0
}

/// Whether an application is the one in front.
pub open spec fn in_front(app_name: Seq<char>, frontmost: Option<Seq<char>>) -> bool {
    frontmost matches Some(name) && same_but_case(name, app_name)
}

pub fn is_in_front(app_name: &str, frontmost: &Option<String>) -> (r: bool)
    ensures
        r == in_front(app_name@, crate::text::opt_text(*frontmost)),
{
    match frontmost {
        Some(name) => eq_ignore_ascii_case(name.as_str(), app_name),
        None => false,
    }
}

impl MacWindow {
    /// What is shown of the window, given the application in front.
    pub fn identity(&self, frontmost: &Option<String>) -> (r: WindowIdentity)
        ensures
            r@ == (WindowIdentityView {
                handle: decimal(self.window_id as nat),
                title: self.title@,
                class_name: "AXWindow"@,
                process_id: self.process_id,
                process_name: Some(self.app_name@),
                bounds: self.bounds,
                is_foreground: in_front(self.app_name@, crate::text::opt_text(*frontmost)),
                is_minimized: false,
                owner: None,
            }),
    {
        WindowIdentity {
            handle: format_u64(self.window_id as u64),
            title: self.title.clone(),
            class_name: owned("AXWindow"),
            process_id: self.process_id,
            process_name: Some(self.app_name.clone()),
            bounds: self.bounds,
            is_foreground: is_in_front(self.app_name.as_str(), frontmost),
            is_minimized: false,
            owner: None,
        }
    }
}

/// Whether a window is one that a target asks for. A target that says nothing of windows asks for
/// none.
pub open spec fn window_fits(w: MacWindowView, t: TargetView) -> bool {
    &&& t.window_title matches Some(title) ==> w.title == title
    &&& t.title_contains matches Some(part) ==> contains_text(
        lowercase_of(w.title),
        lowercase_of(part),
    )
    &&& t.app_name matches Some(name) ==> same_but_case(w.app_name, name)
    &&& t.process_name matches Some(name) ==> same_but_case(w.app_name, name)
    &&& t.window_title is Some || t.title_contains is Some || t.app_name is Some
        || t.process_name is Some
}

pub fn window_matches_target(window: &MacWindow, target: &Target) -> (r: bool)
    ensures
        r == window_fits(window@, target@),
{
    if let Some(title) = &target.window_title {
        if !same_text(window.title.as_str(), title.as_str()) {
            return false;
        }
    }
    if let Some(part) = &target.title_contains {
        if !contains(
            lowercase(window.title.as_str()).as_str(),
            lowercase(part.as_str()).as_str(),
        ) {
            return false;
        }
    }
    if let Some(name) = &target.app_name {
        if !eq_ignore_ascii_case(window.app_name.as_str(), name.as_str()) {
            return false;
        }
    }
    if let Some(name) = &target.process_name {
        if !eq_ignore_ascii_case(window.app_name.as_str(), name.as_str()) {
            return false;
        }
    }
    target.window_title.is_some() || target.title_contains.is_some() || target.app_name.is_some()
        || target.process_name.is_some()
}

/// The numbers of the first `n` windows that a target asks for.
pub open spec fn matching(t: TargetView, windows: Seq<MacWindow>, n: nat) -> Seq<int>
    decreases n,
{
    if n == 0 || n > windows.len() {
        Seq::empty()
    } else {
        let front = matching(t, windows, (n - 1) as nat);
        if window_fits(windows[n - 1]@, t) {
            front.push(n - 1)
        } else {
            front
        }
    }
}

pub open spec fn window_line(w: MacWindowView) -> Seq<char> {
    w.app_name + " pid="@ + decimal(w.process_id as nat) + " title="@ + quoted(
        QuoteStyle::Plain,
        w.title,
    )
}

fn make_window_line(w: &MacWindow) -> (r: String)
    ensures
        r@ == window_line(w@),
{
    let mut line = w.app_name.clone();
    line.append(" pid=");
    line.append(format_u64(w.process_id as u64).as_str());
    line.append(" title=");
    line.append(quote(QuoteStyle::Plain, w.title.as_str()).as_str());
    line
}

/// The windows with these numbers, a line for each.
pub open spec fn window_lines(windows: Seq<MacWindow>, numbers: Seq<int>) -> Seq<Seq<char>> {
    numbers.map_values(|n: int| window_line(windows[n]@))
}

/// The first twenty windows that there are, a line for each.
pub open spec fn candidate_lines(t: TargetView, windows: Seq<MacWindow>) -> Seq<Seq<char>> {
    let shown = if windows.len() <= 20 {
        windows
    } else {
        windows.take(20)
    };
    shown.map_values(
        |w: MacWindow|
            window_line(w@) + " while looking for "@ + window_summary(QuoteStyle::Plain, t),
    )
}

/// What windows there are, for the user who asked for another one.
pub fn window_candidate_diagnostics(target: &Target, windows: &Vec<MacWindow>) -> (r: String)
    ensures
        r@ == joined(candidate_lines(target@, windows@), "\n"@),
{
    let summary = window_target_summary(QuoteStyle::Plain, target);
    let limit: usize = if windows.len() <= 20 {
        windows.len()
    } else {
        20
    };
    let ghost expected = candidate_lines(target@, windows@);
    let mut lines: Vec<String> = Vec::new();
    let mut i: usize = 0;
    while i < limit
        invariant
            i <= limit <= windows@.len(),
            limit == (if windows@.len() <= 20 {
                windows@.len()
            } else {
                20
            }),
            summary@ == window_summary(QuoteStyle::Plain, target@),
            expected == candidate_lines(target@, windows@),
            lines@.len() == i,
            forall|j: int| 0 <= j < i ==> (#[trigger] lines@[j])@ == expected[j],
        decreases limit - i,
    {
        let mut line = make_window_line(&windows[i]);
        line.append(" while looking for ");
        line.append(summary.as_str());
        lines.push(line);
        i = i + 1;
    }
    assert(texts(lines@) =~= expected);
    join(&lines, "\n")
}

/// The error where no window, or more than one, is what a target asks for.
pub open spec fn window_error(t: TargetView, windows: Seq<MacWindow>) -> AdapterErrorView {
    let numbers = matching(t, windows, windows.len());
    if numbers.len() == 0 {
        AdapterErrorView {
            message: "macOS could not find a window matching "@ + window_summary(
                QuoteStyle::Plain,
                t,
            ),
            kind: RunErrorKind::Adapter,
            diagnostics: Some(joined(candidate_lines(t, windows), "\n"@)),
            failure_kind: Some(FailureKind::NotFound),
        }
    } else {
        AdapterErrorView {
            message: "macOS found multiple windows matching "@ + window_summary(
                QuoteStyle::Plain,
                t,
            ),
            kind: RunErrorKind::Adapter,
            diagnostics: Some(joined(window_lines(windows, numbers), "\n"@)),
            failure_kind: Some(FailureKind::Ambiguous),
        }
    }
}

/// Picks the window that a target asks for among those on the screen. There has to be exactly one.
pub fn find_window(target: &Target, windows: &Vec<MacWindow>) -> (r: Result<usize, AdapterError>)
    ensures
        match r {
            Ok(number) => window_target_reason(target@) is None && matching(
                target@,
                windows@,
                windows@.len(),
            ) == seq![number as int],
            Err(e) => match window_target_reason(target@) {
                Some(reason) => e@ == refusal(reason),
                None => matching(target@, windows@, windows@.len()).len() != 1 && e@
                    == window_error(target@, windows@),
            },
        },
{
    match reject_unsupported_target(unsupported_window_target_reason(target)) {
        Ok(_) => {},
        Err(e) => {
            return Err(e);
        },
    }
    let mut numbers: Vec<usize> = Vec::new();
    let mut lines: Vec<String> = Vec::new();
    let mut i: usize = 0;
    assert(numbers@.map_values(|n: usize| n as int) =~= Seq::empty());
    assert(texts(lines@) =~= window_lines(windows@, Seq::empty()));
    while i < windows.len()
        invariant
            i <= windows@.len(),
            numbers@.map_values(|n: usize| n as int) == matching(target@, windows@, i as nat),
            texts(lines@) == window_lines(windows@, matching(target@, windows@, i as nat)),
        decreases windows@.len() - i,
    {
        let ghost front = numbers@.map_values(|n: usize| n as int);
        let ghost lines_before = texts(lines@);
        if window_matches_target(&windows[i], target) {
            numbers.push(i);
            let line = make_window_line(&windows[i]);
            let ghost added = line@;
            lines.push(line);
            assert(numbers@.map_values(|n: usize| n as int) =~= front.push(i as int));
            assert(texts(lines@) =~= lines_before.push(added));
            assert(window_lines(windows@, front.push(i as int)) =~= lines_before.push(added));
        }
        i = i + 1;
    }
    let ghost chosen = matching(target@, windows@, windows@.len());
    assert(chosen.len() == numbers@.len());
    if numbers.len() == 1 {
        assert(chosen[0] == numbers@[0]);
        assert(chosen =~= seq![numbers@[0] as int]);
        return Ok(numbers[0]);
    }
    let summary = window_target_summary(QuoteStyle::Plain, target);
    if numbers.len() == 0 {
        Err(
            AdapterError::new(
                concat("macOS could not find a window matching ", summary.as_str()),
            ).with_failure_kind(FailureKind::NotFound).with_source(
                window_candidate_diagnostics(target, windows),
            ),
        )
    } else {
        Err(
            AdapterError::new(
                concat("macOS found multiple windows matching ", summary.as_str()),
            ).with_failure_kind(FailureKind::Ambiguous).with_source(join(&lines, "\n")),
        )
    }
}

/// Whether a window that was looked for exists.
pub fn window_exists(found: Result<usize, AdapterError>) -> (r: Result<bool, AdapterError>)
    ensures
        match found {
            Ok(_) => r == Ok::<bool, AdapterError>(true),
            Err(e) => if e@.failure_kind == Some(FailureKind::NotFound) {
                r == Ok::<bool, AdapterError>(false)
            } else {
                r == Err::<bool, AdapterError>(e)
            },
        },
{
    crate::windows::titles::window_exists(found)
}

/// A window as the accessibility service lists it.
#[derive(Debug, PartialEq)]
pub struct AxWindow {
    pub title: String,
    pub bounds: Option<AccessibilityBounds>,
}

/// Whether a window of the accessibility service is a window on the screen: by its title, or by
/// its place where it has none.
pub open spec fn correlates(w: MacWindowView, title: Seq<char>, bounds: Option<AccessibilityBounds>) -> bool {
    ((w.title.len() == 0 || title == w.title) && bounds is Some && roughly_equal(
        bounds->0,
        w.bounds,
    )) || title == w.title
}

/// Finds the window of the accessibility service that is a window on the screen: the first one.
pub fn correlate_window(window: &MacWindow, listed: &Vec<AxWindow>) -> (r: Option<usize>)
    ensures
        match r {
            Some(n) => n < listed@.len() && correlates(
                window@,
                listed@[n as int].title@,
                listed@[n as int].bounds,
            ) && forall|j: int|
                0 <= j < n ==> !correlates(
                    window@,
                    (#[trigger] listed@[j]).title@,
                    listed@[j].bounds,
                ),
            None => forall|j: int|
                0 <= j < listed@.len() ==> !correlates(
                    window@,
                    (#[trigger] listed@[j]).title@,
                    listed@[j].bounds,
                ),
        },
{
    let untitled = window.title.as_str().unicode_len() == 0;
    let mut i: usize = 0;
    while i < listed.len()
        invariant
            i <= listed@.len(),
            untitled == (window.title@.len() == 0),
            forall|j: int|
                0 <= j < i ==> !correlates(
                    window@,
                    (#[trigger] listed@[j]).title@,
                    listed@[j].bounds,
                ),
        decreases listed@.len() - i,
    {
        let same_title = same_text(listed[i].title.as_str(), window.title.as_str());
        let same_place = match listed[i].bounds {
            Some(bounds) => bounds_roughly_equal(bounds, window.bounds),
            None => false,
        };
        if ((untitled || same_title) && same_place) || same_title {
            return Some(i);
        }
        i = i + 1;
    }
    None
}

/// The first of the wanted actions that an element offers.
pub open spec fn first_offered(offered: Seq<Seq<char>>, wanted: Seq<&str>) -> Option<Seq<char>>
    decreases wanted.len(),
{
    if wanted.len() == 0 {
        None
    } else if offered.contains(wanted[0]@) {
        Some(wanted[0]@)
    } else {
        first_offered(offered, wanted.drop_first())
    }
}

fn offers(offered: &Vec<String>, action: &str) -> (r: bool)
    ensures
        r == texts(offered@).contains(action@),
{
    let mut i: usize = 0;
    while i < offered.len()
        invariant
            i <= offered@.len(),
            forall|j: int| 0 <= j < i ==> #[trigger] texts(offered@)[j] != action@,
        decreases offered@.len() - i,
    {
        if same_text(offered[i].as_str(), action) {
            assert(texts(offered@)[i as int] == action@);
            return true;
        }
        i = i + 1;
    }
    false
}

pub fn first_supported_action<'a>(offered: &Vec<String>, wanted: &[&'a str]) -> (r: Option<&'a str>)
    ensures
        match r {
            Some(action) => first_offered(texts(offered@), wanted@) == Some(action@),
            None => first_offered(texts(offered@), wanted@) is None,
        },
{
    let mut i: usize = 0;
    assert(wanted@.skip(0) =~= wanted@);
    while i < wanted.len()
        invariant
            i <= wanted@.len(),
            first_offered(texts(offered@), wanted@) == first_offered(
                texts(offered@),
                wanted@.skip(i as int),
            ),
        decreases wanted@.len() - i,
    {
        assert(wanted@.skip(i as int)[0] == wanted@[i as int]);
        assert(wanted@.skip(i as int).drop_first() =~= wanted@.skip(i + 1));
        if offers(offered, wanted[i]) {
            return Some(wanted[i]);
        }
        i = i + 1;
    }
    None
}

/// The actions by which an element is invoked, the best first.
pub open spec fn invoke_actions() -> Seq<&'static str> {
    seq!["AXPress", "AXConfirm", "AXShowMenu"]
}

/// The actions by which an element is scrolled, the best first.
pub open spec fn scroll_actions(delta_y: i32) -> Seq<&'static str> {
    if delta_y < 0 {
        seq!["AXScrollDown", "AXScrollPageDown"]
    } else {
        seq!["AXScrollUp", "AXScrollPageUp"]
    }
}

pub open spec fn no_such_action() -> AdapterErrorView {
    plain_error(
        RunErrorKind::Unsupported,
        "target does not support the requested semantic action"@,
    )
}

fn offered_or_error(offered: &Vec<String>, wanted: &[&'static str]) -> (r: Result<
    &'static str,
    AdapterError,
>)
    ensures
        match r {
            Ok(action) => first_offered(texts(offered@), wanted@) == Some(action@),
            Err(e) => first_offered(texts(offered@), wanted@) is None && e@ == no_such_action(),
        },
{
    match first_supported_action(offered, wanted) {
        Some(action) => Ok(action),
        None => Err(
            AdapterError::unsupported(
                "target does not support the requested semantic action".to_owned(),
            ),
        ),
    }
}

/// By which of its actions an element is invoked.
pub fn invoke_action(offered: &Vec<String>) -> (r: Result<&'static str, AdapterError>)
    ensures
        match r {
            Ok(action) => first_offered(texts(offered@), invoke_actions()) == Some(action@),
            Err(e) => first_offered(texts(offered@), invoke_actions()) is None && e@
                == no_such_action(),
        },
{
    let wanted = ["AXPress", "AXConfirm", "AXShowMenu"];
    assert(wanted@ =~= invoke_actions());
    offered_or_error(offered, &wanted)
}

/// By which of its actions an element is scrolled; by none where it is not scrolled at all.
pub fn scroll_action(offered: &Vec<String>, delta_y: i32) -> (r: Result<
    Option<&'static str>,
    AdapterError,
>)
    ensures
        match r {
            Ok(None) => delta_y == 0,
            Ok(Some(action)) => delta_y != 0 && first_offered(
                texts(offered@),
                scroll_actions(delta_y),
            ) == Some(action@),
            Err(e) => delta_y != 0 && first_offered(texts(offered@), scroll_actions(delta_y)) is None
                && e@ == no_such_action(),
        },
{
    if delta_y == 0 {
        return Ok(None);
    }
    let wanted = if delta_y < 0 {
        ["AXScrollDown", "AXScrollPageDown"]
    } else {
        ["AXScrollUp", "AXScrollPageUp"]
    };
    assert(wanted@ =~= scroll_actions(delta_y));
    match offered_or_error(offered, &wanted) {
        Ok(action) => Ok(Some(action)),
        Err(e) => Err(e),
    }
}

/// Whether a piece of a path names nothing: an empty one, or the current directory.
pub open spec fn skipped(piece: Seq<char>) -> bool {
    piece.len() == 0 || piece == "."@
}

/// The last piece of a path that names something.
pub open spec fn last_piece(items: Seq<Seq<char>>) -> Option<Seq<char>>
    decreases items.len(),
{
    if items.len() == 0 {
        None
    } else if skipped(items.last()) {
        last_piece(items.drop_last())
    } else {
        Some(items.last())
    }
}

/// A file name without its extension: without the last dot and what follows, unless the dot comes
/// first.
pub open spec fn stem(name: Seq<char>) -> Seq<char> {
    let items = pieces(name, '.');
    if items.len() < 2 || (items.len() == 2 && items[0].len() == 0) {
        name
    } else {
        joined(items.drop_last(), "."@)
    }
}

/// The name of a process by the path of its program, in lower case. A path that ends in no file
/// name stays whole.
pub open spec fn process_name_of(path: Seq<char>) -> Seq<char> {
    let whole = trimmed(path);
    lowercase_of(
        match last_piece(pieces(whole, '/')) {
            None => whole,
            Some(name) => if name == ".."@ {
                whole
            } else {
                stem(name)
            },
        },
    )
}

fn find_last_piece(items: &Vec<String>) -> (r: Option<String>)
    ensures
        crate::text::opt_text(r) == last_piece(texts(items@)),
{
    let ghost all = texts(items@);
    let mut n: usize = items.len();
    assert(all.take(n as int) =~= all);
    while n > 0
        invariant
            n <= items@.len(),
            all == texts(items@),
            last_piece(all) == last_piece(all.take(n as int)),
        decreases n,
    {
        assert(all.take(n as int).last() == items@[n - 1]@);
        assert(all.take(n as int).drop_last() =~= all.take(n - 1));
        let item = &items[n - 1];
        if item.as_str().unicode_len() != 0 && !same_text(item.as_str(), ".") {
            return Some(item.clone());
        }
        n = n - 1;
    }
    None
}

fn file_stem(name: &str) -> (r: String)
    ensures
        r@ == stem(name@),
{
    let mut items = split(name, '.');
    let ghost all = texts(items@);
    assert(all.len() == items@.len());
    if items.len() < 2 {
        return owned(name);
    }
    if items.len() == 2 && items[0].as_str().unicode_len() == 0 {
        assert(all[0] == items@[0]@);
        return owned(name);
    }
    assert(all[0] == items@[0]@);
    let _ = items.pop();
    assert(texts(items@) =~= all.drop_last());
    join(&items, ".")
}

pub fn process_basename(path: &str) -> (r: String)
    ensures
        r@ == process_name_of(path@),
{
    let whole = trim(path);
    let items = split(whole.as_str(), '/');
    let name = match find_last_piece(&items) {
        None => whole,
        Some(name) => if same_text(name.as_str(), "..") {
            whole
        } else {
            file_stem(name.as_str())
        },
    };
    lowercase(name.as_str())
}

/// Whether a program is among the running ones, given a line with the path of each.
pub fn process_listed(lines: &Vec<String>, wanted: &str) -> (r: bool)
    ensures
        r == exists|i: int|
            0 <= i < lines@.len() && same_but_case(
                process_name_of((#[trigger] lines@[i])@),
                lowercase_of(wanted@),
            ),
{
    let lower = lowercase(wanted);
    let mut i: usize = 0;
    while i < lines.len()
        invariant
            i <= lines@.len(),
            lower@ == lowercase_of(wanted@),
            forall|j: int|
                0 <= j < i ==> !same_but_case(
                    process_name_of((#[trigger] lines@[j])@),
                    lowercase_of(wanted@),
                ),
        decreases lines@.len() - i,
    {
        if eq_ignore_ascii_case(process_basename(lines[i].as_str()).as_str(), lower.as_str()) {
            return true;
        }
        i = i + 1;
    }
    false
}

} // verus!
