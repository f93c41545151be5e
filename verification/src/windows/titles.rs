//! Finding a window by its title.
use vstd::prelude::*;
use crate::accessibility::WindowIdentity;
use crate::adapter::{plain_error, AdapterError, AdapterErrorView};
use crate::definition::{Target, TargetView};
use crate::describe::{
    format_window_identity, identity_text, list_or_none, list_text, window_summary,
    window_target_summary, QuoteStyle,
};
use crate::run::{FailureKind, RunErrorKind};
use crate::text::{
    concat, concat4, contains, contains_text, eq_ignore_ascii_case, is_space, is_space_char, joined,
    lowercase, lowercase_of, push_char, same_but_case, texts, to_chars,
};

verus! {

/// What separates words in a title: whitespace, and characters that show nothing.
pub open spec fn separates(c: char) -> bool {
    is_space(c) || c == '\u{200B}' || c == '\u{200C}' || c == '\u{200D}' || c == '\u{FEFF}'
}

fn is_separator(c: char) -> (r: bool)
    ensures
        r == separates(c),
{
    is_space_char(c) || c == '\u{200B}' || c == '\u{200C}' || c == '\u{200D}' || c == '\u{FEFF}'
}

/// The words of a text.
pub open spec fn words(text: Seq<char>) -> Seq<Seq<char>>
    decreases text.len(),
{
    if text.len() == 0 {
        Seq::empty()
    } else {
        let front = text.drop_last();
        let earlier = words(front);
        if separates(text.last()) {
            earlier
        } else if front.len() > 0 && !separates(front.last()) {
            earlier.drop_last().push(earlier.last().push(text.last()))
        } else {
            earlier.push(seq![text.last()])
        }
    }
}

/// A title with one space between each two words, and none at the ends.
pub open spec fn normalized(title: Seq<char>) -> Seq<char> {
    joined(words(title), " "@)
}

proof fn word_open(text: Seq<char>)
    requires
        text.len() > 0,
        !separates(text.last()),
    ensures
        words(text).len() > 0,
    decreases text.len(),
{
    let front = text.drop_last();
    if front.len() > 0 && !separates(front.last()) {
        word_open(front);
    }
}

proof fn longer_last(items: Seq<Seq<char>>, c: char)
    requires
        items.len() > 0,
    ensures
        joined(items.drop_last().push(items.last().push(c)), " "@) == joined(items, " "@).push(c),
{
    let more = items.drop_last().push(items.last().push(c));
    assert(more.drop_last() =~= items.drop_last());
    if items.len() == 1 {
        assert(more[0] == items[0].push(c));
    } else {
        assert(joined(more, " "@) =~= joined(items, " "@).push(c));
    }
}

pub fn normalize_window_title(title: &str) -> (r: String)
    ensures
        r@ == normalized(title@),
{
    let chars = to_chars(title);
    let mut out = String::new();
    let mut in_word = false;
    let mut any_word = false;
    let mut i: usize = 0;
    assert(chars@.take(0) =~= Seq::empty());
    while i < chars.len()
        invariant
            i <= chars@.len(),
            out@ == joined(words(chars@.take(i as int)), " "@),
            in_word == (i > 0 && !separates(chars@[i - 1])),
            any_word == (words(chars@.take(i as int)).len() > 0),
        decreases chars@.len() - i,
    {
        let c = chars[i];
        let ghost front = chars@.take(i as int);
        let ghost earlier = words(front);
        let ghost before = out@;
        proof {
            assert(chars@.take(i + 1).drop_last() =~= front);
            assert(chars@.take(i + 1).last() == c);
            if i > 0 {
                assert(front.last() == chars@[i - 1]);
            }
        }
        if is_separator(c) {
            in_word = false;
        } else {
            if in_word {
                proof {
                    word_open(front);
                    longer_last(earlier, c);
                }
                push_char(&mut out, c);
            } else {
                proof {
                    let more = earlier.push(seq![c]);
                    assert(more.drop_last() =~= earlier);
                    assert(more.last() == seq![c]);
                    if earlier.len() == 0 {
                        assert(more[0] == seq![c]);
                    }
                }
                if any_word {
                    out.append(" ");
                }
                push_char(&mut out, c);
                proof {
                    if earlier.len() == 0 {
                        assert(out@ =~= seq![c]);
                    } else {
                        assert(out@ =~= before + " "@ + seq![c]);
                    }
                }
            }
            in_word = true;
            any_word = true;
        }
        i = i + 1;
    }
    assert(chars@.take(i as int) =~= chars@);
    out
}

/// How a window is recognised by its title.
#[derive(Debug)]
pub enum WindowTitleMatcher<'a> {
    Exact(&'a str),
    Contains(&'a str),
}

/// Whether a title is the one that a target asks for: the same but for case and spacing, or one
/// with the wanted part in it.
pub open spec fn title_matches(t: TargetView, title: Seq<char>) -> bool {
    match (t.window_title, t.title_contains) {
        (Some(wanted), None) => same_but_case(normalized(title), normalized(wanted)),
        (None, Some(part)) => contains_text(
            lowercase_of(normalized(title)),
            lowercase_of(normalized(part)),
        ),
        _ => false,
    }
}

/// Why a target does not say by which title a window is to be found.
pub open spec fn matcher_problem(t: TargetView) -> Option<Seq<char>> {
    match (t.window_title, t.title_contains) {
        (Some(_), Some(_)) => Some(
            "Windows window queries require exactly one of windowTitle or titleContains"@,
        ),
        (None, None) => Some("Windows window queries require windowTitle or titleContains"@),
        _ => None,
    }
}

impl<'a> WindowTitleMatcher<'a> {
    pub open spec fn accepts(&self, title: Seq<char>) -> bool {
        match *self {
            WindowTitleMatcher::Exact(wanted) => same_but_case(
                normalized(title),
                normalized(wanted@),
            ),
            WindowTitleMatcher::Contains(part) => contains_text(
                lowercase_of(normalized(title)),
                lowercase_of(normalized(part@)),
            ),
        }
    }

    pub fn from_target(target: &'a Target) -> (r: Result<Self, AdapterError>)
        ensures
            match r {
                Ok(matcher) => matcher_problem(target@) is None && forall|title: Seq<char>|
                    #[trigger] matcher.accepts(title) == title_matches(target@, title),
                Err(e) => matcher_problem(target@) matches Some(reason) && e@ == plain_error(
                    RunErrorKind::Unsupported,
                    reason,
                ),
            },
    {
        match (&target.window_title, &target.title_contains) {
            (Some(title), None) => Ok(WindowTitleMatcher::Exact(title.as_str())),
            (None, Some(part)) => Ok(WindowTitleMatcher::Contains(part.as_str())),
            (Some(_), Some(_)) => Err(
                AdapterError::unsupported(
                    "Windows window queries require exactly one of windowTitle or titleContains".to_owned(),
                ),
            ),
            (None, None) => Err(
                AdapterError::unsupported(
                    "Windows window queries require windowTitle or titleContains".to_owned(),
                ),
            ),
        }
    }

    pub fn matches(&self, window_title: &str) -> (r: bool)
        ensures
            r == self.accepts(window_title@),
    {
        let title = normalize_window_title(window_title);
        match self {
            WindowTitleMatcher::Exact(wanted) => {
                let wanted = normalize_window_title(wanted);
                eq_ignore_ascii_case(title.as_str(), wanted.as_str())
            },
            WindowTitleMatcher::Contains(part) => {
                let part = normalize_window_title(part);
                contains(lowercase(title.as_str()).as_str(), lowercase(part.as_str()).as_str())
            },
        }
    }
}

/// A visible window: its title, and what else could be learned of it.
#[derive(Debug, PartialEq)]
pub struct SeenWindow {
    pub title: String,
    pub identity: Option<WindowIdentity>,
}

/// The numbers of the first `n` windows that a target asks for.
pub open spec fn matching(t: TargetView, windows: Seq<SeenWindow>, n: nat) -> Seq<int>
    decreases n,
{
    if n == 0 || n > windows.len() {
        Seq::empty()
    } else {
        let front = matching(t, windows, (n - 1) as nat);
        if title_matches(t, windows[n - 1].title@) {
            front.push(n - 1)
        } else {
            front
        }
    }
}

/// The descriptions of the first `n` of the windows with these numbers, as far as they are known.
pub open spec fn descriptions(windows: Seq<SeenWindow>, numbers: Seq<int>, n: nat) -> Seq<Seq<char>>
    decreases n,
{
    if n == 0 || n > numbers.len() {
        Seq::empty()
    } else {
        let front = descriptions(windows, numbers, (n - 1) as nat);
        match windows[numbers[n - 1]].identity {
            Some(identity) => front.push(identity_text(identity@)),
            None => front,
        }
    }
}

pub open spec fn at_most(n: nat, limit: nat) -> nat {
    if n <= limit {
        n
    } else {
        limit
    }
}

/// What the search for a window found, in words; no more than eight windows are named.
pub open spec fn search_text(t: TargetView, windows: Seq<SeenWindow>, numbers: Seq<int>) -> Seq<char> {
    "selector: "@ + window_summary(QuoteStyle::Literal, t) + "; visible window matches: "@
        + list_text(descriptions(windows, numbers, at_most(numbers.len(), 8)))
}

fn describe_search(target: &Target, windows: &Vec<SeenWindow>, numbers: &Vec<usize>) -> (r: String)
    requires
        forall|i: int| 0 <= i < numbers@.len() ==> #[trigger] numbers@[i] < windows@.len(),
    ensures
        r@ == search_text(target@, windows@, numbers@.map_values(|n: usize| n as int)),
{
    let ghost chosen = numbers@.map_values(|n: usize| n as int);
    let mut named: Vec<String> = Vec::new();
    let limit: usize = if numbers.len() <= 8 {
        numbers.len()
    } else {
        8
    };
    let mut i: usize = 0;
    assert(texts(named@) =~= Seq::empty());
    while i < limit
        invariant
            i <= limit <= numbers@.len(),
            limit == at_most(numbers@.len(), 8),
            chosen == numbers@.map_values(|n: usize| n as int),
            forall|i: int| 0 <= i < numbers@.len() ==> #[trigger] numbers@[i] < windows@.len(),
            texts(named@) == descriptions(windows@, chosen, i as nat),
        decreases limit - i,
    {
        let ghost front = texts(named@);
        assert(chosen[i as int] == numbers@[i as int]);
        match &windows[numbers[i]].identity {
            Some(identity) => {
                let text = format_window_identity(identity);
                let ghost added = text@;
                named.push(text);
                assert(texts(named@) =~= front.push(added));
            },
            None => {},
        }
        i = i + 1;
    }
    concat4(
        "selector: ",
        window_target_summary(QuoteStyle::Literal, target).as_str(),
        "; visible window matches: ",
        list_or_none(&named).as_str(),
    )
}

/// The error where no window, or more than one, is what a target asks for.
pub open spec fn window_error(t: TargetView, windows: Seq<SeenWindow>) -> AdapterErrorView {
    let numbers = matching(t, windows, windows.len());
    if numbers.len() == 0 {
        AdapterErrorView {
            message: "requested window was not found"@,
            kind: RunErrorKind::Adapter,
            diagnostics: Some("failureKind=notFound; "@ + search_text(t, windows, numbers)),
            failure_kind: Some(FailureKind::NotFound),
        }
    } else {
        AdapterErrorView {
            message: "requested window selector matched multiple visible windows"@,
            kind: RunErrorKind::Adapter,
            diagnostics: Some("failureKind=ambiguous; "@ + search_text(t, windows, numbers)),
            failure_kind: Some(FailureKind::Ambiguous),
        }
    }
}

/// Picks the window that a target asks for among the visible ones. There has to be exactly one.
pub fn find_window(target: &Target, windows: &Vec<SeenWindow>) -> (r: Result<usize, AdapterError>)
    ensures
        match r {
            Ok(number) => matcher_problem(target@) is None && matching(
                target@,
                windows@,
                windows@.len(),
            ) == seq![number as int],
            Err(e) => if matcher_problem(target@) is Some {
                e@ == plain_error(RunErrorKind::Unsupported, matcher_problem(target@)->0)
            } else {
                matching(target@, windows@, windows@.len()).len() != 1 && e@ == window_error(
                    target@,
                    windows@,
                )
            },
        },
{
    let matcher = match WindowTitleMatcher::from_target(target) {
        Ok(matcher) => matcher,
        Err(e) => {
            return Err(e);
        },
    };
    let mut numbers: Vec<usize> = Vec::new();
    let mut i: usize = 0;
    assert(numbers@.map_values(|n: usize| n as int) =~= Seq::empty());
    while i < windows.len()
        invariant
            i <= windows@.len(),
            forall|title: Seq<char>|
                #[trigger] matcher.accepts(title) == title_matches(target@, title),
            numbers@.map_values(|n: usize| n as int) == matching(target@, windows@, i as nat),
            forall|k: int| 0 <= k < numbers@.len() ==> #[trigger] numbers@[k] < windows@.len(),
        decreases windows@.len() - i,
    {
        let ghost front = numbers@.map_values(|n: usize| n as int);
        if matcher.matches(windows[i].title.as_str()) {
            numbers.push(i);
            assert(numbers@.map_values(|n: usize| n as int) =~= front.push(i as int));
        }
        i = i + 1;
    }
    let ghost chosen = matching(target@, windows@, windows@.len());
    assert(chosen.len() == numbers@.len());
    if numbers.len() == 1 {
        assert(chosen[0] == numbers@[0]);
        assert(chosen =~= seq![numbers@[0] as int]);
        return Ok(numbers[0]);
    }
    let found = describe_search(target, windows, &numbers);
    if numbers.len() == 0 {
        Err(
            AdapterError::new("requested window was not found".to_owned()).with_failure_kind(
                FailureKind::NotFound,
            ).with_source(concat("failureKind=notFound; ", found.as_str())),
        )
    } else {
        Err(
            AdapterError::new(
                "requested window selector matched multiple visible windows".to_owned(),
            ).with_failure_kind(FailureKind::Ambiguous).with_source(
                concat("failureKind=ambiguous; ", found.as_str()),
            ),
        )
    }
}

/// Whether a window that was looked for exists: one that was not found does not, and any other
/// error stays an error.
pub fn window_exists(found: Result<usize, AdapterError>) -> (r: Result<bool, AdapterError>)
    ensures
        match found {
            Ok(_) => r == Ok::<bool, AdapterError>(true),
            Err(e) => if e@.failure_kind == Some(FailureKind::NotFound) {
                r == Ok::<bool, AdapterError>(false)
            } else {
                r == Err::<bool, AdapterError>(e)
            },
        },
{
    match found {
        Ok(_) => Ok(true),
        Err(e) => if has_failure_kind(&e, FailureKind::NotFound) {
            Ok(false)
        } else {
            Err(e)
        },
    }
}

pub fn has_failure_kind(error: &AdapterError, kind: FailureKind) -> (r: bool)
    ensures
        r == (error@.failure_kind == Some(kind)),
{
    match error.failure_kind() {
        Some(k) => k == kind,
        None => false,
    }
}

/// A window is found by the same title that it was described with, whatever the case of its
/// letters and however its words are spaced.
pub proof fn own_title_matches(t: TargetView, title: Seq<char>, other: Seq<char>)
    requires
        t.window_title == Some(title),
        t.title_contains is None,
        same_but_case(normalized(other), normalized(title)),
    ensures
        title_matches(t, title),
        title_matches(t, other),
{
}

} // verus!
