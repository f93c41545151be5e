//! How targets, elements and windows are described in diagnostics.
use vstd::prelude::*;
use crate::accessibility::{AccessibilityBounds, WindowIdentity, WindowIdentityView};
use crate::definition::{AccessibilityTarget, AccessibilityTargetView, Target, TargetView};
use crate::text::{
    concat, concat3, debug_of, debug_text, decimal, decimal_int, format_i64, format_u64, join,
    joined, opt_text, owned, push_char, replace_char, replaced, texts,
};
use crate::views::opt_view;

verus! {

/// How a text is put in quotes.
#[derive(Debug, Clone, Copy, PartialEq, Eq, Structural)]
pub enum QuoteStyle {
    /// As a Rust literal.
    Literal,
    /// With nothing escaped but the quotes.
    Plain,
}

pub open spec fn quoted(style: QuoteStyle, text: Seq<char>) -> Seq<char> {
    match style {
        QuoteStyle::Literal => debug_of(text),
        QuoteStyle::Plain => "\""@ + replaced(text, '"', "\\\""@) + "\""@,
    }
}

pub fn quote(style: QuoteStyle, text: &str) -> (r: String)
    ensures
        r@ == quoted(style, text@),
{
    match style {
        QuoteStyle::Literal => debug_text(text),
        QuoteStyle::Plain => concat3("\"", replace_char(text, '"', "\\\"").as_str(), "\""),
    }
}

/// A labelled text, where there is one.
pub open spec fn labelled(style: QuoteStyle, label: Seq<char>, text: Option<Seq<char>>) -> Seq<
    Seq<char>,
> {
    match text {
        Some(t) => seq![label + quoted(style, t)],
        None => Seq::empty(),
    }
}

fn add_labelled(items: &mut Vec<String>, style: QuoteStyle, label: &str, text: &Option<String>)
    ensures
        texts(final(items)@) == texts(old(items)@) + labelled(style, label@, opt_text(*text)),
{
    let ghost before = texts(items@);
    match text {
        Some(t) => {
            let item = concat(label, quote(style, t.as_str()).as_str());
            let ghost added = item@;
            items.push(item);
            assert(texts(items@) =~= before + seq![added]);
        },
        None => {
            assert(before + Seq::<Seq<char>>::empty() =~= before);
        },
    }
}

/// The fields of a target by which a window is found.
pub open spec fn window_fields(style: QuoteStyle, t: TargetView) -> Seq<Seq<char>> {
    labelled(style, "windowTitle="@, t.window_title) + labelled(
        style,
        "titleContains="@,
        t.title_contains,
    ) + labelled(style, "processName="@, t.process_name) + labelled(style, "appName="@, t.app_name)
}

pub open spec fn window_summary(style: QuoteStyle, t: TargetView) -> Seq<char> {
    if window_fields(style, t).len() == 0 {
        "no supported window selector fields"@
    } else {
        joined(window_fields(style, t), ", "@)
    }
}

/// Describes by what a window is to be found.
pub fn window_target_summary(style: QuoteStyle, target: &Target) -> (r: String)
    ensures
        r@ == window_summary(style, target@),
{
    let mut fields: Vec<String> = Vec::new();
    assert(texts(fields@) =~= Seq::empty());
    assert(Seq::<Seq<char>>::empty() + labelled(style, "windowTitle="@, target@.window_title)
        =~= labelled(style, "windowTitle="@, target@.window_title));
    add_labelled(&mut fields, style, "windowTitle=", &target.window_title);
    add_labelled(&mut fields, style, "titleContains=", &target.title_contains);
    add_labelled(&mut fields, style, "processName=", &target.process_name);
    add_labelled(&mut fields, style, "appName=", &target.app_name);
    assert(texts(fields@) =~= window_fields(style, target@));
    assert(fields@.len() == texts(fields@).len());
    if fields.len() == 0 {
        owned("no supported window selector fields")
    } else {
        join(&fields, ", ")
    }
}

/// The notation of an accessibility path: child indexes in square brackets.
pub open spec fn path_text(path: Seq<u32>) -> Seq<char> {
    "["@ + joined(path.map_values(|n: u32| decimal(n as nat)), ","@) + "]"@
}

pub fn format_accessibility_path(path: &Vec<u32>) -> (r: String)
    ensures
        r@ == path_text(path@),
{
    let mut items: Vec<String> = Vec::new();
    let mut i: usize = 0;
    while i < path.len()
        invariant
            i <= path@.len(),
            items@.len() == i,
            forall|j: int| 0 <= j < i ==> (#[trigger] items@[j])@ == decimal(path@[j] as nat),
        decreases path@.len() - i,
    {
        items.push(format_u64(path[i] as u64));
        i = i + 1;
    }
    assert(texts(items@) =~= path@.map_values(|n: u32| decimal(n as nat)));
    concat3("[", join(&items, ",").as_str(), "]")
}

/// The path, where there is one.
pub open spec fn opt_path_text(path: Option<Seq<u32>>) -> Seq<char> {
    match path {
        Some(p) => path_text(p),
        None => "none"@,
    }
}

pub fn format_optional_path(path: &Option<Vec<u32>>) -> (r: String)
    ensures
        r@ == opt_path_text(opt_view(*path)),
{
    match path {
        Some(p) => format_accessibility_path(p),
        None => owned("none"),
    }
}

pub open spec fn list_text(items: Seq<Seq<char>>) -> Seq<char> {
    if items.len() == 0 {
        "none"@
    } else {
        joined(items, "; "@)
    }
}

pub fn list_or_none(items: &Vec<String>) -> (r: String)
    ensures
        r@ == list_text(texts(items@)),
{
    assert(texts(items@).len() == items@.len());
    if items.len() == 0 {
        owned("none")
    } else {
        join(items, "; ")
    }
}

pub open spec fn accessibility_fields(t: AccessibilityTargetView) -> Seq<Seq<char>> {
    labelled(QuoteStyle::Literal, "id="@, t.id) + labelled(QuoteStyle::Literal, "name="@, t.name)
        + labelled(QuoteStyle::Literal, "controlType="@, t.control_type) + match t.path {
        Some(path) => seq!["path="@ + path_text(path)],
        None => Seq::empty(),
    }
}

/// Describes by what an element is to be found.
pub fn accessibility_summary(accessibility: &AccessibilityTarget) -> (r: String)
    ensures
        r@ == joined(accessibility_fields(accessibility@), ", "@),
{
    let mut fields: Vec<String> = Vec::new();
    assert(texts(fields@) =~= Seq::empty());
    add_labelled(&mut fields, QuoteStyle::Literal, "id=", &accessibility.id);
    add_labelled(&mut fields, QuoteStyle::Literal, "name=", &accessibility.name);
    add_labelled(&mut fields, QuoteStyle::Literal, "controlType=", &accessibility.control_type);
    let ghost before = texts(fields@);
    if let Some(path) = &accessibility.path {
        let item = concat("path=", format_accessibility_path(path).as_str());
        let ghost added = item@;
        fields.push(item);
        assert(texts(fields@) =~= before + seq![added]);
    }
    assert(texts(fields@) =~= accessibility_fields(accessibility@));
    join(&fields, ", ")
}

pub open spec fn bounds_text(bounds: Option<AccessibilityBounds>) -> Seq<char> {
    match bounds {
        Some(b) => joined(
            seq![
                decimal_int(b.left as int),
                decimal_int(b.top as int),
                decimal_int(b.right as int),
                decimal_int(b.bottom as int),
            ],
            ","@,
        ),
        None => "unknown"@,
    }
}

fn format_bounds(bounds: Option<AccessibilityBounds>) -> (r: String)
    ensures
        r@ == bounds_text(bounds),
{
    match bounds {
        Some(b) => {
            let mut items: Vec<String> = Vec::new();
            items.push(format_i64(b.left as i64));
            items.push(format_i64(b.top as i64));
            items.push(format_i64(b.right as i64));
            items.push(format_i64(b.bottom as i64));
            assert(texts(items@) =~= seq![
                decimal_int(b.left as int),
                decimal_int(b.top as int),
                decimal_int(b.right as int),
                decimal_int(b.bottom as int),
            ]);
            join(&items, ",")
        },
        None => owned("unknown"),
    }
}

pub open spec fn bool_text(b: bool) -> Seq<char> {
    if b {
        "true"@
    } else {
        "false"@
    }
}

pub fn format_bool(b: bool) -> (r: &'static str)
    ensures
        r@ == bool_text(b),
{
    if b {
        "true"
    } else {
        "false"
    }
}

/// Describes a window and the state that it is in.
pub open spec fn identity_text(w: WindowIdentityView) -> Seq<char> {
    debug_of(w.title) + " (handle="@ + w.handle + ", class="@ + debug_of(w.class_name) + ", pid="@
        + decimal(w.process_id as nat) + ", process="@ + (match w.process_name {
        Some(name) => debug_of(name),
        None => "unknown"@,
    }) + ", bounds="@ + bounds_text(w.bounds) + ", foreground="@ + bool_text(w.is_foreground)
        + ", minimized="@ + bool_text(w.is_minimized) + ", owner="@ + (match w.owner {
        Some(owner) => owner,
        None => "none"@,
    }) + ")"@
}

pub fn format_window_identity(identity: &WindowIdentity) -> (r: String)
    ensures
        r@ == identity_text(identity@),
{
    let mut out = debug_text(identity.title.as_str());
    out.append(" (handle=");
    out.append(identity.handle.as_str());
    out.append(", class=");
    out.append(debug_text(identity.class_name.as_str()).as_str());
    out.append(", pid=");
    out.append(format_u64(identity.process_id as u64).as_str());
    out.append(", process=");
    match &identity.process_name {
        Some(name) => {
            out.append(debug_text(name.as_str()).as_str());
        },
        None => {
            out.append("unknown");
        },
    }
    out.append(", bounds=");
    out.append(format_bounds(identity.bounds).as_str());
    out.append(", foreground=");
    out.append(format_bool(identity.is_foreground));
    out.append(", minimized=");
    out.append(format_bool(identity.is_minimized));
    out.append(", owner=");
    match &identity.owner {
        Some(owner) => {
            out.append(owner.as_str());
        },
        None => {
            out.append("none");
        },
    }
    out.append(")");
    out
}

/// A text with every character that does not belong in a file name replaced by a hyphen.
pub open spec fn safe_component(text: Seq<char>) -> Seq<char> {
    text.map_values(
        |c: char|
            if crate::validate::alphanumeric(c) || c == '-' || c == '_' || c == '.' {
                c
            } else {
                '-'
            },
    )
}

pub fn safe_artifact_component(value: &str) -> (r: String)
    ensures
        r@ == safe_component(value@),
{
    let chars = crate::text::to_chars(value);
    let mut out = String::new();
    let mut i: usize = 0;
    while i < chars.len()
        invariant
            i <= chars@.len(),
            chars@ == value@,
            out@ == safe_component(value@).take(i as int),
        decreases chars@.len() - i,
    {
        let c: char = chars[i];
        let keep = crate::validate::is_alphanumeric(c) || c == '-' || c == '_' || c == '.';
        push_char(
            &mut out,
            if keep {
                c
            } else {
                '-'
            },
        );
        assert(safe_component(value@).take(i + 1) =~= safe_component(value@).take(i as int).push(
            safe_component(value@)[i as int],
        ));
        i = i + 1;
    }
    assert(safe_component(value@).take(i as int) =~= safe_component(value@));
    out
}

/// A safe component holds nothing but letters, digits, hyphens, underscores and dots, and making it
/// safe again changes nothing.
pub proof fn safe_component_is_safe(text: Seq<char>)
    ensures
        forall|i: int|
            0 <= i < safe_component(text).len() ==> crate::validate::alphanumeric(
                #[trigger] safe_component(text)[i],
            ) || safe_component(text)[i] == '-' || safe_component(text)[i] == '_' || safe_component(
                text,
            )[i] == '.',
        safe_component(safe_component(text)) == safe_component(text),
{
    assert(safe_component(safe_component(text)) =~= safe_component(text));
}

} // verus!
