//! `${name}` references in texts and values.
use vstd::prelude::*;
use crate::text::{decimal, decimal_int, format_i64, format_u64, from_chars, owned, texts, to_chars};
use crate::validate::{Problem, ValidationError};
use crate::value::{array_tree, entry_trees, object_tree, trees, Json, JsonNumber, NumberView, Tree};
use crate::definition::VariableType;

verus! {

/// Why a secret could not be had.
#[derive(Debug, PartialEq, Eq)]
pub enum SecretResolutionError {
    Unavailable { reference: String },
    Failed { reference: String },
}

/// What a [`SecretResolutionError`] stands for.
pub enum SecretFailure {
    Unavailable { reference: Seq<char> },
    Failed { reference: Seq<char> },
}

impl View for SecretResolutionError {
    type V = SecretFailure;

    open spec fn view(&self) -> SecretFailure {
        match *self {
            SecretResolutionError::Unavailable { reference } => SecretFailure::Unavailable {
                reference: reference@,
            },
            SecretResolutionError::Failed { reference } => SecretFailure::Failed {
                reference: reference@,
            },
        }
    }
}

/// Why the variables of a run could not be resolved.
#[derive(Debug)]
pub enum VariableResolutionError {
    InvalidDefinition(ValidationError),
    UndeclaredVariable(String),
    MissingRequiredVariable(String),
    MissingVariableValue(String),
    UnknownVariable(String),
    CircularReference(String),
    MalformedInterpolation,
    NonScalarInterpolation,
    InvalidValueType { name: String, expected: VariableType },
    InvalidInterpolatedStep,
    InvalidResolvedDefinition(ValidationError),
    Secret(SecretResolutionError),
}

/// What a [`VariableResolutionError`] stands for, or what else keeps a variable from a value.
pub enum Failure {
    InvalidDefinition(Problem),
    UndeclaredVariable(Seq<char>),
    MissingRequiredVariable(Seq<char>),
    MissingVariableValue(Seq<char>),
    UnknownVariable(Seq<char>),
    CircularReference(Seq<char>),
    MalformedInterpolation,
    NonScalarInterpolation,
    InvalidValueType { name: Seq<char>, expected: VariableType },
    InvalidInterpolatedStep,
    InvalidResolvedDefinition(Problem),
    Secret(SecretFailure),
    /// A secret is needed that nobody was asked for yet.
    Unasked { name: Seq<char>, reference: Seq<char> },
}

impl View for VariableResolutionError {
    type V = Failure;

    open spec fn view(&self) -> Failure {
        match *self {
            VariableResolutionError::InvalidDefinition(e) => Failure::InvalidDefinition(e@),
            VariableResolutionError::UndeclaredVariable(n) => Failure::UndeclaredVariable(n@),
            VariableResolutionError::MissingRequiredVariable(n) =>
                Failure::MissingRequiredVariable(n@),
            VariableResolutionError::MissingVariableValue(n) => Failure::MissingVariableValue(n@),
            VariableResolutionError::UnknownVariable(n) => Failure::UnknownVariable(n@),
            VariableResolutionError::CircularReference(n) => Failure::CircularReference(n@),
            VariableResolutionError::MalformedInterpolation => Failure::MalformedInterpolation,
            VariableResolutionError::NonScalarInterpolation => Failure::NonScalarInterpolation,
            VariableResolutionError::InvalidValueType { name, expected } =>
                Failure::InvalidValueType { name: name@, expected },
            VariableResolutionError::InvalidInterpolatedStep => Failure::InvalidInterpolatedStep,
            VariableResolutionError::InvalidResolvedDefinition(e) =>
                Failure::InvalidResolvedDefinition(e@),
            VariableResolutionError::Secret(e) => Failure::Secret(e@),
        }
    }
}

/// The position of the first `${` in a text.
pub open spec fn find_open(text: Seq<char>) -> Option<int>
    decreases text.len(),
{
    if text.len() < 2 {
        None
    } else if text[0] == '$' && text[1] == '{' {
        Some(0)
    } else {
        match find_open(text.drop_first()) {
            Some(i) => Some(i + 1),
            None => None,
        }
    }
}

/// The position of the first `}` in a text.
pub open spec fn find_close(text: Seq<char>) -> Option<int>
    decreases text.len(),
{
    if text.len() == 0 {
        None
    } else if text[0] == '}' {
        Some(0)
    } else {
        match find_close(text.drop_first()) {
            Some(i) => Some(i + 1),
            None => None,
        }
    }
}

/// The first reference of a text.
pub enum Reference {
    /// There is none.
    Absent,
    /// A `${` without a `}` after it, or without a name before it.
    Malformed,
    /// What stands before the reference, the name in it, and what stands behind it.
    Found { prefix: Seq<char>, name: Seq<char>, suffix: Seq<char> },
}

pub open spec fn first_reference(text: Seq<char>) -> Reference {
    match find_open(text) {
        None => Reference::Absent,
        Some(start) => {
            let after = text.skip(start + 2);
            match find_close(after) {
                None => Reference::Malformed,
                Some(end) => if end == 0 {
                    Reference::Malformed
                } else {
                    Reference::Found {
                        prefix: text.take(start),
                        name: after.take(end),
                        suffix: after.skip(end + 1),
                    }
                },
            }
        },
    }
}

proof fn find_open_bounds(text: Seq<char>)
    ensures
        match find_open(text) {
            Some(i) => 0 <= i && i + 2 <= text.len() && text[i] == '$' && text[i + 1] == '{',
            None => true,
        },
    decreases text.len(),
{
    if text.len() >= 2 && !(text[0] == '$' && text[1] == '{') {
        find_open_bounds(text.drop_first());
    }
}

proof fn find_close_bounds(text: Seq<char>)
    ensures
        match find_close(text) {
            Some(i) => 0 <= i < text.len() && text[i] == '}',
            None => true,
        },
    decreases text.len(),
{
    if text.len() > 0 && text[0] != '}' {
        find_close_bounds(text.drop_first());
    }
}

/// What stands behind a reference is shorter than the text.
pub proof fn suffix_shorter(text: Seq<char>)
    ensures
        first_reference(text) matches Reference::Found { prefix, name, suffix } ==> suffix.len()
            < text.len(),
{
    find_open_bounds(text);
    if let Some(start) = find_open(text) {
        find_close_bounds(text.skip(start + 2));
    }
}

/// The names that a text refers to, from left to right; nothing where a `${` opens no reference.
pub open spec fn text_references(text: Seq<char>) -> Option<Seq<Seq<char>>>
    decreases text.len(),
    via text_references_decreases
{
    match first_reference(text) {
        Reference::Absent => Some(Seq::empty()),
        Reference::Malformed => None,
        Reference::Found { prefix, name, suffix } => match text_references(suffix) {
            Some(rest) => Some(seq![name] + rest),
            None => None,
        },
    }
}

#[via_fn]
proof fn text_references_decreases(text: Seq<char>) {
    suffix_shorter(text);
}

/// The text of a number.
pub open spec fn number_text(n: NumberView) -> Seq<char> {
    match n {
        NumberView::PosInt(n) => decimal(n as nat),
        NumberView::NegInt(n) => decimal_int(n as int),
        NumberView::Float(text) => text,
    }
}

/// The text that stands for a value inside another text; only strings, booleans and numbers have
/// one.
pub open spec fn scalar_text(value: Tree) -> Result<Seq<char>, Failure> {
    match value {
        Tree::Text(text) => Ok(text),
        Tree::Bool(b) => Ok(
            if b {
                "true"@
            } else {
                "false"@
            },
        ),
        Tree::Number(n) => Ok(number_text(n)),
        _ => Err(Failure::NonScalarInterpolation),
    }
}

/// What a name stands for, or why it stands for nothing.
pub type Lookup = spec_fn(Seq<char>) -> Result<Tree, Failure>;

/// `output` followed by `text` with its references replaced. A last reference with nothing before
/// it and nothing behind it keeps the type of its value; any other is replaced by the text of its
/// value.
pub open spec fn interpolated_text(output: Seq<char>, text: Seq<char>, vars: Lookup) -> Result<
    Tree,
    Failure,
>
    decreases text.len(),
    via interpolated_text_decreases
{
    match first_reference(text) {
        Reference::Absent => Ok(Tree::Text(output + text)),
        Reference::Malformed => Err(Failure::MalformedInterpolation),
        Reference::Found { prefix, name, suffix } => match vars(name) {
            Err(e) => Err(e),
            Ok(value) => if (output + prefix).len() == 0 && suffix.len() == 0 {
                Ok(value)
            } else {
                match scalar_text(value) {
                    Err(e) => Err(e),
                    Ok(shown) => interpolated_text(output + prefix + shown, suffix, vars),
                }
            },
        },
    }
}

#[via_fn]
proof fn interpolated_text_decreases(output: Seq<char>, text: Seq<char>, vars: Lookup) {
    suffix_shorter(text);
}

/// A value with the references in all its texts replaced, from left to right.
pub open spec fn interpolated(value: Tree, vars: Lookup) -> Result<Tree, Failure>
    decreases value, 0nat,
{
    match value {
        Tree::Text(text) => interpolated_text(Seq::empty(), text, vars),
        Tree::Array(items) => match interpolated_items(items, items.len(), vars) {
            Ok(done) => Ok(Tree::Array(done)),
            Err(e) => Err(e),
        },
        Tree::Object(entries) => match interpolated_entries(entries, entries.len(), vars) {
            Ok(done) => Ok(Tree::Object(done)),
            Err(e) => Err(e),
        },
        _ => Ok(value),
    }
}

pub open spec fn interpolated_items(items: Seq<Tree>, n: nat, vars: Lookup) -> Result<
    Seq<Tree>,
    Failure,
>
    decreases items, n,
{
    if n == 0 || n > items.len() {
        Ok(Seq::empty())
    } else {
        match interpolated_items(items, (n - 1) as nat, vars) {
            Err(e) => Err(e),
            Ok(done) => match interpolated(items[n - 1], vars) {
                Err(e) => Err(e),
                Ok(value) => Ok(done.push(value)),
            },
        }
    }
}

pub open spec fn interpolated_entries(
    entries: Seq<(Seq<char>, Tree)>,
    n: nat,
    vars: Lookup,
) -> Result<Seq<(Seq<char>, Tree)>, Failure>
    decreases entries, n,
{
    if n == 0 || n > entries.len() {
        Ok(Seq::empty())
    } else {
        match interpolated_entries(entries, (n - 1) as nat, vars) {
            Err(e) => Err(e),
            Ok(done) => match interpolated(entries[n - 1].1, vars) {
                Err(e) => Err(e),
                Ok(value) => Ok(done.push((entries[n - 1].0, value))),
            },
        }
    }
}

/// The names that the texts of a value refer to, from left to right; nothing where a `${` in one
/// of them opens no reference.
pub open spec fn references(value: Tree) -> Option<Seq<Seq<char>>>
    decreases value, 0nat,
{
    match value {
        Tree::Text(text) => text_references(text),
        Tree::Array(items) => item_references(items, items.len()),
        Tree::Object(entries) => entry_references(entries, entries.len()),
        _ => Some(Seq::empty()),
    }
}

pub open spec fn item_references(items: Seq<Tree>, n: nat) -> Option<Seq<Seq<char>>>
    decreases items, n,
{
    if n == 0 || n > items.len() {
        Some(Seq::empty())
    } else {
        match (item_references(items, (n - 1) as nat), references(items[n - 1])) {
            (Some(front), Some(last)) => Some(front + last),
            _ => None,
        }
    }
}

pub open spec fn entry_references(entries: Seq<(Seq<char>, Tree)>, n: nat) -> Option<Seq<Seq<char>>>
    decreases entries, n,
{
    if n == 0 || n > entries.len() {
        Some(Seq::empty())
    } else {
        match (entry_references(entries, (n - 1) as nat), references(entries[n - 1].1)) {
            (Some(front), Some(last)) => Some(front + last),
            _ => None,
        }
    }
}

/// Whether two lookups answer alike for every one of the names.
pub open spec fn agree(names: Seq<Seq<char>>, f: Lookup, g: Lookup) -> bool {
    forall|i: int| 0 <= i < names.len() ==> f(#[trigger] names[i]) == g(names[i])
}

proof fn agree_concat(a: Seq<Seq<char>>, b: Seq<Seq<char>>, f: Lookup, g: Lookup)
    requires
        agree(a + b, f, g),
    ensures
        agree(a, f, g),
        agree(b, f, g),
{
    assert forall|i: int| 0 <= i < a.len() implies f(#[trigger] a[i]) == g(a[i]) by {
        assert((a + b)[i] == a[i]);
    }
    assert forall|i: int| 0 <= i < b.len() implies f(#[trigger] b[i]) == g(b[i]) by {
        assert((a + b)[i + a.len()] == b[i]);
    }
}

/// What a text becomes depends only on the names that it refers to.
pub proof fn text_depends_on_references(output: Seq<char>, text: Seq<char>, f: Lookup, g: Lookup)
    requires
        text_references(text) is Some,
        agree(text_references(text)->0, f, g),
    ensures
        interpolated_text(output, text, f) == interpolated_text(output, text, g),
    decreases text.len(),
{
    suffix_shorter(text);
    if let Reference::Found { prefix, name, suffix } = first_reference(text) {
        let rest = text_references(suffix)->0;
        agree_concat(seq![name], rest, f, g);
        assert(f(seq![name][0]) == g(seq![name][0]));
        if let Ok(value) = f(name) {
            if let Ok(shown) = scalar_text(value) {
                text_depends_on_references(output + prefix + shown, suffix, f, g);
            }
        }
    }
}

/// What a value becomes depends only on the names that it refers to.
pub proof fn value_depends_on_references(value: Tree, f: Lookup, g: Lookup)
    requires
        references(value) is Some,
        agree(references(value)->0, f, g),
    ensures
        interpolated(value, f) == interpolated(value, g),
    decreases value, 0nat,
{
    match value {
        Tree::Text(text) => text_depends_on_references(Seq::empty(), text, f, g),
        Tree::Array(items) => items_depend_on_references(items, items.len(), f, g),
        Tree::Object(entries) => entries_depend_on_references(entries, entries.len(), f, g),
        _ => {},
    }
}

proof fn items_depend_on_references(items: Seq<Tree>, n: nat, f: Lookup, g: Lookup)
    requires
        item_references(items, n) is Some,
        agree(item_references(items, n)->0, f, g),
    ensures
        interpolated_items(items, n, f) == interpolated_items(items, n, g),
    decreases items, n,
{
    if n > 0 && n <= items.len() {
        agree_concat(
            item_references(items, (n - 1) as nat)->0,
            references(items[n - 1])->0,
            f,
            g,
        );
        items_depend_on_references(items, (n - 1) as nat, f, g);
        value_depends_on_references(items[n - 1], f, g);
    }
}

proof fn entries_depend_on_references(
    entries: Seq<(Seq<char>, Tree)>,
    n: nat,
    f: Lookup,
    g: Lookup,
)
    requires
        entry_references(entries, n) is Some,
        agree(entry_references(entries, n)->0, f, g),
    ensures
        interpolated_entries(entries, n, f) == interpolated_entries(entries, n, g),
    decreases entries, n,
{
    if n > 0 && n <= entries.len() {
        agree_concat(
            entry_references(entries, (n - 1) as nat)->0,
            references(entries[n - 1].1)->0,
            f,
            g,
        );
        entries_depend_on_references(entries, (n - 1) as nat, f, g);
        value_depends_on_references(entries[n - 1].1, f, g);
    }
}

/// A value without references stays as it is.
pub proof fn value_without_references(value: Tree, vars: Lookup)
    requires
        references(value) == Some(Seq::<Seq<char>>::empty()),
    ensures
        interpolated(value, vars) == Ok::<Tree, Failure>(value),
    decreases value, 0nat,
{
    match value {
        Tree::Text(text) => {
            suffix_shorter(text);
            if let Reference::Found { prefix, name, suffix } = first_reference(text) {
                assert((seq![name] + text_references(suffix)->0).len() > 0);
            }
            assert(Seq::<char>::empty() + text =~= text);
        },
        Tree::Array(items) => {
            items_without_references(items, items.len(), vars);
            assert(items.take(items.len() as int) =~= items);
        },
        Tree::Object(entries) => {
            entries_without_references(entries, entries.len(), vars);
            assert(entries.take(entries.len() as int) =~= entries);
        },
        _ => {},
    }
}

proof fn items_without_references(items: Seq<Tree>, n: nat, vars: Lookup)
    requires
        n <= items.len(),
        item_references(items, n) == Some(Seq::<Seq<char>>::empty()),
    ensures
        interpolated_items(items, n, vars) == Ok::<Seq<Tree>, Failure>(items.take(n as int)),
    decreases items, n,
{
    if n > 0 {
        let front = item_references(items, (n - 1) as nat)->0;
        let last = references(items[n - 1])->0;
        assert((front + last).len() == front.len() + last.len());
        assert(front =~= Seq::empty());
        assert(last =~= Seq::empty());
        items_without_references(items, (n - 1) as nat, vars);
        value_without_references(items[n - 1], vars);
        assert(items.take(n as int) =~= items.take(n - 1).push(items[n - 1]));
    } else {
        assert(items.take(0) =~= Seq::empty());
    }
}

proof fn entries_without_references(entries: Seq<(Seq<char>, Tree)>, n: nat, vars: Lookup)
    requires
        n <= entries.len(),
        entry_references(entries, n) == Some(Seq::<Seq<char>>::empty()),
    ensures
        interpolated_entries(entries, n, vars) == Ok::<Seq<(Seq<char>, Tree)>, Failure>(
            entries.take(n as int),
        ),
    decreases entries, n,
{
    if n > 0 {
        let front = entry_references(entries, (n - 1) as nat)->0;
        let last = references(entries[n - 1].1)->0;
        assert((front + last).len() == front.len() + last.len());
        assert(front =~= Seq::empty());
        assert(last =~= Seq::empty());
        entries_without_references(entries, (n - 1) as nat, vars);
        value_without_references(entries[n - 1].1, vars);
        assert(entries.take(n as int) =~= entries.take(n - 1).push(entries[n - 1]));
    } else {
        assert(entries.take(0) =~= Seq::empty());
    }
}

fn find_open_from(chars: &Vec<char>, from: usize) -> (r: Option<usize>)
    requires
        from <= chars@.len(),
    ensures
        match r {
            Some(i) => from <= i && i + 2 <= chars@.len() && find_open(chars@.skip(from as int))
                == Some(i - from),
            None => find_open(chars@.skip(from as int)) is None,
        },
{
    let mut i: usize = from;
    while i < chars.len() && chars.len() - i >= 2
        invariant
            from <= i <= chars@.len(),
            find_open(chars@.skip(from as int)) == (match find_open(chars@.skip(i as int)) {
                Some(k) => Some(k + i - from),
                None => None,
            }),
        decreases chars@.len() - i,
    {
        if chars[i] == '$' && chars[i + 1] == '{' {
            return Some(i);
        }
        assert(chars@.skip(i as int).drop_first() =~= chars@.skip(i + 1));
        i = i + 1;
    }
    None
}

fn find_close_from(chars: &Vec<char>, from: usize) -> (r: Option<usize>)
    requires
        from <= chars@.len(),
    ensures
        match r {
            Some(i) => from <= i < chars@.len() && find_close(chars@.skip(from as int)) == Some(
                i - from,
            ),
            None => find_close(chars@.skip(from as int)) is None,
        },
{
    let mut i: usize = from;
    while i < chars.len()
        invariant
            from <= i <= chars@.len(),
            find_close(chars@.skip(from as int)) == (match find_close(chars@.skip(i as int)) {
                Some(k) => Some(k + i - from),
                None => None,
            }),
        decreases chars@.len() - i,
    {
        if chars[i] == '}' {
            return Some(i);
        }
        assert(chars@.skip(i as int).drop_first() =~= chars@.skip(i + 1));
        i = i + 1;
    }
    None
}

/// Where the first reference of a text stands: its `${`, its `}`, or neither.
#[derive(Debug, PartialEq)]
pub enum Found {
    Absent,
    Malformed,
    At { open: usize, name: String, close: usize },
}

/// Finds the first reference at or after `from`.
pub fn next_reference(chars: &Vec<char>, from: usize) -> (r: Found)
    requires
        from <= chars@.len(),
    ensures
        match r {
            Found::Absent => first_reference(chars@.skip(from as int)) is Absent,
            Found::Malformed => first_reference(chars@.skip(from as int)) is Malformed,
            Found::At { open, name, close } => from <= open < close < chars@.len()
                && first_reference(chars@.skip(from as int)) == (Reference::Found {
                prefix: chars@.subrange(from as int, open as int),
                name: name@,
                suffix: chars@.skip(close + 1),
            }),
        },
{
    let total: usize = chars.len();
    let open = match find_open_from(chars, from) {
        None => {
            return Found::Absent;
        },
        Some(open) => open,
    };
    let ghost rest = chars@.skip(from as int);
    assert(rest.skip(open - from + 2) =~= chars@.skip(open + 2));
    let close = match find_close_from(chars, open + 2) {
        None => {
            return Found::Malformed;
        },
        Some(close) => close,
    };
    if close == open + 2 {
        return Found::Malformed;
    }
    let name = from_chars(chars, open + 2, close);
    proof {
        let after = chars@.skip(open + 2);
        assert(rest.take(open - from) =~= chars@.subrange(from as int, open as int));
        assert(after.take(close - (open + 2)) =~= chars@.subrange(open + 2, close as int));
        assert(after.skip(close - (open + 2) + 1) =~= chars@.skip(close + 1));
    }
    Found::At { open, name, close }
}

/// The text that stands for a value inside another text.
pub fn scalar_to_string(value: &Json) -> (r: Result<String, VariableResolutionError>)
    ensures
        match r {
            Ok(text) => scalar_text(value@) == Ok::<Seq<char>, Failure>(text@),
            Err(e) => scalar_text(value@) == Err::<Seq<char>, Failure>(e@),
        },
{
    match value {
        Json::String(text) => Ok(text.clone()),
        Json::Bool(b) => if *b {
            Ok(owned("true"))
        } else {
            Ok(owned("false"))
        },
        Json::Number(JsonNumber::PosInt(n)) => Ok(format_u64(*n)),
        Json::Number(JsonNumber::NegInt(n)) => Ok(format_i64(*n)),
        Json::Number(JsonNumber::Float(text)) => Ok(text.clone()),
        _ => Err(VariableResolutionError::NonScalarInterpolation),
    }
}

/// Adds the names that a text refers to.
pub fn collect_references_from_string(value: &str, names: &mut Vec<String>) -> (r: Result<
    (),
    VariableResolutionError,
>)
    ensures
        match r {
            Ok(_) => text_references(value@) is Some && texts(final(names)@) == texts(old(names)@)
                + text_references(value@)->0,
            Err(e) => text_references(value@) is None && e@ is MalformedInterpolation,
        },
{
    let chars = to_chars(value);
    let total: usize = chars.len();
    let ghost start = texts(names@);
    let mut from: usize = 0;
    proof {
        assert(chars@.skip(0) =~= chars@);
        if let Some(all) = text_references(value@) {
            assert(start + all =~= texts(names@) + all);
        }
    }
    loop
        invariant
            from <= chars@.len() == total,
            text_references(value@) is Some <==> text_references(chars@.skip(from as int)) is Some,
            text_references(value@) is Some ==> start + text_references(value@)->0 == texts(names@)
                + text_references(chars@.skip(from as int))->0,
            start == texts(old(names)@),
        decreases chars@.len() - from,
    {
        match next_reference(&chars, from) {
            Found::Absent => {
                assert(texts(names@) + Seq::<Seq<char>>::empty() =~= texts(names@));
                return Ok(());
            },
            Found::Malformed => {
                return Err(VariableResolutionError::MalformedInterpolation);
            },
            Found::At { open, name, close } => {
                let ghost before = texts(names@);
                let ghost found = name@;
                names.push(name);
                proof {
                    assert(texts(names@) =~= before.push(found));
                    if let Some(rest) = text_references(chars@.skip(close + 1)) {
                        assert(before + (seq![found] + rest) =~= before.push(found) + rest);
                    }
                }
                from = close + 1;
            },
        }
    }
}

/// Adds the names that the texts of a value refer to.
pub fn collect_interpolation_references(value: &Json, names: &mut Vec<String>) -> (r: Result<
    (),
    VariableResolutionError,
>)
    ensures
        match r {
            Ok(_) => references(value@) is Some && texts(final(names)@) == texts(old(names)@)
                + references(value@)->0,
            Err(e) => references(value@) is None && e@ is MalformedInterpolation,
        },
    decreases value,
{
    broadcast use array_tree, object_tree;

    let ghost start = texts(names@);
    match value {
        Json::String(text) => collect_references_from_string(text.as_str(), names),
        Json::Array(items) => {
            let ghost all = trees(items@);
            let mut i: usize = 0;
            assert(start + Seq::<Seq<char>>::empty() =~= start);
            while i < items.len()
                invariant
                    i <= items@.len(),
                    decreases_to!(value => items@),
                    all == trees(items@),
                    value@ == Tree::Array(all),
                    start == texts(old(names)@),
                    item_references(all, i as nat) is Some,
                    texts(names@) == start + item_references(all, i as nat)->0,
                decreases items@.len() - i,
            {
                assert(all[i as int] == items@[i as int]@);
                match collect_interpolation_references(&items[i], names) {
                    Ok(_) => {},
                    Err(e) => {
                        proof {
                            items_fail_together(all, (i + 1) as nat, all.len());
                        }
                        return Err(e);
                    },
                }
                proof {
                    let front = item_references(all, i as nat)->0;
                    let last = references(all[i as int])->0;
                    assert((start + front) + last =~= start + (front + last));
                }
                i = i + 1;
            }
            Ok(())
        },
        Json::Object(entries) => {
            let ghost all = entry_trees(entries@);
            let mut i: usize = 0;
            assert(start + Seq::<Seq<char>>::empty() =~= start);
            while i < entries.len()
                invariant
                    i <= entries@.len(),
                    decreases_to!(value => entries@),
                    all == entry_trees(entries@),
                    value@ == Tree::Object(all),
                    start == texts(old(names)@),
                    entry_references(all, i as nat) is Some,
                    texts(names@) == start + entry_references(all, i as nat)->0,
                decreases entries@.len() - i,
            {
                assert(all[i as int].1 == entries@[i as int].1@);
                match collect_interpolation_references(&entries[i].1, names) {
                    Ok(_) => {},
                    Err(e) => {
                        proof {
                            entries_fail_together(all, (i + 1) as nat, all.len());
                        }
                        return Err(e);
                    },
                }
                proof {
                    let front = entry_references(all, i as nat)->0;
                    let last = references(all[i as int].1)->0;
                    assert((start + front) + last =~= start + (front + last));
                }
                i = i + 1;
            }
            Ok(())
        },
        _ => {
            assert(start + Seq::<Seq<char>>::empty() =~= start);
            Ok(())
        },
    }
}

proof fn items_fail_together(items: Seq<Tree>, n: nat, m: nat)
    requires
        n <= m <= items.len(),
        item_references(items, n) is None,
    ensures
        item_references(items, m) is None,
    decreases m,
{
    if n < m {
        items_fail_together(items, n, (m - 1) as nat);
    }
}

proof fn entries_fail_together(entries: Seq<(Seq<char>, Tree)>, n: nat, m: nat)
    requires
        n <= m <= entries.len(),
        entry_references(entries, n) is None,
    ensures
        entry_references(entries, m) is None,
    decreases m,
{
    if n < m {
        entries_fail_together(entries, n, (m - 1) as nat);
    }
}

} // verus!
