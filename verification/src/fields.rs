//! Objects as lists of named fields: how fields are written and how they are read back.
use vstd::prelude::*;
use crate::collections::{lookup, lookup_none};
use crate::text::{same_text, texts};
use crate::value::{array_tree, entry_trees, trees, Json, JsonNumber, NumberView, Tree};
use crate::views::opt_view;

verus! {

/// `entries` with one more field, where the field is present.
pub open spec fn with(
    entries: Seq<(Seq<char>, Tree)>,
    key: Seq<char>,
    value: Option<Tree>,
) -> Seq<(Seq<char>, Tree)> {
    match value {
        Some(tree) => entries.push((key, tree)),
        None => entries,
    }
}

/// Looking up a field in an object to which a field was added.
pub broadcast proof fn lookup_with(
    entries: Seq<(Seq<char>, Tree)>,
    key: Seq<char>,
    value: Option<Tree>,
    wanted: Seq<char>,
)
    ensures
        wanted != key ==> #[trigger] lookup(with(entries, key, value), wanted) == lookup(
            entries,
            wanted,
        ),
        wanted == key && lookup(entries, key) is None ==> lookup(with(entries, key, value), wanted)
            == value,
    decreases entries.len(),
{
    if value is Some {
        let more = entries.push((key, value->0));
        if entries.len() == 0 {
            lookup_none(more.drop_first(), wanted);
        } else {
            assert(more.drop_first() =~= entries.drop_first().push((key, value->0)));
            lookup_with(entries.drop_first(), key, value, wanted);
        }
    }
}

/// Looking up a field in an object without fields.
pub broadcast proof fn lookup_empty(wanted: Seq<char>)
    ensures
        #[trigger] lookup(Seq::<(Seq<char>, Tree)>::empty(), wanted) is None,
{
}

pub open spec fn named(names: Seq<&str>, key: Seq<char>) -> bool {
    exists|i: int| 0 <= i < names.len() && (#[trigger] names[i])@ == key
}

/// Whether every field has one of the names.
pub open spec fn keys_in(entries: Seq<(Seq<char>, Tree)>, names: Seq<&str>) -> bool {
    forall|i: int| 0 <= i < entries.len() ==> named(names, (#[trigger] entries[i]).0)
}

pub broadcast proof fn keys_in_with(
    entries: Seq<(Seq<char>, Tree)>,
    key: Seq<char>,
    value: Option<Tree>,
    names: Seq<&str>,
)
    requires
        keys_in(entries, names),
        value is Some ==> named(names, key),
    ensures
        #[trigger] keys_in(with(entries, key, value), names),
{
    if value is Some {
        let more = entries.push((key, value->0));
        assert forall|i: int| 0 <= i < more.len() implies named(names, (#[trigger] more[i]).0) by {
            if i < entries.len() {
                assert(more[i] == entries[i]);
            }
        }
    }
}

pub broadcast group group_fields {
    lookup_with,
    lookup_empty,
    keys_in_with,
}

fn is_named(key: &str, names: &[&str]) -> (r: bool)
    ensures
        r == named(names@, key@),
{
    let mut i: usize = 0;
    while i < names.len()
        invariant
            i <= names@.len(),
            forall|j: int| 0 <= j < i ==> (#[trigger] names@[j])@ != key@,
        decreases names@.len() - i,
    {
        if same_text(names[i], key) {
            assert(names@[i as int]@ == key@);
            return true;
        }
        i = i + 1;
    }
    false
}

/// Whether every field has one of the names.
pub fn keys_among(entries: &Vec<(String, Json)>, names: &[&str]) -> (r: bool)
    ensures
        r == keys_in(entry_trees(entries@), names@),
{
    let mut i: usize = 0;
    while i < entries.len()
        invariant
            i <= entries@.len(),
            forall|j: int|
                0 <= j < i ==> named(names@, (#[trigger] entry_trees(entries@)[j]).0),
        decreases entries@.len() - i,
    {
        if !is_named(entries[i].0.as_str(), names) {
            assert(!named(names@, entry_trees(entries@)[i as int].0));
            return false;
        }
        i = i + 1;
    }
    true
}

/// Adds a field, where it is present.
pub fn add_field(entries: &mut Vec<(String, Json)>, key: &str, value: Option<Json>)
    ensures
        entry_trees(final(entries)@) == with(entry_trees(old(entries)@), key@, opt_view(value)),
{
    if let Some(v) = value {
        let ghost before = entry_trees(entries@);
        let ghost added = v@;
        entries.push((key.to_owned(), v));
        assert(entry_trees(entries@) =~= before.push((key@, added)));
    }
}

pub fn no_fields() -> (r: Vec<(String, Json)>)
    ensures
        entry_trees(r@) == Seq::<(Seq<char>, Tree)>::empty(),
{
    let r: Vec<(String, Json)> = Vec::new();
    assert(entry_trees(r@) =~= Seq::<(Seq<char>, Tree)>::empty());
    r
}

/// How a field that may be missing is read: missing and null both mean that there is nothing.
pub open spec fn optional<T>(
    entries: Seq<(Seq<char>, Tree)>,
    key: Seq<char>,
    decode: spec_fn(Tree) -> Option<T>,
) -> Option<Option<T>> {
    match lookup(entries, key) {
        None => Some(None),
        Some(Tree::Null) => Some(None),
        Some(tree) => match decode(tree) {
            Some(value) => Some(Some(value)),
            None => None,
        },
    }
}

/// How a field that has a default is read.
pub open spec fn defaulted<T>(
    entries: Seq<(Seq<char>, Tree)>,
    key: Seq<char>,
    decode: spec_fn(Tree) -> Option<T>,
    default: T,
) -> Option<T> {
    match lookup(entries, key) {
        None => Some(default),
        Some(tree) => decode(tree),
    }
}

/// How a field that must be there is read.
pub open spec fn required<T>(
    entries: Seq<(Seq<char>, Tree)>,
    key: Seq<char>,
    decode: spec_fn(Tree) -> Option<T>,
) -> Option<T> {
    match lookup(entries, key) {
        None => None,
        Some(tree) => decode(tree),
    }
}

/// How a list is read: item by item, and not at all where one item cannot be read.
pub open spec fn decode_each<T>(items: Seq<Tree>, decode: spec_fn(Tree) -> Option<T>) -> Option<
    Seq<T>,
>
    decreases items.len(),
{
    if items.len() == 0 {
        Some(Seq::empty())
    } else {
        match (decode_each(items.drop_last(), decode), decode(items.last())) {
            (Some(front), Some(last)) => Some(front.push(last)),
            _ => None,
        }
    }
}

/// A list whose items can each be read can be read.
pub proof fn decode_each_all<T>(
    items: Seq<Tree>,
    decode: spec_fn(Tree) -> Option<T>,
    values: Seq<T>,
)
    requires
        items.len() == values.len(),
        forall|i: int| 0 <= i < items.len() ==> decode(#[trigger] items[i]) == Some(values[i]),
    ensures
        decode_each(items, decode) == Some(values),
    decreases items.len(),
{
    if items.len() == 0 {
        assert(values =~= Seq::empty());
    } else {
        decode_each_all(items.drop_last(), decode, values.drop_last());
        assert(values =~= values.drop_last().push(values.last()));
    }
}

pub open spec fn list(items: Option<Seq<Tree>>) -> Option<Tree> {
    match items {
        Some(items) => Some(Tree::Array(items)),
        None => None,
    }
}

pub open spec fn text_of(tree: Tree) -> Option<Seq<char>> {
    match tree {
        Tree::Text(text) => Some(text),
        _ => None,
    }
}

pub open spec fn bool_of(tree: Tree) -> Option<bool> {
    match tree {
        Tree::Bool(b) => Some(b),
        _ => None,
    }
}

pub open spec fn u64_of(tree: Tree) -> Option<u64> {
    match tree {
        Tree::Number(NumberView::PosInt(n)) => Some(n),
        _ => None,
    }
}

pub open spec fn u32_of(tree: Tree) -> Option<u32> {
    match tree {
        Tree::Number(NumberView::PosInt(n)) => if n <= u32::MAX {
            Some(n as u32)
        } else {
            None
        },
        _ => None,
    }
}

pub open spec fn u8_of(tree: Tree) -> Option<u8> {
    match tree {
        Tree::Number(NumberView::PosInt(n)) => if n <= u8::MAX {
            Some(n as u8)
        } else {
            None
        },
        _ => None,
    }
}

pub open spec fn i32_of(tree: Tree) -> Option<i32> {
    match tree {
        Tree::Number(NumberView::PosInt(n)) => if n <= i32::MAX {
            Some(n as i32)
        } else {
            None
        },
        Tree::Number(NumberView::NegInt(n)) => if i32::MIN <= n <= i32::MAX {
            Some(n as i32)
        } else {
            None
        },
        _ => None,
    }
}

pub open spec fn unsigned(n: u64) -> Tree {
    Tree::Number(NumberView::PosInt(n))
}

pub open spec fn signed(n: i32) -> Tree {
    if n < 0 {
        Tree::Number(NumberView::NegInt(n as i64))
    } else {
        Tree::Number(NumberView::PosInt(n as u64))
    }
}

pub open spec fn texts_of(tree: Tree) -> Option<Seq<Seq<char>>> {
    match tree {
        Tree::Array(items) => decode_each(items, |t: Tree| text_of(t)),
        _ => None,
    }
}

pub open spec fn u32s_of(tree: Tree) -> Option<Seq<u32>> {
    match tree {
        Tree::Array(items) => decode_each(items, |t: Tree| u32_of(t)),
        _ => None,
    }
}

pub open spec fn texts_tree(items: Seq<Seq<char>>) -> Tree {
    Tree::Array(items.map_values(|s: Seq<char>| Tree::Text(s)))
}

pub open spec fn u32s_tree(items: Seq<u32>) -> Tree {
    Tree::Array(items.map_values(|n: u32| unsigned(n as u64)))
}

pub proof fn texts_round_trip(items: Seq<Seq<char>>)
    ensures
        texts_of(texts_tree(items)) == Some(items),
{
    decode_each_all(texts_tree(items)->Array_0, |t: Tree| text_of(t), items);
}

pub proof fn u32s_round_trip(items: Seq<u32>)
    ensures
        u32s_of(u32s_tree(items)) == Some(items),
{
    decode_each_all(u32s_tree(items)->Array_0, |t: Tree| u32_of(t), items);
}

pub fn decode_text(value: &Json) -> (r: Option<String>)
    ensures
        opt_view(r) == text_of(value@),
{
    match value {
        Json::String(s) => Some(s.clone()),
        _ => None,
    }
}

pub fn decode_bool(value: &Json) -> (r: Option<bool>)
    ensures
        r == bool_of(value@),
{
    match value {
        Json::Bool(b) => Some(*b),
        _ => None,
    }
}

pub fn decode_u64(value: &Json) -> (r: Option<u64>)
    ensures
        r == u64_of(value@),
{
    match value {
        Json::Number(JsonNumber::PosInt(n)) => Some(*n),
        _ => None,
    }
}

pub fn decode_u32(value: &Json) -> (r: Option<u32>)
    ensures
        r == u32_of(value@),
{
    match value {
        Json::Number(JsonNumber::PosInt(n)) => if *n <= 0xFFFF_FFFF {
            Some(*n as u32)
        } else {
            None
        },
        _ => None,
    }
}

pub fn decode_u8(value: &Json) -> (r: Option<u8>)
    ensures
        r == u8_of(value@),
{
    match value {
        Json::Number(JsonNumber::PosInt(n)) => if *n <= 0xFF {
            Some(*n as u8)
        } else {
            None
        },
        _ => None,
    }
}

pub fn decode_i32(value: &Json) -> (r: Option<i32>)
    ensures
        r == i32_of(value@),
{
    match value {
        Json::Number(JsonNumber::PosInt(n)) => if *n <= 0x7FFF_FFFF {
            Some(*n as i32)
        } else {
            None
        },
        Json::Number(JsonNumber::NegInt(n)) => if -0x8000_0000 <= *n && *n <= 0x7FFF_FFFF {
            Some(*n as i32)
        } else {
            None
        },
        _ => None,
    }
}

proof fn decode_each_stops<T>(items: Seq<Tree>, n: int, decode: spec_fn(Tree) -> Option<T>)
    requires
        0 <= n < items.len(),
        decode(items[n]) is None,
    ensures
        decode_each(items, decode) is None,
    decreases items.len(),
{
    if n < items.len() - 1 {
        decode_each_stops(items.drop_last(), n, decode);
    }
}

/// One more item of a list has been read.
pub proof fn decode_each_step<T>(
    items: Seq<Tree>,
    n: int,
    decode: spec_fn(Tree) -> Option<T>,
    front: Seq<T>,
)
    requires
        0 <= n < items.len(),
        decode_each(items.take(n), decode) == Some(front),
    ensures
        decode(items[n]) matches Some(value) ==> decode_each(items.take(n + 1), decode) == Some(
            front.push(value),
        ),
        decode(items[n]) is None ==> decode_each(items, decode) is None,
{
    assert(items.take(n + 1).drop_last() =~= items.take(n));
    assert(items.take(n + 1).last() == items[n]);
    if decode(items[n]) is None {
        decode_each_stops(items, n, decode);
    }
}

pub fn decode_texts(value: &Json) -> (r: Option<Vec<String>>)
    ensures
        match r {
            Some(items) => texts_of(value@) == Some(texts(items@)),
            None => texts_of(value@) is None,
        },
{
    broadcast use array_tree;

    let items = match value {
        Json::Array(items) => items,
        _ => {
            return None;
        },
    };
    let ghost all = trees(items@);
    let ghost decode = |t: Tree| text_of(t);
    let mut out: Vec<String> = Vec::new();
    let mut i: usize = 0;
    assert(all.take(0) =~= Seq::empty());
    assert(texts(out@) =~= Seq::empty());
    while i < items.len()
        invariant
            i <= items@.len(),
            all == trees(items@),
            value@ == Tree::Array(all),
            decode == (|t: Tree| text_of(t)),
            decode_each(all.take(i as int), decode) == Some(texts(out@)),
        decreases items@.len() - i,
    {
        let ghost front = texts(out@);
        proof {
            decode_each_step(all, i as int, decode, front);
            assert(all[i as int] == items@[i as int]@);
        }
        match decode_text(&items[i]) {
            Some(text) => {
                let ghost read = text@;
                out.push(text);
                assert(texts(out@) =~= front.push(read));
            },
            None => {
                return None;
            },
        }
        i = i + 1;
    }
    assert(all.take(i as int) =~= all);
    Some(out)
}

pub fn decode_u32s(value: &Json) -> (r: Option<Vec<u32>>)
    ensures
        opt_view(r) == u32s_of(value@),
{
    broadcast use array_tree;

    let items = match value {
        Json::Array(items) => items,
        _ => {
            return None;
        },
    };
    let ghost all = trees(items@);
    let ghost decode = |t: Tree| u32_of(t);
    let mut out: Vec<u32> = Vec::new();
    let mut i: usize = 0;
    assert(all.take(0) =~= Seq::empty());
    while i < items.len()
        invariant
            i <= items@.len(),
            all == trees(items@),
            value@ == Tree::Array(all),
            decode == (|t: Tree| u32_of(t)),
            decode_each(all.take(i as int), decode) == Some(out@),
        decreases items@.len() - i,
    {
        proof {
            decode_each_step(all, i as int, decode, out@);
            assert(all[i as int] == items@[i as int]@);
        }
        match decode_u32(&items[i]) {
            Some(n) => {
                out.push(n);
            },
            None => {
                return None;
            },
        }
        i = i + 1;
    }
    assert(all.take(i as int) =~= all);
    Some(out)
}

pub fn encode_texts(items: &Vec<String>) -> (r: Json)
    ensures
        r@ == texts_tree(texts(items@)),
{
    broadcast use array_tree;

    let mut out: Vec<Json> = Vec::new();
    let mut i: usize = 0;
    while i < items.len()
        invariant
            i <= items@.len(),
            out@.len() == i,
            forall|j: int| 0 <= j < i ==> (#[trigger] out@[j])@ == Tree::Text(items@[j]@),
        decreases items@.len() - i,
    {
        out.push(Json::String(items[i].clone()));
        i = i + 1;
    }
    assert(trees(out@) =~= texts_tree(texts(items@))->Array_0);
    Json::Array(out)
}

pub fn encode_u32s(items: &Vec<u32>) -> (r: Json)
    ensures
        r@ == u32s_tree(items@),
{
    broadcast use array_tree;

    let mut out: Vec<Json> = Vec::new();
    let mut i: usize = 0;
    while i < items.len()
        invariant
            i <= items@.len(),
            out@.len() == i,
            forall|j: int| 0 <= j < i ==> (#[trigger] out@[j])@ == unsigned(items@[j] as u64),
        decreases items@.len() - i,
    {
        out.push(encode_u64(items[i] as u64));
        i = i + 1;
    }
    assert(trees(out@) =~= u32s_tree(items@)->Array_0);
    Json::Array(out)
}

pub fn encode_u64(n: u64) -> (r: Json)
    ensures
        r@ == unsigned(n),
{
    Json::Number(JsonNumber::PosInt(n))
}

pub fn encode_i32(n: i32) -> (r: Json)
    ensures
        r@ == signed(n),
{
    if n < 0 {
        Json::Number(JsonNumber::NegInt(n as i64))
    } else {
        Json::Number(JsonNumber::PosInt(n as u64))
    }
}

pub open spec fn opt_text_tree(value: Option<Seq<char>>) -> Option<Tree> {
    match value {
        Some(text) => Some(Tree::Text(text)),
        None => None,
    }
}

pub fn encode_opt_text(value: &Option<String>) -> (r: Option<Json>)
    ensures
        opt_view(r) == opt_text_tree(opt_view(*value)),
{
    match value {
        Some(text) => Some(Json::String(text.clone())),
        None => None,
    }
}

pub fn encode_text(text: &str) -> (r: Json)
    ensures
        r@ == Tree::Text(text@),
{
    Json::String(text.to_owned())
}

} // verus!
