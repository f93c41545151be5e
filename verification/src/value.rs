//! JSON values.
use vstd::prelude::*;
use crate::collections::{ascending, entries_view, lookup, lookup_at, lookup_none, put, TextMap};
use crate::views::Faithful;
use crate::text::{before, decimal, decimal_int, same_text};

verus! {

/// A JSON number: a natural number, a negative integer, or a number with a fraction or an
/// exponent, which is kept as its text.
#[derive(Debug, PartialEq)]
pub enum JsonNumber {
    PosInt(u64),
    NegInt(i64),
    Float(String),
}

/// What a [`JsonNumber`] stands for.
pub enum NumberView {
    PosInt(u64),
    NegInt(i64),
    Float(Seq<char>),
}

impl View for JsonNumber {
    type V = NumberView;

    open spec fn view(&self) -> NumberView {
        match *self {
            JsonNumber::PosInt(n) => NumberView::PosInt(n),
            JsonNumber::NegInt(n) => NumberView::NegInt(n),
            JsonNumber::Float(text) => NumberView::Float(text@),
        }
    }
}

/// A JSON value. An object is the list of its entries; those of a value that was read stand in the
/// order of their keys.
#[derive(Debug, PartialEq)]
pub enum Json {
    Null,
    Bool(bool),
    Number(JsonNumber),
    String(String),
    Array(Vec<Json>),
    Object(Vec<(String, Json)>),
}

/// What a [`Json`] stands for.
pub enum Tree {
    Null,
    Bool(bool),
    Number(NumberView),
    Text(Seq<char>),
    Array(Seq<Tree>),
    Object(Seq<(Seq<char>, Tree)>),
}

impl Json {
    pub open spec fn tree(self) -> Tree
        decreases self,
    {
        match self {
            Json::Null => Tree::Null,
            Json::Bool(b) => Tree::Bool(b),
            Json::Number(n) => Tree::Number(n@),
            Json::String(s) => Tree::Text(s@),
            Json::Array(items) => Tree::Array(
                Seq::new(
                    items@.len(),
                    |i: int|
                        if 0 <= i < items@.len() {
                            items@[i].tree()
                        } else {
                            Tree::Null
                        },
                ),
            ),
            Json::Object(entries) => Tree::Object(
                Seq::new(
                    entries@.len(),
                    |i: int|
                        if 0 <= i < entries@.len() {
                            (entries@[i].0@, entries@[i].1.tree())
                        } else {
                            (Seq::empty(), Tree::Null)
                        },
                ),
            ),
        }
    }
}

impl View for Json {
    type V = Tree;

    open spec fn view(&self) -> Tree {
        self.tree()
    }
}

/// What a list of values stands for.
pub open spec fn trees(items: Seq<Json>) -> Seq<Tree> {
    items.map_values(|v: Json| v@)
}

/// What a list of object entries stands for.
pub open spec fn entry_trees(entries: Seq<(String, Json)>) -> Seq<(Seq<char>, Tree)> {
    entries.map_values(|e: (String, Json)| (e.0@, e.1@))
}

/// An array stands for what its items stand for.
pub broadcast proof fn array_tree(items: Vec<Json>)
    ensures
        #[trigger] Json::Array(items).tree() == Tree::Array(trees(items@)),
{
    assert(Json::Array(items).tree()->Array_0 =~= trees(items@));
}

/// An object stands for what its entries stand for.
pub broadcast proof fn object_tree(entries: Vec<(String, Json)>)
    ensures
        #[trigger] Json::Object(entries).tree() == Tree::Object(entry_trees(entries@)),
{
    assert(Json::Object(entries).tree()->Object_0 =~= entry_trees(entries@));
}

impl JsonNumber {
    pub fn copy(&self) -> (r: JsonNumber)
        ensures
            r@ == self@,
    {
        match self {
            JsonNumber::PosInt(n) => JsonNumber::PosInt(*n),
            JsonNumber::NegInt(n) => JsonNumber::NegInt(*n),
            JsonNumber::Float(text) => JsonNumber::Float(text.clone()),
        }
    }
}

impl Clone for JsonNumber {
    fn clone(&self) -> (r: Self)
        ensures
            r@ == self@,
    {
        self.copy()
    }
}

impl Clone for Json {
    fn clone(&self) -> (r: Self)
        ensures
            r@ == self@,
    {
        self.copy()
    }
}

impl Faithful for Json {
    proof fn clone_keeps_view(&self, copy: &Self) {
    }
}

impl Json {
    /// A copy of the whole value.
    pub fn copy(&self) -> (r: Json)
        ensures
            r@ == self@,
        decreases self,
    {
        broadcast use array_tree, object_tree;

        match self {
            Json::Null => Json::Null,
            Json::Bool(b) => Json::Bool(*b),
            Json::Number(n) => Json::Number(n.copy()),
            Json::String(s) => Json::String(s.clone()),
            Json::Array(items) => {
                let mut out: Vec<Json> = Vec::new();
                let mut i: usize = 0;
                while i < items.len()
                    invariant
                        i <= items@.len(),
                        out@.len() == i,
                        forall|j: int| 0 <= j < i ==> (#[trigger] out@[j])@ == items@[j]@,
                        decreases_to!(self => items@),
                    decreases items@.len() - i,
                {
                    let item: Json = items[i].copy();
                    out.push(item);
                    i = i + 1;
                }
                assert(trees(out@) =~= trees(items@));
                Json::Array(out)
            },
            Json::Object(entries) => {
                let mut out: Vec<(String, Json)> = Vec::new();
                let mut i: usize = 0;
                while i < entries.len()
                    invariant
                        i <= entries@.len(),
                        out@.len() == i,
                        forall|j: int|
                            0 <= j < i ==> (#[trigger] out@[j]).0@ == entries@[j].0@ && out@[j].1@
                                == entries@[j].1@,
                        decreases_to!(self => entries@),
                    decreases entries@.len() - i,
                {
                    let entry: Json = entries[i].1.copy();
                    out.push((entries[i].0.clone(), entry));
                    i = i + 1;
                }
                assert(entry_trees(out@) =~= entry_trees(entries@));
                Json::Object(out)
            },
        }
    }

    /// The value that an object has under `key`: the first one, where there are several.
    pub fn get(&self, key: &str) -> (r: Option<&Json>)
        ensures
            match self@ {
                Tree::Object(entries) => match r {
                    Some(v) => lookup(entries, key@) == Some(v@),
                    None => lookup(entries, key@) is None,
                },
                _ => r is None,
            },
    {
        broadcast use object_tree;

        match self {
            Json::Object(entries) => find_entry(entries, key),
            _ => None,
        }
    }
}

/// The value of the first entry with the given key.
pub fn find_entry<'a>(entries: &'a Vec<(String, Json)>, key: &str) -> (r: Option<&'a Json>)
    ensures
        match r {
            Some(v) => lookup(entry_trees(entries@), key@) == Some(v@),
            None => lookup(entry_trees(entries@), key@) is None,
        },
{
    let mut i: usize = 0;
    while i < entries.len()
        invariant
            i <= entries@.len(),
            forall|j: int| 0 <= j < i ==> (#[trigger] entry_trees(entries@)[j]).0 != key@,
        decreases entries@.len() - i,
    {
        if same_text(entries[i].0.as_str(), key) {
            proof {
                lookup_at(entry_trees(entries@), key@, i as int);
            }
            return Some(&entries[i].1);
        }
        i = i + 1;
    }
    proof {
        lookup_none(entry_trees(entries@), key@);
    }
    None
}

/// A value as `serde_json` holds it.
#[verifier::external_type_specification]
#[verifier::external_body]
pub struct ExJsonValue(serde_json::Value);

/// A number as `serde_json` holds it.
#[verifier::external_type_specification]
#[verifier::external_body]
pub struct ExJsonNumber(serde_json::Number);

/// What `serde_json::from_str` makes of a text: the value that the text denotes, or the message of
/// the error.
pub uninterp spec fn json_of_text(text: Seq<char>) -> Result<Tree, Seq<char>>;

/// What a `serde_json::Value` holds.
pub uninterp spec fn json_content(value: serde_json::Value) -> Tree;

/// What a `serde_json::Number` holds: a natural number, a negative integer, or the text by which
/// it shows any other number.
pub uninterp spec fn json_number(number: serde_json::Number) -> NumberView;

/// The outermost layer of a `serde_json::Value`.
enum Layer {
    Null,
    Bool(bool),
    Number(serde_json::Number),
    String(String),
    Array(Vec<serde_json::Value>),
    Object(Vec<(String, serde_json::Value)>),
}

impl Layer {
    spec fn tree(self) -> Tree {
        match self {
            Layer::Null => Tree::Null,
            Layer::Bool(b) => Tree::Bool(b),
            Layer::Number(n) => Tree::Number(json_number(n)),
            Layer::String(s) => Tree::Text(s@),
            Layer::Array(items) => Tree::Array(
                items@.map_values(|v: serde_json::Value| json_content(v)),
            ),
            Layer::Object(entries) => Tree::Object(
                entries@.map_values(|e: (String, serde_json::Value)| (e.0@, json_content(e.1))),
            ),
        }
    }
}

/// Reads a JSON text, by `serde_json::from_str`.
///
/// Trusted: the result, value or error message, depends on the text alone.
#[verifier::external_body]
fn read_json(text: &str) -> (r: Result<serde_json::Value, String>)
    ensures
        match r {
            Ok(value) => json_of_text(text@) == Ok::<Tree, Seq<char>>(json_content(value)),
            Err(message) => json_of_text(text@) == Err::<Tree, Seq<char>>(message@),
        },
{
    serde_json::from_str(text).map_err(|error: serde_json::Error| error.to_string())
}

/// Takes off the outermost layer of a `serde_json::Value`, an enum with one variant for each of
/// the six kinds of JSON values.
///
/// Trusted: the layer holds what the value held, the entries of an object in the order in which
/// `serde_json::Map` walks them.
#[verifier::external_body]
fn peel(value: serde_json::Value) -> (r: Layer)
    ensures
        r.tree() == json_content(value),
{
    match value {
        serde_json::Value::Null => Layer::Null,
        serde_json::Value::Bool(b) => Layer::Bool(b),
        serde_json::Value::Number(n) => Layer::Number(n),
        serde_json::Value::String(s) => Layer::String(s),
        serde_json::Value::Array(items) => Layer::Array(items),
        serde_json::Value::Object(map) => Layer::Object(map.into_iter().collect()),
    }
}

/// The natural number that a `serde_json::Number` holds, by `serde_json::Number::as_u64`.
///
/// Trusted: there is one exactly where the number is a natural number, and it is that number.
#[verifier::external_body]
fn natural(number: &serde_json::Number) -> (r: Option<u64>)
    ensures
        r == (match json_number(*number) {
            NumberView::PosInt(n) => Some(n),
            _ => None,
        }),
{
    number.as_u64()
}

/// The integer that a `serde_json::Number` holds, by `serde_json::Number::as_i64`.
///
/// Trusted: there is one exactly where the number is an integer that an `i64` can hold, and it is
/// that integer.
#[verifier::external_body]
fn integer(number: &serde_json::Number) -> (r: Option<i64>)
    ensures
        r == (match json_number(*number) {
            NumberView::PosInt(n) => if n <= i64::MAX {
                Some(n as i64)
            } else {
                None
            },
            NumberView::NegInt(n) => Some(n),
            NumberView::Float(_) => None,
        }),
{
    number.as_i64()
}

/// The text by which a `serde_json::Number` shows itself, by its `to_string`.
///
/// Trusted: an integer shows its decimal notation; any other number shows the text that stands for
/// it in [`json_number`].
#[verifier::external_body]
fn shown(number: &serde_json::Number) -> (r: String)
    ensures
        r@ == (match json_number(*number) {
            NumberView::PosInt(n) => decimal(n as nat),
            NumberView::NegInt(n) => decimal_int(n as int),
            NumberView::Float(text) => text,
        }),
{
    number.to_string()
}

fn number_from(number: &serde_json::Number) -> (r: JsonNumber)
    ensures
        r@ == json_number(*number),
{
    match natural(number) {
        Some(n) => JsonNumber::PosInt(n),
        None => match integer(number) {
            Some(n) => JsonNumber::NegInt(n),
            None => JsonNumber::Float(shown(number)),
        },
    }
}

fn value_from(value: serde_json::Value) -> (r: Json)
    ensures
        r@ == json_content(value),
    decreases json_content(value),
{
    broadcast use array_tree, object_tree;

    let ghost whole = json_content(value);
    match peel(value) {
        Layer::Null => Json::Null,
        Layer::Bool(b) => Json::Bool(b),
        Layer::Number(n) => Json::Number(number_from(&n)),
        Layer::String(s) => Json::String(s),
        Layer::Array(items) => {
            let ghost all = items@;
            let ghost parts = whole->Array_0;
            let mut rest = items;
            let mut backwards: Vec<Json> = Vec::new();
            while rest.len() > 0
                invariant
                    rest@ == all.take(rest@.len() as int),
                    rest@.len() + backwards@.len() == all.len(),
                    whole == Tree::Array(parts),
                    parts == all.map_values(|v: serde_json::Value| json_content(v)),
                    forall|k: int|
                        0 <= k < backwards@.len() ==> (#[trigger] backwards@[k])@ == parts[all.len()
                            - 1 - k],
                    whole == json_content(value),
                decreases rest@.len(),
            {
                if let Some(item) = rest.pop() {
                    proof {
                        assert(json_content(item) == parts[rest@.len() as int]);
                        assert(whole is Array && parts == whole->Array_0);
                        assert(decreases_to!(whole => whole->Array_0));
                        assert(decreases_to!(parts => parts[rest@.len() as int]));
                    }
                    let converted: Json = value_from(item);
                    backwards.push(converted);
                }
            }
            let out = reversed(backwards);
            assert(trees(out@) =~= parts);
            Json::Array(out)
        },
        Layer::Object(entries) => {
            let ghost all = entries@;
            let ghost parts = whole->Object_0;
            let mut rest = entries;
            let mut backwards: Vec<(String, Json)> = Vec::new();
            while rest.len() > 0
                invariant
                    rest@ == all.take(rest@.len() as int),
                    rest@.len() + backwards@.len() == all.len(),
                    whole == Tree::Object(parts),
                    parts == all.map_values(
                        |e: (String, serde_json::Value)| (e.0@, json_content(e.1)),
                    ),
                    forall|k: int|
                        0 <= k < backwards@.len() ==> (#[trigger] backwards@[k]).0@ == parts[all.len()
                            - 1 - k].0 && backwards@[k].1@ == parts[all.len() - 1 - k].1,
                    whole == json_content(value),
                decreases rest@.len(),
            {
                if let Some((key, item)) = rest.pop() {
                    proof {
                        assert(json_content(item) == parts[rest@.len() as int].1);
                        assert(whole is Object && parts == whole->Object_0);
                        assert(decreases_to!(whole => whole->Object_0));
                        assert(decreases_to!(parts => parts[rest@.len() as int]));
                        assert(decreases_to!(parts[rest@.len() as int] => parts[rest@.len() as int].1));
                    }
                    let converted: Json = value_from(item);
                    backwards.push((key, converted));
                }
            }
            let out = reversed(backwards);
            assert(entry_trees(out@) =~= parts);
            Json::Object(out)
        },
    }
}

/// The items in the opposite order.
pub fn reversed<T>(items: Vec<T>) -> (r: Vec<T>)
    ensures
        r@ == items@.reverse(),
{
    let ghost all = items@;
    let mut rest = items;
    let mut out: Vec<T> = Vec::new();
    while rest.len() > 0
        invariant
            rest@ == all.take(rest@.len() as int),
            rest@.len() + out@.len() == all.len(),
            forall|k: int| 0 <= k < out@.len() ==> (#[trigger] out@[k]) == all[all.len() - 1 - k],
        decreases rest@.len(),
    {
        if let Some(item) = rest.pop() {
            out.push(item);
        }
    }
    assert(out@ =~= all.reverse());
    out
}

/// The value that a JSON text denotes, or why it denotes none.
pub fn parse_json(text: &str) -> (r: Result<Json, String>)
    ensures
        match r {
            Ok(value) => json_of_text(text@) == Ok::<Tree, Seq<char>>(value@),
            Err(message) => json_of_text(text@) == Err::<Tree, Seq<char>>(message@),
        },
{
    match read_json(text) {
        Ok(value) => Ok(value_from(value)),
        Err(message) => Err(message),
    }
}

/// How `serde_json` writes a value on one line.
pub uninterp spec fn json_line(value: Tree) -> Seq<char>;

/// How `serde_json` writes a value on several lines, indented.
pub uninterp spec fn json_pages(value: Tree) -> Seq<char>;

/// Puts a layer around `serde_json` values: the opposite of [`peel`].
///
/// Trusted: the value holds what the layer holds. A `serde_json::Map` walks its entries in the
/// order of their keys, so those of the layer have to stand in that order.
#[verifier::external_body]
fn wrap(layer: Layer) -> (r: serde_json::Value)
    requires
        layer matches Layer::Object(entries) ==> ascending(entries_view(entries@)),
    ensures
        json_content(r) == layer.tree(),
{
    match layer {
        Layer::Null => serde_json::Value::Null,
        Layer::Bool(b) => serde_json::Value::Bool(b),
        Layer::Number(n) => serde_json::Value::Number(n),
        Layer::String(s) => serde_json::Value::String(s),
        Layer::Array(items) => serde_json::Value::Array(items),
        Layer::Object(entries) => serde_json::Value::Object(entries.into_iter().collect()),
    }
}

/// A natural number as `serde_json` holds it, by `serde_json::Number::from`.
///
/// Trusted: it holds that number.
#[verifier::external_body]
fn from_natural(n: u64) -> (r: serde_json::Number)
    ensures
        json_number(r) == NumberView::PosInt(n),
{
    serde_json::Number::from(n)
}

/// An integer as `serde_json` holds it, by `serde_json::Number::from`.
///
/// Trusted: it holds that integer, as a natural number where it is one.
#[verifier::external_body]
fn from_integer(n: i64) -> (r: serde_json::Number)
    ensures
        json_number(r) == (if n < 0 {
            NumberView::NegInt(n)
        } else {
            NumberView::PosInt(n as u64)
        }),
{
    serde_json::Number::from(n)
}

/// Writes a value on one line, by the `Display` form of `serde_json::Value`.
///
/// Trusted: the text depends on what the value holds alone.
#[verifier::external_body]
fn written(value: &serde_json::Value) -> (r: String)
    ensures
        r@ == json_line(json_content(*value)),
{
    format!("{value}")
}

/// Writes a value on several lines, by the alternate `Display` form of `serde_json::Value`.
///
/// Trusted: the text depends on what the value holds alone.
#[verifier::external_body]
fn written_out(value: &serde_json::Value) -> (r: String)
    ensures
        r@ == json_pages(json_content(*value)),
{
    format!("{value:#}")
}

/// A number as it is written: an integer that is not negative is a natural number, and what is
/// kept as a text is what that text denotes.
pub open spec fn written_number(n: NumberView) -> Tree {
    match n {
        NumberView::PosInt(_) => Tree::Number(n),
        NumberView::NegInt(i) => if i < 0 {
            Tree::Number(n)
        } else {
            Tree::Number(NumberView::PosInt(i as u64))
        },
        NumberView::Float(text) => match json_of_text(text) {
            Ok(value) => value,
            Err(_) => Tree::Null,
        },
    }
}

/// A value as it is written: the entries of objects in the order of their keys, the last one for
/// each key.
pub open spec fn written_tree(value: Tree) -> Tree
    decreases value, 0nat,
{
    match value {
        Tree::Number(n) => written_number(n),
        Tree::Array(items) => Tree::Array(
            Seq::new(
                items.len(),
                |i: int|
                    if 0 <= i < items.len() {
                        written_tree(items[i])
                    } else {
                        Tree::Null
                    },
            ),
        ),
        Tree::Object(entries) => Tree::Object(written_entries(entries, entries.len())),
        _ => value,
    }
}

pub open spec fn written_entries(entries: Seq<(Seq<char>, Tree)>, n: nat) -> Seq<(Seq<char>, Tree)>
    decreases entries, n,
{
    if n == 0 || n > entries.len() {
        Seq::empty()
    } else {
        put(
            written_entries(entries, (n - 1) as nat),
            entries[n - 1].0,
            written_tree(entries[n - 1].1),
        )
    }
}

/// Binding a key before or after the values are looked into gives the same.
proof fn put_contents(
    entries: Seq<(Seq<char>, serde_json::Value)>,
    key: Seq<char>,
    value: serde_json::Value,
)
    ensures
        contents(put(entries, key, value)) == put(contents(entries), key, json_content(value)),
    decreases entries.len(),
{
    if entries.len() > 0 {
        assert(contents(entries).drop_last() =~= contents(entries.drop_last()));
        if entries.last().0 != key && !before(entries.last().0, key) {
            put_contents(entries.drop_last(), key, value);
        }
    }
    assert(contents(put(entries, key, value)) =~= put(contents(entries), key, json_content(value)));
}

spec fn contents(entries: Seq<(Seq<char>, serde_json::Value)>) -> Seq<(Seq<char>, Tree)> {
    entries.map_values(|e: (Seq<char>, serde_json::Value)| (e.0, json_content(e.1)))
}

fn to_outside(value: &Json) -> (r: serde_json::Value)
    ensures
        json_content(r) == written_tree(value@),
    decreases value,
{
    broadcast use array_tree, object_tree;

    match value {
        Json::Null => wrap(Layer::Null),
        Json::Bool(b) => wrap(Layer::Bool(*b)),
        Json::Number(JsonNumber::PosInt(n)) => wrap(Layer::Number(from_natural(*n))),
        Json::Number(JsonNumber::NegInt(n)) => wrap(Layer::Number(from_integer(*n))),
        Json::Number(JsonNumber::Float(text)) => match read_json(text.as_str()) {
            Ok(number) => number,
            Err(_) => wrap(Layer::Null),
        },
        Json::String(text) => wrap(Layer::String(text.clone())),
        Json::Array(items) => {
            let mut out: Vec<serde_json::Value> = Vec::new();
            let mut i: usize = 0;
            while i < items.len()
                invariant
                    i <= items@.len(),
                    out@.len() == i,
                    forall|j: int|
                        0 <= j < i ==> json_content(#[trigger] out@[j]) == written_tree(
                            items@[j]@,
                        ),
                    decreases_to!(value => items@),
                decreases items@.len() - i,
            {
                let item = to_outside(&items[i]);
                out.push(item);
                i = i + 1;
            }
            let ghost held = out@.map_values(|v: serde_json::Value| json_content(v));
            assert(written_tree(value@)->Array_0 =~= held);
            wrap(Layer::Array(out))
        },
        Json::Object(entries) => {
            let ghost all = entry_trees(entries@);
            let mut out: TextMap<serde_json::Value> = TextMap::new();
            let mut i: usize = 0;
            assert(contents(out@) =~= Seq::empty());
            while i < entries.len()
                invariant
                    i <= entries@.len(),
                    all == entry_trees(entries@),
                    contents(out@) == written_entries(all, i as nat),
                    decreases_to!(value => entries@),
                decreases entries@.len() - i,
            {
                let entry = to_outside(&entries[i].1);
                proof {
                    put_contents(out@, entries@[i as int].0@, entry);
                    assert(all[i as int] == (entries@[i as int].0@, entries@[i as int].1@));
                }
                out.insert(entries[i].0.clone(), entry);
                i = i + 1;
            }
            let ghost bound = out@;
            let listed = out.into_entries();
            proof {
                let held = listed@.map_values(
                    |e: (String, serde_json::Value)| (e.0@, json_content(e.1)),
                );
                assert(held =~= contents(entries_view(listed@)));
            }
            wrap(Layer::Object(listed))
        },
    }
}

/// A value as a line of JSON.
pub fn json_text(value: &Json) -> (r: String)
    ensures
        r@ == json_line(written_tree(value@)),
{
    written(&to_outside(value))
}

/// A value as indented JSON.
pub fn pretty_json_text(value: &Json) -> (r: String)
    ensures
        r@ == json_pages(written_tree(value@)),
{
    written_out(&to_outside(value))
}

} // verus!
