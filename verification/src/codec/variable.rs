//! Variables and metadata in documents.
use vstd::prelude::*;
use crate::codec::names::{
    read_req_source_kind_at, read_req_variable_type_at, req_source_kind_at, req_variable_type_at,
    source_kind_name, source_kind_round_trip, source_kind_text, variable_type_name,
    variable_type_round_trip, variable_type_text, SourceKind,
};
use crate::codec::readers::{
    def_bool_at, opt_text_at, read_def_bool_at, read_opt_text_at, read_req_text_at, req_text_at,
};
use crate::codec::shapes::{
    with_reference_entries, with_reference_keys, with_value_entries, with_value_keys,
};
use crate::collections::{ascending, entry_views, lookup, put, put_all, put_all_ascending, TextMap};
use crate::definition::{
    VariableDefinition, VariableDefinitionView, VariableSource, VariableSourceView,
};
use crate::fields::{
    add_field, encode_opt_text, encode_text, group_fields, keys_among, keys_in, no_fields,
    opt_text_tree, optional, required, with,
};
use crate::text::before;
use crate::value::{entry_trees, find_entry, object_tree, Json, Tree};
use crate::views::opt_view;

verus! {

pub open spec fn source_kind_tree(kind: SourceKind) -> Option<Tree> {
    Some(Tree::Text(source_kind_name(kind)))
}

pub open spec fn source_tree(v: VariableSourceView) -> Tree {
    match v {
        VariableSourceView::Literal { value } => Tree::Object(
            with(
                with(Seq::empty(), "kind"@, source_kind_tree(SourceKind::Literal)),
                "value"@,
                Some(value),
            ),
        ),
        VariableSourceView::SecretReference { reference } => Tree::Object(
            with(
                with(Seq::empty(), "kind"@, source_kind_tree(SourceKind::SecretReference)),
                "reference"@,
                Some(Tree::Text(reference)),
            ),
        ),
    }
}

pub open spec fn source_of(tree: Tree) -> Option<VariableSourceView> {
    match tree {
        Tree::Object(entries) => match req_source_kind_at(entries, "kind"@) {
            Some(SourceKind::Literal) => match lookup(entries, "value"@) {
                Some(value) => if keys_in(entries, with_value_keys()) {
                    Some(VariableSourceView::Literal { value })
                } else {
                    None
                },
                None => None,
            },
            Some(SourceKind::SecretReference) => match req_text_at(entries, "reference"@) {
                Some(reference) => if keys_in(entries, with_reference_keys()) {
                    Some(VariableSourceView::SecretReference { reference })
                } else {
                    None
                },
                None => None,
            },
            None => None,
        },
        _ => None,
    }
}

proof fn source_round_trip(v: VariableSourceView)
    ensures
        source_of(source_tree(v)) == Some(v),
{
    let entries = source_tree(v)->Object_0;
    match v {
        VariableSourceView::Literal { value } => {
            source_kind_round_trip(SourceKind::Literal);
            with_value_entries(source_kind_tree(SourceKind::Literal), Some(value));
            assert(req_source_kind_at(entries, "kind"@) == Some(SourceKind::Literal));
        },
        VariableSourceView::SecretReference { reference } => {
            source_kind_round_trip(SourceKind::SecretReference);
            with_reference_entries(
                source_kind_tree(SourceKind::SecretReference),
                Some(Tree::Text(reference)),
            );
            assert(req_source_kind_at(entries, "kind"@) == Some(SourceKind::SecretReference));
            assert(req_text_at(entries, "reference"@) == Some(reference));
        },
    }
}

pub fn encode_source(v: &VariableSource) -> (r: Json)
    ensures
        r@ == source_tree(v@),
{
    broadcast use object_tree;

    let mut entries = no_fields();
    match v {
        VariableSource::Literal { value } => {
            add_field(
                &mut entries,
                "kind",
                Some(encode_text(source_kind_text(SourceKind::Literal))),
            );
            add_field(&mut entries, "value", Some(value.clone()));
        },
        VariableSource::SecretReference { reference } => {
            add_field(
                &mut entries,
                "kind",
                Some(encode_text(source_kind_text(SourceKind::SecretReference))),
            );
            add_field(&mut entries, "reference", Some(encode_text(reference.as_str())));
        },
    }
    Json::Object(entries)
}

pub fn decode_source(value: &Json) -> (r: Option<VariableSource>)
    ensures
        opt_view(r) == source_of(value@),
{
    broadcast use object_tree;

    let entries = match value {
        Json::Object(entries) => entries,
        _ => {
            return None;
        },
    };
    match read_req_source_kind_at(entries, "kind")? {
        SourceKind::Literal => {
            let keys = ["kind", "value"];
            assert(keys@ =~= with_value_keys());
            let literal = find_entry(entries, "value")?;
            if keys_among(entries, &keys) {
                Some(VariableSource::Literal { value: literal.clone() })
            } else {
                None
            }
        },
        SourceKind::SecretReference => {
            let keys = ["kind", "reference"];
            assert(keys@ =~= with_reference_keys());
            let reference = read_req_text_at(entries, "reference")?;
            if keys_among(entries, &keys) {
                Some(VariableSource::SecretReference { reference })
            } else {
                None
            }
        },
    }
}

pub open spec fn opt_source_tree(v: Option<VariableSourceView>) -> Option<Tree> {
    match v {
        Some(x) => Some(source_tree(x)),
        None => None,
    }
}

fn encode_opt_source(v: &Option<VariableSource>) -> (r: Option<Json>)
    ensures
        opt_view(r) == opt_source_tree(opt_view(*v)),
{
    match v {
        Some(x) => Some(encode_source(x)),
        None => None,
    }
}

pub open spec fn opt_source_at(
    entries: Seq<(Seq<char>, Tree)>,
    key: Seq<char>,
) -> Option<Option<VariableSourceView>> {
    optional(entries, key, |t: Tree| source_of(t))
}

fn read_opt_source_at(
    entries: &Vec<(String, Json)>,
    key: &str,
) -> (r: Option<Option<VariableSource>>)
    ensures
        match r {
            Some(x) => opt_source_at(entry_trees(entries@), key@) == Some(opt_view(x)),
            None => opt_source_at(entry_trees(entries@), key@) is None,
        },
{
    match find_entry(entries, key) {
        None => Some(None),
        Some(Json::Null) => Some(None),
        Some(value) => match decode_source(value) {
            Some(x) => Some(Some(x)),
            None => None,
        },
    }
}

pub open spec fn variable_keys() -> Seq<&'static str> {
    seq!["default", "description", "required", "type"]
}

pub open spec fn variable_tree(v: VariableDefinitionView) -> Tree {
    let entries: Seq<(Seq<char>, Tree)> = Seq::empty();
    let entries = with(entries, "default"@, opt_source_tree(v.default));
    let entries = with(entries, "description"@, opt_text_tree(v.description));
    let entries = with(entries, "required"@, Some(Tree::Bool(v.required)));
    let entries = with(entries, "type"@, Some(Tree::Text(variable_type_name(v.value_type))));
    Tree::Object(entries)
}

pub open spec fn variable_of(tree: Tree) -> Option<VariableDefinitionView> {
    match tree {
        Tree::Object(entries) => {
            let default = opt_source_at(entries, "default"@);
            let description = opt_text_at(entries, "description"@);
            let required = def_bool_at(entries, "required"@);
            let value_type = req_variable_type_at(entries, "type"@);
            if keys_in(entries, variable_keys()) && default is Some && description is Some
                && required is Some && value_type is Some {
                Some(
                    VariableDefinitionView {
                        default: default->0,
                        description: description->0,
                        required: required->0,
                        value_type: value_type->0,
                    },
                )
            } else {
                None
            }
        },
        _ => None,
    }
}

/// Each field is found under its key.
proof fn variable_entries(v0: Option<Tree>, v1: Option<Tree>, v2: Option<Tree>, v3: Option<Tree>)
    ensures
        ({
            let entries: Seq<(Seq<char>, Tree)> = Seq::empty();
            let entries = with(entries, "default"@, v0);
            let entries = with(entries, "description"@, v1);
            let entries = with(entries, "required"@, v2);
            let entries = with(entries, "type"@, v3);
            &&& keys_in(entries, variable_keys())
            &&& lookup(entries, "default"@) == v0
            &&& lookup(entries, "description"@) == v1
            &&& lookup(entries, "required"@) == v2
            &&& lookup(entries, "type"@) == v3
        }),
{
    broadcast use group_fields;

    reveal_strlit("default");
    reveal_strlit("description");
    reveal_strlit("required");
    reveal_strlit("type");
    assert("default"@.len() == 7);
    assert("description"@.len() == 11);
    assert("required"@.len() == 8);
    assert("type"@.len() == 4);
    assert(variable_keys()[0]@ == "default"@);
    assert(variable_keys()[1]@ == "description"@);
    assert(variable_keys()[2]@ == "required"@);
    assert(variable_keys()[3]@ == "type"@);
}

proof fn variable_round_trip(v: VariableDefinitionView)
    ensures
        variable_of(variable_tree(v)) == Some(v),
{
    let entries = variable_tree(v)->Object_0;
    variable_entries(
        opt_source_tree(v.default),
        opt_text_tree(v.description),
        Some(Tree::Bool(v.required)),
        Some(Tree::Text(variable_type_name(v.value_type))),
    );
    if v.default is Some {
        source_round_trip(v.default->0);
    }
    assert(opt_source_at(entries, "default"@) == Some(v.default));
    assert(opt_text_at(entries, "description"@) == Some(v.description));
    assert(def_bool_at(entries, "required"@) == Some(v.required));
    variable_type_round_trip(v.value_type);
    assert(req_variable_type_at(entries, "type"@) == Some(v.value_type));
}

pub fn encode_variable(v: &VariableDefinition) -> (r: Json)
    ensures
        r@ == variable_tree(v@),
{
    broadcast use object_tree;

    let mut entries = no_fields();
    add_field(&mut entries, "default", encode_opt_source(&v.default));
    add_field(&mut entries, "description", encode_opt_text(&v.description));
    add_field(&mut entries, "required", Some(Json::Bool(v.required)));
    add_field(&mut entries, "type", Some(encode_text(variable_type_text(v.value_type))));
    Json::Object(entries)
}

pub fn decode_variable(value: &Json) -> (r: Option<VariableDefinition>)
    ensures
        opt_view(r) == variable_of(value@),
{
    broadcast use object_tree;

    let entries = match value {
        Json::Object(entries) => entries,
        _ => {
            return None;
        },
    };
    let keys = ["default", "description", "required", "type"];
    assert(keys@ =~= variable_keys());
    if !keys_among(entries, &keys) {
        return None;
    }
    let default = read_opt_source_at(entries, "default")?;
    let description = read_opt_text_at(entries, "description")?;
    let required = read_def_bool_at(entries, "required")?;
    let value_type = read_req_variable_type_at(entries, "type")?;
    Some(VariableDefinition { default, description, required, value_type })
}

/// How the entries of an object are read: each under its key, and not at all where one cannot be
/// read.
pub open spec fn decode_entries<T>(
    entries: Seq<(Seq<char>, Tree)>,
    decode: spec_fn(Tree) -> Option<T>,
) -> Option<Seq<(Seq<char>, T)>>
    decreases entries.len(),
{
    if entries.len() == 0 {
        Some(Seq::empty())
    } else {
        match (decode_entries(entries.drop_last(), decode), decode(entries.last().1)) {
            (Some(front), Some(last)) => Some(front.push((entries.last().0, last))),
            _ => None,
        }
    }
}

proof fn decode_entries_all<T>(
    entries: Seq<(Seq<char>, Tree)>,
    decode: spec_fn(Tree) -> Option<T>,
    values: Seq<(Seq<char>, T)>,
)
    requires
        entries.len() == values.len(),
        forall|i: int|
            0 <= i < entries.len() ==> (#[trigger] entries[i]).0 == values[i].0 && decode(
                entries[i].1,
            ) == Some(values[i].1),
    ensures
        decode_entries(entries, decode) == Some(values),
    decreases entries.len(),
{
    if entries.len() == 0 {
        assert(values =~= Seq::empty());
    } else {
        decode_entries_all(entries.drop_last(), decode, values.drop_last());
        assert(values =~= values.drop_last().push(values.last()));
    }
}

proof fn decode_entries_stops<T>(
    entries: Seq<(Seq<char>, Tree)>,
    n: int,
    decode: spec_fn(Tree) -> Option<T>,
)
    requires
        0 <= n < entries.len(),
        decode(entries[n].1) is None,
    ensures
        decode_entries(entries, decode) is None,
    decreases entries.len(),
{
    if n < entries.len() - 1 {
        decode_entries_stops(entries.drop_last(), n, decode);
    }
}

pub open spec fn variables_tree(v: Seq<(Seq<char>, VariableDefinitionView)>) -> Tree {
    Tree::Object(v.map_values(|e: (Seq<char>, VariableDefinitionView)| (e.0, variable_tree(e.1))))
}

pub open spec fn variables_of(tree: Tree) -> Option<Seq<(Seq<char>, VariableDefinitionView)>> {
    match tree {
        Tree::Object(entries) => match decode_entries(entries, |t: Tree| variable_of(t)) {
            Some(pairs) => Some(put_all(Seq::empty(), pairs)),
            None => None,
        },
        _ => None,
    }
}

pub(crate) proof fn variables_round_trip(v: Seq<(Seq<char>, VariableDefinitionView)>)
    requires
        ascending(v),
    ensures
        variables_of(variables_tree(v)) == Some(v),
{
    let entries = variables_tree(v)->Object_0;
    assert forall|i: int| 0 <= i < entries.len() implies (#[trigger] entries[i]).0 == v[i].0
        && variable_of(entries[i].1) == Some(v[i].1) by {
        variable_round_trip(v[i].1);
    }
    decode_entries_all(entries, |t: Tree| variable_of(t), v);
    put_all_ascending(v);
}

pub open spec fn variables_field(v: Seq<(Seq<char>, VariableDefinitionView)>) -> Option<Tree> {
    if v.len() == 0 {
        None
    } else {
        Some(variables_tree(v))
    }
}

pub(crate) fn encode_variables_field(v: &TextMap<VariableDefinition>) -> (r: Option<Json>)
    ensures
        opt_view(r) == variables_field(entry_views(v@)),
{
    broadcast use object_tree;

    if v.len() == 0 {
        return None;
    }
    let mut out: Vec<(String, Json)> = Vec::new();
    let mut i: usize = 0;
    while i < v.len()
        invariant
            i <= v@.len(),
            out@.len() == i,
            forall|j: int|
                0 <= j < i ==> (#[trigger] out@[j]).0@ == v@[j].0 && out@[j].1@ == variable_tree(
                    v@[j].1@,
                ),
        decreases v@.len() - i,
    {
        let encoded = encode_variable(v.value_at(i));
        out.push((v.key_at(i).clone(), encoded));
        i = i + 1;
    }
    assert(entry_trees(out@) =~= variables_tree(entry_views(v@))->Object_0);
    Some(Json::Object(out))
}

pub(crate) fn decode_variables(value: &Json) -> (r: Option<TextMap<VariableDefinition>>)
    ensures
        match r {
            Some(v) => variables_of(value@) == Some(entry_views(v@)),
            None => variables_of(value@) is None,
        },
{
    broadcast use object_tree;

    let entries = match value {
        Json::Object(entries) => entries,
        _ => {
            return None;
        },
    };
    let ghost all = entry_trees(entries@);
    let ghost decode = |t: Tree| variable_of(t);
    let mut map: TextMap<VariableDefinition> = TextMap::new();
    let mut i: usize = 0;
    let ghost mut pairs: Seq<(Seq<char>, VariableDefinitionView)> = Seq::empty();
    assert(all.take(0) =~= Seq::empty());
    assert(entry_views(map@) =~= Seq::empty());
    while i < entries.len()
        invariant
            i <= entries@.len(),
            all == entry_trees(entries@),
            value@ == Tree::Object(all),
            decode == (|t: Tree| variable_of(t)),
            decode_entries(all.take(i as int), decode) == Some(pairs),
            entry_views(map@) == put_all(Seq::empty(), pairs),
        decreases entries@.len() - i,
    {
        proof {
            assert(all.take(i + 1).drop_last() =~= all.take(i as int));
            assert(all.take(i + 1).last() == all[i as int]);
            assert(all[i as int] == (entries@[i as int].0@, entries@[i as int].1@));
        }
        match decode_variable(&entries[i].1) {
            Some(variable) => {
                let ghost old_map = map@;
                let ghost pair = (all[i as int].0, variable@);
                let ghost added = variable;
                map.insert(entries[i].0.clone(), variable);
                proof {
                    put_views(old_map, pair.0, added);
                    assert(pairs.push(pair).drop_last() =~= pairs);
                    pairs = pairs.push(pair);
                }
            },
            None => {
                proof {
                    decode_entries_stops(all, i as int, decode);
                }
                return None;
            },
        }
        i = i + 1;
    }
    assert(all.take(i as int) =~= all);
    Some(map)
}

/// Binding a key before or after the values are viewed gives the same.
pub proof fn put_views<T: View>(entries: Seq<(Seq<char>, T)>, key: Seq<char>, value: T)
    ensures
        entry_views(put(entries, key, value)) == put(entry_views(entries), key, value@),
    decreases entries.len(),
{
    if entries.len() == 0 {
        assert(entry_views(put(entries, key, value)) =~= put(entry_views(entries), key, value@));
    } else {
        assert(entry_views(entries).drop_last() =~= entry_views(entries.drop_last()));
        if entries.last().0 == key || before(entries.last().0, key) {
            assert(entry_views(put(entries, key, value)) =~= put(
                entry_views(entries),
                key,
                value@,
            ));
        } else {
            put_views(entries.drop_last(), key, value);
            assert(entry_views(put(entries, key, value)) =~= put(
                entry_views(entries),
                key,
                value@,
            ));
        }
    }
}

pub open spec fn metadata_of(tree: Tree) -> Option<Seq<(Seq<char>, Tree)>> {
    match tree {
        Tree::Object(entries) => Some(put_all(Seq::empty(), entries)),
        _ => None,
    }
}

pub open spec fn metadata_field(v: Seq<(Seq<char>, Tree)>) -> Option<Tree> {
    if v.len() == 0 {
        None
    } else {
        Some(Tree::Object(v))
    }
}

pub(crate) proof fn metadata_round_trip(v: Seq<(Seq<char>, Tree)>)
    requires
        ascending(v),
    ensures
        metadata_of(Tree::Object(v)) == Some(v),
{
    put_all_ascending(v);
}

pub(crate) fn encode_metadata_field(v: &TextMap<Json>) -> (r: Option<Json>)
    ensures
        opt_view(r) == metadata_field(entry_views(v@)),
{
    broadcast use object_tree;

    if v.len() == 0 {
        return None;
    }
    let mut out: Vec<(String, Json)> = Vec::new();
    let mut i: usize = 0;
    while i < v.len()
        invariant
            i <= v@.len(),
            out@.len() == i,
            forall|j: int|
                0 <= j < i ==> (#[trigger] out@[j]).0@ == v@[j].0 && out@[j].1@ == v@[j].1@,
        decreases v@.len() - i,
    {
        out.push((v.key_at(i).clone(), v.value_at(i).clone()));
        i = i + 1;
    }
    assert(entry_trees(out@) =~= entry_views(v@));
    Some(Json::Object(out))
}

pub(crate) fn decode_metadata(value: &Json) -> (r: Option<TextMap<Json>>)
    ensures
        match r {
            Some(v) => metadata_of(value@) == Some(entry_views(v@)),
            None => metadata_of(value@) is None,
        },
{
    broadcast use object_tree;

    let entries = match value {
        Json::Object(entries) => entries,
        _ => {
            return None;
        },
    };
    let ghost all = entry_trees(entries@);
    let mut map: TextMap<Json> = TextMap::new();
    let mut i: usize = 0;
    assert(all.take(0) =~= Seq::empty());
    assert(entry_views(map@) =~= Seq::empty());
    while i < entries.len()
        invariant
            i <= entries@.len(),
            all == entry_trees(entries@),
            value@ == Tree::Object(all),
            entry_views(map@) == put_all(Seq::empty(), all.take(i as int)),
        decreases entries@.len() - i,
    {
        let copy = entries[i].1.clone();
        let ghost old_map = map@;
        let ghost added = copy;
        map.insert(entries[i].0.clone(), copy);
        proof {
            put_views(old_map, entries@[i as int].0@, added);
            assert(all.take(i + 1).drop_last() =~= all.take(i as int));
            assert(all.take(i + 1).last() == all[i as int]);
        }
        i = i + 1;
    }
    assert(all.take(i as int) =~= all);
    Some(map)
}

} // verus!
