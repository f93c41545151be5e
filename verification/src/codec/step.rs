//! Steps in documents.
use vstd::prelude::*;
use crate::codec::action::{
    action_app, action_args, action_assertion, action_command, action_condition, action_delta_x,
    action_delta_y, action_from, action_keys, action_kind, action_path, action_target, action_text,
    action_url, decode_action_from, decode_overrides, encode_action_app, encode_action_args,
    encode_action_assertion, encode_action_command, encode_action_condition, encode_action_delta_x,
    encode_action_delta_y, encode_action_keys, encode_action_kind, encode_action_path,
    encode_action_target, encode_action_text, encode_action_url, encode_overrides_field,
    kind_of_action, overrides_field, overrides_of, overrides_round_trip,
};
use crate::codec::condition::{
    assertion_round_trip, condition_round_trip, conditions_field, conditions_of,
    conditions_round_trip, decode_conditions, encode_conditions_field, req_assertion_at,
    req_condition_at,
};
use crate::codec::names::{
    action_kind_round_trip, backoff_name, backoff_round_trip, backoff_text, def_backoff_at,
    def_on_error_at, on_error_name, on_error_round_trip, on_error_text, read_def_backoff_at,
    read_def_on_error_at, read_req_action_kind_at, req_action_kind_at, ActionKind,
};
use crate::codec::readers::{
    def_texts_at, opt_text_at, read_opt_text_at, read_req_text_at, read_req_u32_at, req_i32_at,
    req_text_at, req_u32_at,
};
use crate::codec::shapes::field_names;
use crate::codec::target::{
    duration_round_trip, encode_opt_duration, opt_duration_at, opt_duration_tree, opt_target_at,
    read_opt_duration_at, req_target_at, target_is_object, target_round_trip,
};
use crate::collections::lookup;
use crate::definition::{
    default_retry, ActionView, PlatformActionOverride, PlatformActionOverrideView, RetryPolicy,
    Step, StepView, WaitCondition, WaitConditionView,
};
use crate::fields::{
    add_field, decode_each, decode_each_all, decode_each_step, defaulted, encode_opt_text,
    encode_text, encode_u64, group_fields, keys_among, keys_in, no_fields, opt_text_tree,
    texts_round_trip, unsigned, with,
};
use crate::value::{array_tree, entry_trees, find_entry, object_tree, trees, Json, Tree};
use crate::views::{opt_view, views};

verus! {

pub open spec fn retry_keys() -> Seq<&'static str> {
    seq!["backoff", "delay", "maxAttempts"]
}

pub open spec fn retry_tree(v: RetryPolicy) -> Tree {
    let entries: Seq<(Seq<char>, Tree)> = Seq::empty();
    let entries = with(entries, "backoff"@, Some(Tree::Text(backoff_name(v.backoff))));
    let entries = with(entries, "delay"@, opt_duration_tree(v.delay));
    let entries = with(entries, "maxAttempts"@, Some(unsigned(v.max_attempts as u64)));
    Tree::Object(entries)
}

pub open spec fn retry_of(tree: Tree) -> Option<RetryPolicy> {
    match tree {
        Tree::Object(entries) => {
            let backoff = def_backoff_at(entries, "backoff"@);
            let delay = opt_duration_at(entries, "delay"@);
            let max_attempts = req_u32_at(entries, "maxAttempts"@);
            if keys_in(entries, retry_keys()) && backoff is Some && delay is Some
                && max_attempts is Some {
                Some(
                    RetryPolicy {
                        backoff: backoff->0,
                        delay: delay->0,
                        max_attempts: max_attempts->0,
                    },
                )
            } else {
                None
            }
        },
        _ => None,
    }
}

/// Each field is found under its key.
proof fn retry_entries(v0: Option<Tree>, v1: Option<Tree>, v2: Option<Tree>)
    ensures
        ({
            let entries: Seq<(Seq<char>, Tree)> = Seq::empty();
            let entries = with(entries, "backoff"@, v0);
            let entries = with(entries, "delay"@, v1);
            let entries = with(entries, "maxAttempts"@, v2);
            &&& keys_in(entries, retry_keys())
            &&& lookup(entries, "backoff"@) == v0
            &&& lookup(entries, "delay"@) == v1
            &&& lookup(entries, "maxAttempts"@) == v2
        }),
{
    broadcast use group_fields;

    reveal_strlit("backoff");
    reveal_strlit("delay");
    reveal_strlit("maxAttempts");
    assert("backoff"@.len() == 7);
    assert("delay"@.len() == 5);
    assert("maxAttempts"@.len() == 11);
    assert(retry_keys()[0]@ == "backoff"@);
    assert(retry_keys()[1]@ == "delay"@);
    assert(retry_keys()[2]@ == "maxAttempts"@);
}

proof fn retry_round_trip(v: RetryPolicy)
    ensures
        retry_of(retry_tree(v)) == Some(v),
{
    let entries = retry_tree(v)->Object_0;
    retry_entries(
        Some(Tree::Text(backoff_name(v.backoff))),
        opt_duration_tree(v.delay),
        Some(unsigned(v.max_attempts as u64)),
    );
    backoff_round_trip(v.backoff);
    assert(def_backoff_at(entries, "backoff"@) == Some(v.backoff));
    if v.delay is Some {
        duration_round_trip(v.delay->0);
    }
    assert(opt_duration_at(entries, "delay"@) == Some(v.delay));
    assert(req_u32_at(entries, "maxAttempts"@) == Some(v.max_attempts));
}

pub fn encode_retry(v: RetryPolicy) -> (r: Json)
    ensures
        r@ == retry_tree(v),
{
    broadcast use object_tree;

    let mut entries = no_fields();
    add_field(&mut entries, "backoff", Some(encode_text(backoff_text(v.backoff))));
    add_field(&mut entries, "delay", encode_opt_duration(v.delay));
    add_field(&mut entries, "maxAttempts", Some(encode_u64(v.max_attempts as u64)));
    Json::Object(entries)
}

pub fn decode_retry(value: &Json) -> (r: Option<RetryPolicy>)
    ensures
        r == retry_of(value@),
{
    broadcast use object_tree;

    let entries = match value {
        Json::Object(entries) => entries,
        _ => {
            return None;
        },
    };
    let keys = ["backoff", "delay", "maxAttempts"];
    assert(keys@ =~= retry_keys());
    if !keys_among(entries, &keys) {
        return None;
    }
    let backoff = read_def_backoff_at(entries, "backoff")?;
    let delay = read_opt_duration_at(entries, "delay")?;
    let max_attempts = read_req_u32_at(entries, "maxAttempts")?;
    Some(RetryPolicy { backoff, delay, max_attempts })
}

pub open spec fn def_conditions_at(
    entries: Seq<(Seq<char>, Tree)>,
    key: Seq<char>,
) -> Option<Seq<WaitConditionView>> {
    defaulted(entries, key, |t: Tree| conditions_of(t), Seq::empty())
}

fn read_def_conditions_at(
    entries: &Vec<(String, Json)>,
    key: &str,
) -> (r: Option<Vec<WaitCondition>>)
    ensures
        match r {
            Some(x) => def_conditions_at(entry_trees(entries@), key@) == Some(views(x@)),
            None => def_conditions_at(entry_trees(entries@), key@) is None,
        },
{
    match find_entry(entries, key) {
        None => {
            let none: Vec<WaitCondition> = Vec::new();
            assert(views(none@) =~= Seq::empty());
            Some(none)
        },
        Some(value) => decode_conditions(value),
    }
}

pub open spec fn def_overrides_at(
    entries: Seq<(Seq<char>, Tree)>,
    key: Seq<char>,
) -> Option<Seq<PlatformActionOverrideView>> {
    defaulted(entries, key, |t: Tree| overrides_of(t), Seq::empty())
}

fn read_def_overrides_at(
    entries: &Vec<(String, Json)>,
    key: &str,
) -> (r: Option<Vec<PlatformActionOverride>>)
    ensures
        match r {
            Some(x) => def_overrides_at(entry_trees(entries@), key@) == Some(views(x@)),
            None => def_overrides_at(entry_trees(entries@), key@) is None,
        },
{
    match find_entry(entries, key) {
        None => {
            let none: Vec<PlatformActionOverride> = Vec::new();
            assert(views(none@) =~= Seq::empty());
            Some(none)
        },
        Some(value) => decode_overrides(value),
    }
}

pub open spec fn def_retry_at(
    entries: Seq<(Seq<char>, Tree)>,
    key: Seq<char>,
) -> Option<RetryPolicy> {
    defaulted(entries, key, |t: Tree| retry_of(t), default_retry())
}

fn read_def_retry_at(entries: &Vec<(String, Json)>, key: &str) -> (r: Option<RetryPolicy>)
    ensures
        match r {
            Some(x) => def_retry_at(entry_trees(entries@), key@) == Some(x),
            None => def_retry_at(entry_trees(entries@), key@) is None,
        },
{
    match find_entry(entries, key) {
        None => {
            Some(RetryPolicy::default())
        },
        Some(value) => decode_retry(value),
    }
}

pub open spec fn step_with_target_url_keys() -> Seq<&'static str> {
    seq![
        "conditions",
        "id",
        "kind",
        "label",
        "onError",
        "platformOverrides",
        "retry",
        "target",
        "timeout",
        "url",
    ]
}

/// Each field is found under its key.
proof fn step_with_target_url_entries(
    v0: Option<Tree>,
    v1: Option<Tree>,
    v2: Option<Tree>,
    v3: Option<Tree>,
    v4: Option<Tree>,
    v5: Option<Tree>,
    v6: Option<Tree>,
    v7: Option<Tree>,
    v8: Option<Tree>,
    v9: Option<Tree>,
)
    ensures
        ({
            let entries: Seq<(Seq<char>, Tree)> = Seq::empty();
            let entries = with(entries, "conditions"@, v0);
            let entries = with(entries, "id"@, v1);
            let entries = with(entries, "kind"@, v2);
            let entries = with(entries, "label"@, v3);
            let entries = with(entries, "onError"@, v4);
            let entries = with(entries, "platformOverrides"@, v5);
            let entries = with(entries, "retry"@, v6);
            let entries = with(entries, "target"@, v7);
            let entries = with(entries, "timeout"@, v8);
            let entries = with(entries, "url"@, v9);
            &&& keys_in(entries, step_with_target_url_keys())
            &&& lookup(entries, "conditions"@) == v0
            &&& lookup(entries, "id"@) == v1
            &&& lookup(entries, "kind"@) == v2
            &&& lookup(entries, "label"@) == v3
            &&& lookup(entries, "onError"@) == v4
            &&& lookup(entries, "platformOverrides"@) == v5
            &&& lookup(entries, "retry"@) == v6
            &&& lookup(entries, "target"@) == v7
            &&& lookup(entries, "timeout"@) == v8
            &&& lookup(entries, "url"@) == v9
        }),
{
    broadcast use group_fields;

    field_names();
    assert(step_with_target_url_keys()[0]@ == "conditions"@);
    assert(step_with_target_url_keys()[1]@ == "id"@);
    assert(step_with_target_url_keys()[2]@ == "kind"@);
    assert(step_with_target_url_keys()[3]@ == "label"@);
    assert(step_with_target_url_keys()[4]@ == "onError"@);
    assert(step_with_target_url_keys()[5]@ == "platformOverrides"@);
    assert(step_with_target_url_keys()[6]@ == "retry"@);
    assert(step_with_target_url_keys()[7]@ == "target"@);
    assert(step_with_target_url_keys()[8]@ == "timeout"@);
    assert(step_with_target_url_keys()[9]@ == "url"@);
}

pub open spec fn step_with_app_keys() -> Seq<&'static str> {
    seq![
        "app",
        "conditions",
        "id",
        "kind",
        "label",
        "onError",
        "platformOverrides",
        "retry",
        "target",
        "timeout",
    ]
}

/// Each field is found under its key.
proof fn step_with_app_entries(
    v0: Option<Tree>,
    v1: Option<Tree>,
    v2: Option<Tree>,
    v3: Option<Tree>,
    v4: Option<Tree>,
    v5: Option<Tree>,
    v6: Option<Tree>,
    v7: Option<Tree>,
    v8: Option<Tree>,
    v9: Option<Tree>,
)
    ensures
        ({
            let entries: Seq<(Seq<char>, Tree)> = Seq::empty();
            let entries = with(entries, "app"@, v0);
            let entries = with(entries, "conditions"@, v1);
            let entries = with(entries, "id"@, v2);
            let entries = with(entries, "kind"@, v3);
            let entries = with(entries, "label"@, v4);
            let entries = with(entries, "onError"@, v5);
            let entries = with(entries, "platformOverrides"@, v6);
            let entries = with(entries, "retry"@, v7);
            let entries = with(entries, "target"@, v8);
            let entries = with(entries, "timeout"@, v9);
            &&& keys_in(entries, step_with_app_keys())
            &&& lookup(entries, "app"@) == v0
            &&& lookup(entries, "conditions"@) == v1
            &&& lookup(entries, "id"@) == v2
            &&& lookup(entries, "kind"@) == v3
            &&& lookup(entries, "label"@) == v4
            &&& lookup(entries, "onError"@) == v5
            &&& lookup(entries, "platformOverrides"@) == v6
            &&& lookup(entries, "retry"@) == v7
            &&& lookup(entries, "target"@) == v8
            &&& lookup(entries, "timeout"@) == v9
        }),
{
    broadcast use group_fields;

    field_names();
    assert(step_with_app_keys()[0]@ == "app"@);
    assert(step_with_app_keys()[1]@ == "conditions"@);
    assert(step_with_app_keys()[2]@ == "id"@);
    assert(step_with_app_keys()[3]@ == "kind"@);
    assert(step_with_app_keys()[4]@ == "label"@);
    assert(step_with_app_keys()[5]@ == "onError"@);
    assert(step_with_app_keys()[6]@ == "platformOverrides"@);
    assert(step_with_app_keys()[7]@ == "retry"@);
    assert(step_with_app_keys()[8]@ == "target"@);
    assert(step_with_app_keys()[9]@ == "timeout"@);
}

pub open spec fn step_with_target_keys() -> Seq<&'static str> {
    seq![
        "conditions",
        "id",
        "kind",
        "label",
        "onError",
        "platformOverrides",
        "retry",
        "target",
        "timeout",
    ]
}

/// Each field is found under its key.
proof fn step_with_target_entries(
    v0: Option<Tree>,
    v1: Option<Tree>,
    v2: Option<Tree>,
    v3: Option<Tree>,
    v4: Option<Tree>,
    v5: Option<Tree>,
    v6: Option<Tree>,
    v7: Option<Tree>,
    v8: Option<Tree>,
)
    ensures
        ({
            let entries: Seq<(Seq<char>, Tree)> = Seq::empty();
            let entries = with(entries, "conditions"@, v0);
            let entries = with(entries, "id"@, v1);
            let entries = with(entries, "kind"@, v2);
            let entries = with(entries, "label"@, v3);
            let entries = with(entries, "onError"@, v4);
            let entries = with(entries, "platformOverrides"@, v5);
            let entries = with(entries, "retry"@, v6);
            let entries = with(entries, "target"@, v7);
            let entries = with(entries, "timeout"@, v8);
            &&& keys_in(entries, step_with_target_keys())
            &&& lookup(entries, "conditions"@) == v0
            &&& lookup(entries, "id"@) == v1
            &&& lookup(entries, "kind"@) == v2
            &&& lookup(entries, "label"@) == v3
            &&& lookup(entries, "onError"@) == v4
            &&& lookup(entries, "platformOverrides"@) == v5
            &&& lookup(entries, "retry"@) == v6
            &&& lookup(entries, "target"@) == v7
            &&& lookup(entries, "timeout"@) == v8
        }),
{
    broadcast use group_fields;

    field_names();
    assert(step_with_target_keys()[0]@ == "conditions"@);
    assert(step_with_target_keys()[1]@ == "id"@);
    assert(step_with_target_keys()[2]@ == "kind"@);
    assert(step_with_target_keys()[3]@ == "label"@);
    assert(step_with_target_keys()[4]@ == "onError"@);
    assert(step_with_target_keys()[5]@ == "platformOverrides"@);
    assert(step_with_target_keys()[6]@ == "retry"@);
    assert(step_with_target_keys()[7]@ == "target"@);
    assert(step_with_target_keys()[8]@ == "timeout"@);
}

pub open spec fn step_with_target_text_keys() -> Seq<&'static str> {
    seq![
        "conditions",
        "id",
        "kind",
        "label",
        "onError",
        "platformOverrides",
        "retry",
        "target",
        "text",
        "timeout",
    ]
}

/// Each field is found under its key.
proof fn step_with_target_text_entries(
    v0: Option<Tree>,
    v1: Option<Tree>,
    v2: Option<Tree>,
    v3: Option<Tree>,
    v4: Option<Tree>,
    v5: Option<Tree>,
    v6: Option<Tree>,
    v7: Option<Tree>,
    v8: Option<Tree>,
    v9: Option<Tree>,
)
    ensures
        ({
            let entries: Seq<(Seq<char>, Tree)> = Seq::empty();
            let entries = with(entries, "conditions"@, v0);
            let entries = with(entries, "id"@, v1);
            let entries = with(entries, "kind"@, v2);
            let entries = with(entries, "label"@, v3);
            let entries = with(entries, "onError"@, v4);
            let entries = with(entries, "platformOverrides"@, v5);
            let entries = with(entries, "retry"@, v6);
            let entries = with(entries, "target"@, v7);
            let entries = with(entries, "text"@, v8);
            let entries = with(entries, "timeout"@, v9);
            &&& keys_in(entries, step_with_target_text_keys())
            &&& lookup(entries, "conditions"@) == v0
            &&& lookup(entries, "id"@) == v1
            &&& lookup(entries, "kind"@) == v2
            &&& lookup(entries, "label"@) == v3
            &&& lookup(entries, "onError"@) == v4
            &&& lookup(entries, "platformOverrides"@) == v5
            &&& lookup(entries, "retry"@) == v6
            &&& lookup(entries, "target"@) == v7
            &&& lookup(entries, "text"@) == v8
            &&& lookup(entries, "timeout"@) == v9
        }),
{
    broadcast use group_fields;

    field_names();
    assert(step_with_target_text_keys()[0]@ == "conditions"@);
    assert(step_with_target_text_keys()[1]@ == "id"@);
    assert(step_with_target_text_keys()[2]@ == "kind"@);
    assert(step_with_target_text_keys()[3]@ == "label"@);
    assert(step_with_target_text_keys()[4]@ == "onError"@);
    assert(step_with_target_text_keys()[5]@ == "platformOverrides"@);
    assert(step_with_target_text_keys()[6]@ == "retry"@);
    assert(step_with_target_text_keys()[7]@ == "target"@);
    assert(step_with_target_text_keys()[8]@ == "text"@);
    assert(step_with_target_text_keys()[9]@ == "timeout"@);
}

pub open spec fn step_with_keys_keys() -> Seq<&'static str> {
    seq![
        "conditions",
        "id",
        "keys",
        "kind",
        "label",
        "onError",
        "platformOverrides",
        "retry",
        "target",
        "timeout",
    ]
}

/// Each field is found under its key.
proof fn step_with_keys_entries(
    v0: Option<Tree>,
    v1: Option<Tree>,
    v2: Option<Tree>,
    v3: Option<Tree>,
    v4: Option<Tree>,
    v5: Option<Tree>,
    v6: Option<Tree>,
    v7: Option<Tree>,
    v8: Option<Tree>,
    v9: Option<Tree>,
)
    ensures
        ({
            let entries: Seq<(Seq<char>, Tree)> = Seq::empty();
            let entries = with(entries, "conditions"@, v0);
            let entries = with(entries, "id"@, v1);
            let entries = with(entries, "keys"@, v2);
            let entries = with(entries, "kind"@, v3);
            let entries = with(entries, "label"@, v4);
            let entries = with(entries, "onError"@, v5);
            let entries = with(entries, "platformOverrides"@, v6);
            let entries = with(entries, "retry"@, v7);
            let entries = with(entries, "target"@, v8);
            let entries = with(entries, "timeout"@, v9);
            &&& keys_in(entries, step_with_keys_keys())
            &&& lookup(entries, "conditions"@) == v0
            &&& lookup(entries, "id"@) == v1
            &&& lookup(entries, "keys"@) == v2
            &&& lookup(entries, "kind"@) == v3
            &&& lookup(entries, "label"@) == v4
            &&& lookup(entries, "onError"@) == v5
            &&& lookup(entries, "platformOverrides"@) == v6
            &&& lookup(entries, "retry"@) == v7
            &&& lookup(entries, "target"@) == v8
            &&& lookup(entries, "timeout"@) == v9
        }),
{
    broadcast use group_fields;

    field_names();
    assert(step_with_keys_keys()[0]@ == "conditions"@);
    assert(step_with_keys_keys()[1]@ == "id"@);
    assert(step_with_keys_keys()[2]@ == "keys"@);
    assert(step_with_keys_keys()[3]@ == "kind"@);
    assert(step_with_keys_keys()[4]@ == "label"@);
    assert(step_with_keys_keys()[5]@ == "onError"@);
    assert(step_with_keys_keys()[6]@ == "platformOverrides"@);
    assert(step_with_keys_keys()[7]@ == "retry"@);
    assert(step_with_keys_keys()[8]@ == "target"@);
    assert(step_with_keys_keys()[9]@ == "timeout"@);
}

pub open spec fn step_with_deltas_keys() -> Seq<&'static str> {
    seq![
        "conditions",
        "delta_x",
        "delta_y",
        "id",
        "kind",
        "label",
        "onError",
        "platformOverrides",
        "retry",
        "target",
        "timeout",
    ]
}

/// Each field is found under its key.
proof fn step_with_deltas_entries(
    v0: Option<Tree>,
    v1: Option<Tree>,
    v2: Option<Tree>,
    v3: Option<Tree>,
    v4: Option<Tree>,
    v5: Option<Tree>,
    v6: Option<Tree>,
    v7: Option<Tree>,
    v8: Option<Tree>,
    v9: Option<Tree>,
    v10: Option<Tree>,
)
    ensures
        ({
            let entries: Seq<(Seq<char>, Tree)> = Seq::empty();
            let entries = with(entries, "conditions"@, v0);
            let entries = with(entries, "delta_x"@, v1);
            let entries = with(entries, "delta_y"@, v2);
            let entries = with(entries, "id"@, v3);
            let entries = with(entries, "kind"@, v4);
            let entries = with(entries, "label"@, v5);
            let entries = with(entries, "onError"@, v6);
            let entries = with(entries, "platformOverrides"@, v7);
            let entries = with(entries, "retry"@, v8);
            let entries = with(entries, "target"@, v9);
            let entries = with(entries, "timeout"@, v10);
            &&& keys_in(entries, step_with_deltas_keys())
            &&& lookup(entries, "conditions"@) == v0
            &&& lookup(entries, "delta_x"@) == v1
            &&& lookup(entries, "delta_y"@) == v2
            &&& lookup(entries, "id"@) == v3
            &&& lookup(entries, "kind"@) == v4
            &&& lookup(entries, "label"@) == v5
            &&& lookup(entries, "onError"@) == v6
            &&& lookup(entries, "platformOverrides"@) == v7
            &&& lookup(entries, "retry"@) == v8
            &&& lookup(entries, "target"@) == v9
            &&& lookup(entries, "timeout"@) == v10
        }),
{
    broadcast use group_fields;

    field_names();
    assert(step_with_deltas_keys()[0]@ == "conditions"@);
    assert(step_with_deltas_keys()[1]@ == "delta_x"@);
    assert(step_with_deltas_keys()[2]@ == "delta_y"@);
    assert(step_with_deltas_keys()[3]@ == "id"@);
    assert(step_with_deltas_keys()[4]@ == "kind"@);
    assert(step_with_deltas_keys()[5]@ == "label"@);
    assert(step_with_deltas_keys()[6]@ == "onError"@);
    assert(step_with_deltas_keys()[7]@ == "platformOverrides"@);
    assert(step_with_deltas_keys()[8]@ == "retry"@);
    assert(step_with_deltas_keys()[9]@ == "target"@);
    assert(step_with_deltas_keys()[10]@ == "timeout"@);
}

pub open spec fn step_with_condition_keys() -> Seq<&'static str> {
    seq![
        "condition",
        "conditions",
        "id",
        "kind",
        "label",
        "onError",
        "platformOverrides",
        "retry",
        "timeout",
    ]
}

/// Each field is found under its key.
proof fn step_with_condition_entries(
    v0: Option<Tree>,
    v1: Option<Tree>,
    v2: Option<Tree>,
    v3: Option<Tree>,
    v4: Option<Tree>,
    v5: Option<Tree>,
    v6: Option<Tree>,
    v7: Option<Tree>,
    v8: Option<Tree>,
)
    ensures
        ({
            let entries: Seq<(Seq<char>, Tree)> = Seq::empty();
            let entries = with(entries, "condition"@, v0);
            let entries = with(entries, "conditions"@, v1);
            let entries = with(entries, "id"@, v2);
            let entries = with(entries, "kind"@, v3);
            let entries = with(entries, "label"@, v4);
            let entries = with(entries, "onError"@, v5);
            let entries = with(entries, "platformOverrides"@, v6);
            let entries = with(entries, "retry"@, v7);
            let entries = with(entries, "timeout"@, v8);
            &&& keys_in(entries, step_with_condition_keys())
            &&& lookup(entries, "condition"@) == v0
            &&& lookup(entries, "conditions"@) == v1
            &&& lookup(entries, "id"@) == v2
            &&& lookup(entries, "kind"@) == v3
            &&& lookup(entries, "label"@) == v4
            &&& lookup(entries, "onError"@) == v5
            &&& lookup(entries, "platformOverrides"@) == v6
            &&& lookup(entries, "retry"@) == v7
            &&& lookup(entries, "timeout"@) == v8
        }),
{
    broadcast use group_fields;

    field_names();
    assert(step_with_condition_keys()[0]@ == "condition"@);
    assert(step_with_condition_keys()[1]@ == "conditions"@);
    assert(step_with_condition_keys()[2]@ == "id"@);
    assert(step_with_condition_keys()[3]@ == "kind"@);
    assert(step_with_condition_keys()[4]@ == "label"@);
    assert(step_with_condition_keys()[5]@ == "onError"@);
    assert(step_with_condition_keys()[6]@ == "platformOverrides"@);
    assert(step_with_condition_keys()[7]@ == "retry"@);
    assert(step_with_condition_keys()[8]@ == "timeout"@);
}

pub open spec fn step_with_assertion_keys() -> Seq<&'static str> {
    seq![
        "assertion",
        "conditions",
        "id",
        "kind",
        "label",
        "onError",
        "platformOverrides",
        "retry",
        "timeout",
    ]
}

/// Each field is found under its key.
proof fn step_with_assertion_entries(
    v0: Option<Tree>,
    v1: Option<Tree>,
    v2: Option<Tree>,
    v3: Option<Tree>,
    v4: Option<Tree>,
    v5: Option<Tree>,
    v6: Option<Tree>,
    v7: Option<Tree>,
    v8: Option<Tree>,
)
    ensures
        ({
            let entries: Seq<(Seq<char>, Tree)> = Seq::empty();
            let entries = with(entries, "assertion"@, v0);
            let entries = with(entries, "conditions"@, v1);
            let entries = with(entries, "id"@, v2);
            let entries = with(entries, "kind"@, v3);
            let entries = with(entries, "label"@, v4);
            let entries = with(entries, "onError"@, v5);
            let entries = with(entries, "platformOverrides"@, v6);
            let entries = with(entries, "retry"@, v7);
            let entries = with(entries, "timeout"@, v8);
            &&& keys_in(entries, step_with_assertion_keys())
            &&& lookup(entries, "assertion"@) == v0
            &&& lookup(entries, "conditions"@) == v1
            &&& lookup(entries, "id"@) == v2
            &&& lookup(entries, "kind"@) == v3
            &&& lookup(entries, "label"@) == v4
            &&& lookup(entries, "onError"@) == v5
            &&& lookup(entries, "platformOverrides"@) == v6
            &&& lookup(entries, "retry"@) == v7
            &&& lookup(entries, "timeout"@) == v8
        }),
{
    broadcast use group_fields;

    field_names();
    assert(step_with_assertion_keys()[0]@ == "assertion"@);
    assert(step_with_assertion_keys()[1]@ == "conditions"@);
    assert(step_with_assertion_keys()[2]@ == "id"@);
    assert(step_with_assertion_keys()[3]@ == "kind"@);
    assert(step_with_assertion_keys()[4]@ == "label"@);
    assert(step_with_assertion_keys()[5]@ == "onError"@);
    assert(step_with_assertion_keys()[6]@ == "platformOverrides"@);
    assert(step_with_assertion_keys()[7]@ == "retry"@);
    assert(step_with_assertion_keys()[8]@ == "timeout"@);
}

pub open spec fn step_with_command_keys() -> Seq<&'static str> {
    seq![
        "args",
        "command",
        "conditions",
        "id",
        "kind",
        "label",
        "onError",
        "platformOverrides",
        "retry",
        "timeout",
    ]
}

/// Each field is found under its key.
proof fn step_with_command_entries(
    v0: Option<Tree>,
    v1: Option<Tree>,
    v2: Option<Tree>,
    v3: Option<Tree>,
    v4: Option<Tree>,
    v5: Option<Tree>,
    v6: Option<Tree>,
    v7: Option<Tree>,
    v8: Option<Tree>,
    v9: Option<Tree>,
)
    ensures
        ({
            let entries: Seq<(Seq<char>, Tree)> = Seq::empty();
            let entries = with(entries, "args"@, v0);
            let entries = with(entries, "command"@, v1);
            let entries = with(entries, "conditions"@, v2);
            let entries = with(entries, "id"@, v3);
            let entries = with(entries, "kind"@, v4);
            let entries = with(entries, "label"@, v5);
            let entries = with(entries, "onError"@, v6);
            let entries = with(entries, "platformOverrides"@, v7);
            let entries = with(entries, "retry"@, v8);
            let entries = with(entries, "timeout"@, v9);
            &&& keys_in(entries, step_with_command_keys())
            &&& lookup(entries, "args"@) == v0
            &&& lookup(entries, "command"@) == v1
            &&& lookup(entries, "conditions"@) == v2
            &&& lookup(entries, "id"@) == v3
            &&& lookup(entries, "kind"@) == v4
            &&& lookup(entries, "label"@) == v5
            &&& lookup(entries, "onError"@) == v6
            &&& lookup(entries, "platformOverrides"@) == v7
            &&& lookup(entries, "retry"@) == v8
            &&& lookup(entries, "timeout"@) == v9
        }),
{
    broadcast use group_fields;

    field_names();
    assert(step_with_command_keys()[0]@ == "args"@);
    assert(step_with_command_keys()[1]@ == "command"@);
    assert(step_with_command_keys()[2]@ == "conditions"@);
    assert(step_with_command_keys()[3]@ == "id"@);
    assert(step_with_command_keys()[4]@ == "kind"@);
    assert(step_with_command_keys()[5]@ == "label"@);
    assert(step_with_command_keys()[6]@ == "onError"@);
    assert(step_with_command_keys()[7]@ == "platformOverrides"@);
    assert(step_with_command_keys()[8]@ == "retry"@);
    assert(step_with_command_keys()[9]@ == "timeout"@);
}

pub open spec fn step_with_path_target_keys() -> Seq<&'static str> {
    seq![
        "conditions",
        "id",
        "kind",
        "label",
        "onError",
        "path",
        "platformOverrides",
        "retry",
        "target",
        "timeout",
    ]
}

/// Each field is found under its key.
proof fn step_with_path_target_entries(
    v0: Option<Tree>,
    v1: Option<Tree>,
    v2: Option<Tree>,
    v3: Option<Tree>,
    v4: Option<Tree>,
    v5: Option<Tree>,
    v6: Option<Tree>,
    v7: Option<Tree>,
    v8: Option<Tree>,
    v9: Option<Tree>,
)
    ensures
        ({
            let entries: Seq<(Seq<char>, Tree)> = Seq::empty();
            let entries = with(entries, "conditions"@, v0);
            let entries = with(entries, "id"@, v1);
            let entries = with(entries, "kind"@, v2);
            let entries = with(entries, "label"@, v3);
            let entries = with(entries, "onError"@, v4);
            let entries = with(entries, "path"@, v5);
            let entries = with(entries, "platformOverrides"@, v6);
            let entries = with(entries, "retry"@, v7);
            let entries = with(entries, "target"@, v8);
            let entries = with(entries, "timeout"@, v9);
            &&& keys_in(entries, step_with_path_target_keys())
            &&& lookup(entries, "conditions"@) == v0
            &&& lookup(entries, "id"@) == v1
            &&& lookup(entries, "kind"@) == v2
            &&& lookup(entries, "label"@) == v3
            &&& lookup(entries, "onError"@) == v4
            &&& lookup(entries, "path"@) == v5
            &&& lookup(entries, "platformOverrides"@) == v6
            &&& lookup(entries, "retry"@) == v7
            &&& lookup(entries, "target"@) == v8
            &&& lookup(entries, "timeout"@) == v9
        }),
{
    broadcast use group_fields;

    field_names();
    assert(step_with_path_target_keys()[0]@ == "conditions"@);
    assert(step_with_path_target_keys()[1]@ == "id"@);
    assert(step_with_path_target_keys()[2]@ == "kind"@);
    assert(step_with_path_target_keys()[3]@ == "label"@);
    assert(step_with_path_target_keys()[4]@ == "onError"@);
    assert(step_with_path_target_keys()[5]@ == "path"@);
    assert(step_with_path_target_keys()[6]@ == "platformOverrides"@);
    assert(step_with_path_target_keys()[7]@ == "retry"@);
    assert(step_with_path_target_keys()[8]@ == "target"@);
    assert(step_with_path_target_keys()[9]@ == "timeout"@);
}

/// A step and its action share one object.
pub open spec fn step_tree(s: StepView) -> Tree {
    let entries: Seq<(Seq<char>, Tree)> = Seq::empty();
    let entries = with(entries, "app"@, action_app(s.action));
    let entries = with(entries, "args"@, action_args(s.action));
    let entries = with(entries, "assertion"@, action_assertion(s.action));
    let entries = with(entries, "command"@, action_command(s.action));
    let entries = with(entries, "condition"@, action_condition(s.action));
    let entries = with(entries, "conditions"@, conditions_field(s.conditions));
    let entries = with(entries, "delta_x"@, action_delta_x(s.action));
    let entries = with(entries, "delta_y"@, action_delta_y(s.action));
    let entries = with(entries, "id"@, Some(Tree::Text(s.id)));
    let entries = with(entries, "keys"@, action_keys(s.action));
    let entries = with(entries, "kind"@, action_kind(s.action));
    let entries = with(entries, "label"@, opt_text_tree(s.label));
    let entries = with(entries, "onError"@, Some(Tree::Text(on_error_name(s.on_error))));
    let entries = with(entries, "path"@, action_path(s.action));
    let entries = with(entries, "platformOverrides"@, overrides_field(s.platform_overrides));
    let entries = with(entries, "retry"@, Some(retry_tree(s.retry)));
    let entries = with(entries, "target"@, action_target(s.action));
    let entries = with(entries, "text"@, action_text(s.action));
    let entries = with(entries, "timeout"@, opt_duration_tree(s.timeout));
    let entries = with(entries, "url"@, action_url(s.action));
    Tree::Object(entries)
}

pub open spec fn step_names(kind: ActionKind) -> Seq<&'static str> {
    match kind {
        ActionKind::LaunchUrl => step_with_target_url_keys(),
        ActionKind::LaunchApp => step_with_app_keys(),
        ActionKind::FocusWindow => step_with_target_keys(),
        ActionKind::TypeText => step_with_target_text_keys(),
        ActionKind::PressKey => step_with_keys_keys(),
        ActionKind::ClickTarget => step_with_target_keys(),
        ActionKind::Scroll => step_with_deltas_keys(),
        ActionKind::WaitFor => step_with_condition_keys(),
        ActionKind::Assert => step_with_assertion_keys(),
        ActionKind::RunCommand => step_with_command_keys(),
        ActionKind::OpenFile => step_with_path_target_keys(),
    }
}

pub open spec fn step_of(tree: Tree) -> Option<StepView> {
    match tree {
        Tree::Object(entries) => match req_action_kind_at(entries, "kind"@) {
            Some(kind) => {
                let action = action_from(kind, entries);
                let conditions = def_conditions_at(entries, "conditions"@);
                let id = req_text_at(entries, "id"@);
                let label = opt_text_at(entries, "label"@);
                let on_error = def_on_error_at(entries, "onError"@);
                let platform_overrides = def_overrides_at(entries, "platformOverrides"@);
                let retry = def_retry_at(entries, "retry"@);
                let timeout = opt_duration_at(entries, "timeout"@);
                if keys_in(entries, step_names(kind)) && action is Some && conditions is Some
                    && id is Some && label is Some && on_error is Some
                    && platform_overrides is Some && retry is Some && timeout is Some {
                    Some(
                        StepView {
                            action: action->0,
                            conditions: conditions->0,
                            id: id->0,
                            label: label->0,
                            on_error: on_error->0,
                            platform_overrides: platform_overrides->0,
                            retry: retry->0,
                            timeout: timeout->0,
                        },
                    )
                } else {
                    None
                }
            },
            None => None,
        },
        _ => None,
    }
}

/// A step that is written and read back is the same step.
pub proof fn step_round_trip(s: StepView)
    ensures
        step_of(step_tree(s)) == Some(s),
{
    let entries = step_tree(s)->Object_0;
    let a = s.action;
    let kind = kind_of_action(a);
    step_entries_found(s);
    action_kind_round_trip(kind);
    conditions_round_trip(s.conditions);
    overrides_round_trip(s.platform_overrides);
    on_error_round_trip(s.on_error);
    retry_round_trip(s.retry);
    if s.timeout is Some {
        duration_round_trip(s.timeout->0);
    }
    step_action_found(s);
    assert(def_conditions_at(entries, "conditions"@) == Some(s.conditions)) by {
        if s.conditions.len() == 0 {
            assert(s.conditions =~= Seq::empty());
        }
    }
    assert(def_overrides_at(entries, "platformOverrides"@) == Some(s.platform_overrides)) by {
        if s.platform_overrides.len() == 0 {
            assert(s.platform_overrides =~= Seq::empty());
        }
    }
    assert(req_text_at(entries, "id"@) == Some(s.id));
    assert(opt_text_at(entries, "label"@) == Some(s.label));
    assert(def_on_error_at(entries, "onError"@) == Some(s.on_error));
    assert(def_retry_at(entries, "retry"@) == Some(s.retry));
    assert(opt_duration_at(entries, "timeout"@) == Some(s.timeout));
    assert(req_action_kind_at(entries, "kind"@) == Some(kind));
}

/// The fields of a step are found under their keys, and no other.
proof fn step_entries_found(s: StepView)
    ensures
        ({
            let entries = step_tree(s)->Object_0;
            &&& keys_in(entries, step_names(kind_of_action(s.action)))
            &&& lookup(entries, "conditions"@) == conditions_field(s.conditions)
            &&& lookup(entries, "id"@) == Some(Tree::Text(s.id))
            &&& lookup(entries, "kind"@) == action_kind(s.action)
            &&& lookup(entries, "label"@) == opt_text_tree(s.label)
            &&& lookup(entries, "onError"@) == Some(Tree::Text(on_error_name(s.on_error)))
            &&& lookup(entries, "platformOverrides"@) == overrides_field(s.platform_overrides)
            &&& lookup(entries, "retry"@) == Some(retry_tree(s.retry))
            &&& lookup(entries, "timeout"@) == opt_duration_tree(s.timeout)
            &&& found(entries, s.action)
        }),
{
    match s.action {
        ActionView::LaunchUrl { url, target } => {
            step_with_target_url_entries(
                conditions_field(s.conditions),
                Some(Tree::Text(s.id)),
                action_kind(s.action),
                opt_text_tree(s.label),
                Some(Tree::Text(on_error_name(s.on_error))),
                overrides_field(s.platform_overrides),
                Some(retry_tree(s.retry)),
                action_target(s.action),
                opt_duration_tree(s.timeout),
                action_url(s.action),
            );
        },
        ActionView::LaunchApp { app, target } => {
            step_with_app_entries(
                action_app(s.action),
                conditions_field(s.conditions),
                Some(Tree::Text(s.id)),
                action_kind(s.action),
                opt_text_tree(s.label),
                Some(Tree::Text(on_error_name(s.on_error))),
                overrides_field(s.platform_overrides),
                Some(retry_tree(s.retry)),
                action_target(s.action),
                opt_duration_tree(s.timeout),
            );
        },
        ActionView::FocusWindow { target } => {
            step_with_target_entries(
                conditions_field(s.conditions),
                Some(Tree::Text(s.id)),
                action_kind(s.action),
                opt_text_tree(s.label),
                Some(Tree::Text(on_error_name(s.on_error))),
                overrides_field(s.platform_overrides),
                Some(retry_tree(s.retry)),
                action_target(s.action),
                opt_duration_tree(s.timeout),
            );
        },
        ActionView::TypeText { text, target } => {
            step_with_target_text_entries(
                conditions_field(s.conditions),
                Some(Tree::Text(s.id)),
                action_kind(s.action),
                opt_text_tree(s.label),
                Some(Tree::Text(on_error_name(s.on_error))),
                overrides_field(s.platform_overrides),
                Some(retry_tree(s.retry)),
                action_target(s.action),
                action_text(s.action),
                opt_duration_tree(s.timeout),
            );
        },
        ActionView::PressKey { keys, target } => {
            step_with_keys_entries(
                conditions_field(s.conditions),
                Some(Tree::Text(s.id)),
                action_keys(s.action),
                action_kind(s.action),
                opt_text_tree(s.label),
                Some(Tree::Text(on_error_name(s.on_error))),
                overrides_field(s.platform_overrides),
                Some(retry_tree(s.retry)),
                action_target(s.action),
                opt_duration_tree(s.timeout),
            );
        },
        ActionView::ClickTarget { target } => {
            step_with_target_entries(
                conditions_field(s.conditions),
                Some(Tree::Text(s.id)),
                action_kind(s.action),
                opt_text_tree(s.label),
                Some(Tree::Text(on_error_name(s.on_error))),
                overrides_field(s.platform_overrides),
                Some(retry_tree(s.retry)),
                action_target(s.action),
                opt_duration_tree(s.timeout),
            );
        },
        ActionView::Scroll { delta_x, delta_y, target } => {
            step_with_deltas_entries(
                conditions_field(s.conditions),
                action_delta_x(s.action),
                action_delta_y(s.action),
                Some(Tree::Text(s.id)),
                action_kind(s.action),
                opt_text_tree(s.label),
                Some(Tree::Text(on_error_name(s.on_error))),
                overrides_field(s.platform_overrides),
                Some(retry_tree(s.retry)),
                action_target(s.action),
                opt_duration_tree(s.timeout),
            );
        },
        ActionView::WaitFor { condition } => {
            step_with_condition_entries(
                action_condition(s.action),
                conditions_field(s.conditions),
                Some(Tree::Text(s.id)),
                action_kind(s.action),
                opt_text_tree(s.label),
                Some(Tree::Text(on_error_name(s.on_error))),
                overrides_field(s.platform_overrides),
                Some(retry_tree(s.retry)),
                opt_duration_tree(s.timeout),
            );
        },
        ActionView::Assert { assertion } => {
            step_with_assertion_entries(
                action_assertion(s.action),
                conditions_field(s.conditions),
                Some(Tree::Text(s.id)),
                action_kind(s.action),
                opt_text_tree(s.label),
                Some(Tree::Text(on_error_name(s.on_error))),
                overrides_field(s.platform_overrides),
                Some(retry_tree(s.retry)),
                opt_duration_tree(s.timeout),
            );
        },
        ActionView::RunCommand { command, args } => {
            step_with_command_entries(
                action_args(s.action),
                action_command(s.action),
                conditions_field(s.conditions),
                Some(Tree::Text(s.id)),
                action_kind(s.action),
                opt_text_tree(s.label),
                Some(Tree::Text(on_error_name(s.on_error))),
                overrides_field(s.platform_overrides),
                Some(retry_tree(s.retry)),
                opt_duration_tree(s.timeout),
            );
        },
        ActionView::OpenFile { path, target } => {
            step_with_path_target_entries(
                conditions_field(s.conditions),
                Some(Tree::Text(s.id)),
                action_kind(s.action),
                opt_text_tree(s.label),
                Some(Tree::Text(on_error_name(s.on_error))),
                action_path(s.action),
                overrides_field(s.platform_overrides),
                Some(retry_tree(s.retry)),
                action_target(s.action),
                opt_duration_tree(s.timeout),
            );
        },
    }
}

/// Whether the fields of an action are found under their keys.
pub open spec fn found(entries: Seq<(Seq<char>, Tree)>, a: ActionView) -> bool {
    match a {
        ActionView::LaunchUrl { url, target } => {
            &&& lookup(entries, "url"@) == action_url(a)
            &&& lookup(entries, "target"@) == action_target(a)
        },
        ActionView::LaunchApp { app, target } => {
            &&& lookup(entries, "app"@) == action_app(a)
            &&& lookup(entries, "target"@) == action_target(a)
        },
        ActionView::FocusWindow { target } => {
            &&& lookup(entries, "target"@) == action_target(a)
        },
        ActionView::TypeText { text, target } => {
            &&& lookup(entries, "text"@) == action_text(a)
            &&& lookup(entries, "target"@) == action_target(a)
        },
        ActionView::PressKey { keys, target } => {
            &&& lookup(entries, "keys"@) == action_keys(a)
            &&& lookup(entries, "target"@) == action_target(a)
        },
        ActionView::ClickTarget { target } => {
            &&& lookup(entries, "target"@) == action_target(a)
        },
        ActionView::Scroll { delta_x, delta_y, target } => {
            &&& lookup(entries, "delta_x"@) == action_delta_x(a)
            &&& lookup(entries, "delta_y"@) == action_delta_y(a)
            &&& lookup(entries, "target"@) == action_target(a)
        },
        ActionView::WaitFor { condition } => {
            &&& lookup(entries, "condition"@) == action_condition(a)
        },
        ActionView::Assert { assertion } => {
            &&& lookup(entries, "assertion"@) == action_assertion(a)
        },
        ActionView::RunCommand { command, args } => {
            &&& lookup(entries, "command"@) == action_command(a)
            &&& lookup(entries, "args"@) == action_args(a)
        },
        ActionView::OpenFile { path, target } => {
            &&& lookup(entries, "path"@) == action_path(a)
            &&& lookup(entries, "target"@) == action_target(a)
        },
    }
}

proof fn step_action_found(s: StepView)
    requires
        found(step_tree(s)->Object_0, s.action),
    ensures
        action_from(kind_of_action(s.action), step_tree(s)->Object_0) == Some(s.action),
{
    let entries = step_tree(s)->Object_0;
    let a = s.action;
    match a {
        ActionView::LaunchUrl { url, target } => {
            if target is Some {
                target_round_trip(target->0);
                target_is_object(target->0);
            }
            assert(req_text_at(entries, "url"@) == Some(url));
            assert(opt_target_at(entries, "target"@) == Some(target));
        },
        ActionView::LaunchApp { app, target } => {
            if target is Some {
                target_round_trip(target->0);
                target_is_object(target->0);
            }
            assert(req_text_at(entries, "app"@) == Some(app));
            assert(opt_target_at(entries, "target"@) == Some(target));
        },
        ActionView::FocusWindow { target } => {
            target_round_trip(target);
            assert(req_target_at(entries, "target"@) == Some(target));
        },
        ActionView::TypeText { text, target } => {
            if target is Some {
                target_round_trip(target->0);
                target_is_object(target->0);
            }
            assert(req_text_at(entries, "text"@) == Some(text));
            assert(opt_target_at(entries, "target"@) == Some(target));
        },
        ActionView::PressKey { keys, target } => {
            if target is Some {
                target_round_trip(target->0);
                target_is_object(target->0);
            }
            assert(req_text_at(entries, "keys"@) == Some(keys));
            assert(opt_target_at(entries, "target"@) == Some(target));
        },
        ActionView::ClickTarget { target } => {
            target_round_trip(target);
            assert(req_target_at(entries, "target"@) == Some(target));
        },
        ActionView::Scroll { delta_x, delta_y, target } => {
            if target is Some {
                target_round_trip(target->0);
                target_is_object(target->0);
            }
            assert(req_i32_at(entries, "delta_x"@) == Some(delta_x));
            assert(req_i32_at(entries, "delta_y"@) == Some(delta_y));
            assert(opt_target_at(entries, "target"@) == Some(target));
        },
        ActionView::WaitFor { condition } => {
            condition_round_trip(condition);
            assert(req_condition_at(entries, "condition"@) == Some(condition));
        },
        ActionView::Assert { assertion } => {
            assertion_round_trip(assertion);
            assert(req_assertion_at(entries, "assertion"@) == Some(assertion));
        },
        ActionView::RunCommand { command, args } => {
            texts_round_trip(args);
            assert(req_text_at(entries, "command"@) == Some(command));
            assert(def_texts_at(entries, "args"@) == Some(args)) by {
                if args.len() == 0 {
                    assert(args =~= Seq::empty());
                }
            }
        },
        ActionView::OpenFile { path, target } => {
            if target is Some {
                target_round_trip(target->0);
                target_is_object(target->0);
            }
            assert(req_text_at(entries, "path"@) == Some(path));
            assert(opt_target_at(entries, "target"@) == Some(target));
        },
    }
}

pub fn encode_step(s: &Step) -> (r: Json)
    ensures
        r@ == step_tree(s@),
{
    broadcast use object_tree;

    let mut entries = no_fields();
    add_field(&mut entries, "app", encode_action_app(&s.action));
    add_field(&mut entries, "args", encode_action_args(&s.action));
    add_field(&mut entries, "assertion", encode_action_assertion(&s.action));
    add_field(&mut entries, "command", encode_action_command(&s.action));
    add_field(&mut entries, "condition", encode_action_condition(&s.action));
    add_field(&mut entries, "conditions", encode_conditions_field(&s.conditions));
    add_field(&mut entries, "delta_x", encode_action_delta_x(&s.action));
    add_field(&mut entries, "delta_y", encode_action_delta_y(&s.action));
    add_field(&mut entries, "id", Some(encode_text(s.id.as_str())));
    add_field(&mut entries, "keys", encode_action_keys(&s.action));
    add_field(&mut entries, "kind", encode_action_kind(&s.action));
    add_field(&mut entries, "label", encode_opt_text(&s.label));
    add_field(&mut entries, "onError", Some(encode_text(on_error_text(s.on_error))));
    add_field(&mut entries, "path", encode_action_path(&s.action));
    add_field(&mut entries, "platformOverrides", encode_overrides_field(&s.platform_overrides));
    add_field(&mut entries, "retry", Some(encode_retry(s.retry)));
    add_field(&mut entries, "target", encode_action_target(&s.action));
    add_field(&mut entries, "text", encode_action_text(&s.action));
    add_field(&mut entries, "timeout", encode_opt_duration(s.timeout));
    add_field(&mut entries, "url", encode_action_url(&s.action));
    Json::Object(entries)
}

fn step_names_ok(entries: &Vec<(String, Json)>, kind: ActionKind) -> (r: bool)
    ensures
        r == keys_in(entry_trees(entries@), step_names(kind)),
{
    match kind {
        ActionKind::LaunchUrl => {
            let keys = [
                "conditions",
                "id",
                "kind",
                "label",
                "onError",
                "platformOverrides",
                "retry",
                "target",
                "timeout",
                "url",
            ];
            assert(keys@ =~= step_with_target_url_keys());
            keys_among(entries, &keys)
        },
        ActionKind::LaunchApp => {
            let keys = [
                "app",
                "conditions",
                "id",
                "kind",
                "label",
                "onError",
                "platformOverrides",
                "retry",
                "target",
                "timeout",
            ];
            assert(keys@ =~= step_with_app_keys());
            keys_among(entries, &keys)
        },
        ActionKind::FocusWindow => {
            let keys = [
                "conditions",
                "id",
                "kind",
                "label",
                "onError",
                "platformOverrides",
                "retry",
                "target",
                "timeout",
            ];
            assert(keys@ =~= step_with_target_keys());
            keys_among(entries, &keys)
        },
        ActionKind::TypeText => {
            let keys = [
                "conditions",
                "id",
                "kind",
                "label",
                "onError",
                "platformOverrides",
                "retry",
                "target",
                "text",
                "timeout",
            ];
            assert(keys@ =~= step_with_target_text_keys());
            keys_among(entries, &keys)
        },
        ActionKind::PressKey => {
            let keys = [
                "conditions",
                "id",
                "keys",
                "kind",
                "label",
                "onError",
                "platformOverrides",
                "retry",
                "target",
                "timeout",
            ];
            assert(keys@ =~= step_with_keys_keys());
            keys_among(entries, &keys)
        },
        ActionKind::ClickTarget => {
            let keys = [
                "conditions",
                "id",
                "kind",
                "label",
                "onError",
                "platformOverrides",
                "retry",
                "target",
                "timeout",
            ];
            assert(keys@ =~= step_with_target_keys());
            keys_among(entries, &keys)
        },
        ActionKind::Scroll => {
            let keys = [
                "conditions",
                "delta_x",
                "delta_y",
                "id",
                "kind",
                "label",
                "onError",
                "platformOverrides",
                "retry",
                "target",
                "timeout",
            ];
            assert(keys@ =~= step_with_deltas_keys());
            keys_among(entries, &keys)
        },
        ActionKind::WaitFor => {
            let keys = [
                "condition",
                "conditions",
                "id",
                "kind",
                "label",
                "onError",
                "platformOverrides",
                "retry",
                "timeout",
            ];
            assert(keys@ =~= step_with_condition_keys());
            keys_among(entries, &keys)
        },
        ActionKind::Assert => {
            let keys = [
                "assertion",
                "conditions",
                "id",
                "kind",
                "label",
                "onError",
                "platformOverrides",
                "retry",
                "timeout",
            ];
            assert(keys@ =~= step_with_assertion_keys());
            keys_among(entries, &keys)
        },
        ActionKind::RunCommand => {
            let keys = [
                "args",
                "command",
                "conditions",
                "id",
                "kind",
                "label",
                "onError",
                "platformOverrides",
                "retry",
                "timeout",
            ];
            assert(keys@ =~= step_with_command_keys());
            keys_among(entries, &keys)
        },
        ActionKind::OpenFile => {
            let keys = [
                "conditions",
                "id",
                "kind",
                "label",
                "onError",
                "path",
                "platformOverrides",
                "retry",
                "target",
                "timeout",
            ];
            assert(keys@ =~= step_with_path_target_keys());
            keys_among(entries, &keys)
        },
    }
}

pub fn decode_step(value: &Json) -> (r: Option<Step>)
    ensures
        opt_view(r) == step_of(value@),
{
    broadcast use object_tree;

    let entries = match value {
        Json::Object(entries) => entries,
        _ => {
            return None;
        },
    };
    let kind = read_req_action_kind_at(entries, "kind")?;
    if !step_names_ok(entries, kind) {
        return None;
    }
    let action = decode_action_from(kind, entries)?;
    let conditions = read_def_conditions_at(entries, "conditions")?;
    let id = read_req_text_at(entries, "id")?;
    let label = read_opt_text_at(entries, "label")?;
    let on_error = read_def_on_error_at(entries, "onError")?;
    let platform_overrides = read_def_overrides_at(entries, "platformOverrides")?;
    let retry = read_def_retry_at(entries, "retry")?;
    let timeout = read_opt_duration_at(entries, "timeout")?;
    Some(Step { action, conditions, id, label, on_error, platform_overrides, retry, timeout })
}

pub open spec fn steps_tree(items: Seq<StepView>) -> Tree {
    Tree::Array(items.map_values(|x: StepView| step_tree(x)))
}

pub open spec fn steps_of(tree: Tree) -> Option<Seq<StepView>> {
    match tree {
        Tree::Array(items) => decode_each(items, |t: Tree| step_of(t)),
        _ => None,
    }
}

pub(crate) proof fn steps_round_trip(items: Seq<StepView>)
    ensures
        steps_of(steps_tree(items)) == Some(items),
{
    let all = steps_tree(items)->Array_0;
    assert forall|i: int| 0 <= i < all.len() implies step_of(
        #[trigger] all[i],
    ) == Some(items[i]) by {
        step_round_trip(items[i]);
    }
    decode_each_all(all, |t: Tree| step_of(t), items);
}

pub fn encode_steps(items: &Vec<Step>) -> (r: Json)
    ensures
        r@ == steps_tree(views(items@)),
{
    broadcast use array_tree;

    let mut out: Vec<Json> = Vec::new();
    let mut i: usize = 0;
    while i < items.len()
        invariant
            i <= items@.len(),
            out@.len() == i,
            forall|j: int| 0 <= j < i ==> (#[trigger] out@[j])@ == step_tree(items@[j]@),
        decreases items@.len() - i,
    {
        out.push(encode_step(&items[i]));
        i = i + 1;
    }
    assert(trees(out@) =~= steps_tree(views(items@))->Array_0);
    Json::Array(out)
}

pub fn decode_steps(value: &Json) -> (r: Option<Vec<Step>>)
    ensures
        match r {
            Some(items) => steps_of(value@) == Some(views(items@)),
            None => steps_of(value@) is None,
        },
{
    broadcast use array_tree;

    let items = match value {
        Json::Array(items) => items,
        _ => {
            return None;
        },
    };
    let ghost all = trees(items@);
    let ghost decode = |t: Tree| step_of(t);
    let mut out: Vec<Step> = Vec::new();
    let mut i: usize = 0;
    assert(all.take(0) =~= Seq::empty());
    assert(views(out@) =~= Seq::empty());
    while i < items.len()
        invariant
            i <= items@.len(),
            all == trees(items@),
            value@ == Tree::Array(all),
            decode == (|t: Tree| step_of(t)),
            decode_each(all.take(i as int), decode) == Some(views(out@)),
        decreases items@.len() - i,
    {
        let ghost front = views(out@);
        proof {
            decode_each_step(all, i as int, decode, front);
            assert(all[i as int] == items@[i as int]@);
        }
        match decode_step(&items[i]) {
            Some(x) => {
                let ghost read = x@;
                out.push(x);
                assert(views(out@) =~= front.push(read));
            },
            None => {
                return None;
            },
        }
        i = i + 1;
    }
    assert(all.take(i as int) =~= all);
    Some(out)
}

} // verus!
