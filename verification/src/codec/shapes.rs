//! Which fields stand side by side in an object.
use vstd::prelude::*;
use crate::collections::lookup;
use crate::fields::{group_fields, keys_in, with};
use crate::value::Tree;

verus! {

/// The names of the fields of steps, actions, conditions, assertions and sources are distinct.
pub(crate) proof fn field_names()
    ensures
        "app"@.len() == 3,
        "args"@.len() == 4,
        "assertion"@.len() == 9,
        "command"@.len() == 7,
        "condition"@.len() == 9,
        "conditions"@.len() == 10,
        "delta_x"@.len() == 7,
        "delta_y"@.len() == 7,
        "duration"@.len() == 8,
        "id"@.len() == 2,
        "keys"@.len() == 4,
        "kind"@.len() == 4,
        "label"@.len() == 5,
        "onError"@.len() == 7,
        "path"@.len() == 4,
        "platformOverrides"@.len() == 17,
        "reference"@.len() == 9,
        "retry"@.len() == 5,
        "target"@.len() == 6,
        "text"@.len() == 4,
        "timeout"@.len() == 7,
        "url"@.len() == 3,
        "value"@.len() == 5,
        "app"@ != "url"@,
        "args"@ != "keys"@,
        "args"@ != "kind"@,
        "args"@ != "path"@,
        "args"@ != "text"@,
        "assertion"@ != "condition"@,
        "assertion"@ != "reference"@,
        "command"@ != "delta_x"@,
        "command"@ != "delta_y"@,
        "command"@ != "onError"@,
        "command"@ != "timeout"@,
        "condition"@ != "reference"@,
        "delta_x"@ != "delta_y"@,
        "delta_x"@ != "onError"@,
        "delta_x"@ != "timeout"@,
        "delta_y"@ != "onError"@,
        "delta_y"@ != "timeout"@,
        "keys"@ != "kind"@,
        "keys"@ != "path"@,
        "keys"@ != "text"@,
        "kind"@ != "path"@,
        "kind"@ != "text"@,
        "label"@ != "retry"@,
        "label"@ != "value"@,
        "onError"@ != "timeout"@,
        "path"@ != "text"@,
        "retry"@ != "value"@,
{
    reveal_strlit("app");
    reveal_strlit("args");
    reveal_strlit("assertion");
    reveal_strlit("command");
    reveal_strlit("condition");
    reveal_strlit("conditions");
    reveal_strlit("delta_x");
    reveal_strlit("delta_y");
    reveal_strlit("duration");
    reveal_strlit("id");
    reveal_strlit("keys");
    reveal_strlit("kind");
    reveal_strlit("label");
    reveal_strlit("onError");
    reveal_strlit("path");
    reveal_strlit("platformOverrides");
    reveal_strlit("reference");
    reveal_strlit("retry");
    reveal_strlit("target");
    reveal_strlit("text");
    reveal_strlit("timeout");
    reveal_strlit("url");
    reveal_strlit("value");
    assert("app"@[0] != "url"@[0]);
    assert("args"@[0] != "keys"@[0]);
    assert("args"@[0] != "kind"@[0]);
    assert("args"@[0] != "path"@[0]);
    assert("args"@[0] != "text"@[0]);
    assert("assertion"@[0] != "condition"@[0]);
    assert("assertion"@[0] != "reference"@[0]);
    assert("command"@[0] != "delta_x"@[0]);
    assert("command"@[0] != "delta_y"@[0]);
    assert("command"@[0] != "onError"@[0]);
    assert("command"@[0] != "timeout"@[0]);
    assert("condition"@[0] != "reference"@[0]);
    assert("delta_x"@[6] != "delta_y"@[6]);
    assert("delta_x"@[0] != "onError"@[0]);
    assert("delta_x"@[0] != "timeout"@[0]);
    assert("delta_y"@[0] != "onError"@[0]);
    assert("delta_y"@[0] != "timeout"@[0]);
    assert("keys"@[1] != "kind"@[1]);
    assert("keys"@[0] != "path"@[0]);
    assert("keys"@[0] != "text"@[0]);
    assert("kind"@[0] != "path"@[0]);
    assert("kind"@[0] != "text"@[0]);
    assert("label"@[0] != "retry"@[0]);
    assert("label"@[0] != "value"@[0]);
    assert("onError"@[0] != "timeout"@[0]);
    assert("path"@[0] != "text"@[0]);
    assert("retry"@[0] != "value"@[0]);
}

pub open spec fn with_duration_keys() -> Seq<&'static str> {
    seq!["duration", "kind"]
}

/// Each field is found under its key.
pub(crate) proof fn with_duration_entries(v0: Option<Tree>, v1: Option<Tree>)
    ensures
        ({
            let entries = with(with(Seq::empty(), "duration"@, v0), "kind"@, v1);
            &&& keys_in(entries, with_duration_keys())
            &&& lookup(entries, "duration"@) == v0
            &&& lookup(entries, "kind"@) == v1
        }),
{
    broadcast use group_fields;

    field_names();
    assert(with_duration_keys()[0]@ == "duration"@);
    assert(with_duration_keys()[1]@ == "kind"@);
}

pub open spec fn with_target_keys() -> Seq<&'static str> {
    seq!["kind", "target"]
}

/// Each field is found under its key.
pub(crate) proof fn with_target_entries(v0: Option<Tree>, v1: Option<Tree>)
    ensures
        ({
            let entries = with(with(Seq::empty(), "kind"@, v0), "target"@, v1);
            &&& keys_in(entries, with_target_keys())
            &&& lookup(entries, "kind"@) == v0
            &&& lookup(entries, "target"@) == v1
        }),
{
    broadcast use group_fields;

    field_names();
    assert(with_target_keys()[0]@ == "kind"@);
    assert(with_target_keys()[1]@ == "target"@);
}

pub open spec fn with_target_text_keys() -> Seq<&'static str> {
    seq!["kind", "target", "text"]
}

/// Each field is found under its key.
pub(crate) proof fn with_target_text_entries(v0: Option<Tree>, v1: Option<Tree>, v2: Option<Tree>)
    ensures
        ({
            let entries = with(with(with(Seq::empty(), "kind"@, v0), "target"@, v1), "text"@, v2);
            &&& keys_in(entries, with_target_text_keys())
            &&& lookup(entries, "kind"@) == v0
            &&& lookup(entries, "target"@) == v1
            &&& lookup(entries, "text"@) == v2
        }),
{
    broadcast use group_fields;

    field_names();
    assert(with_target_text_keys()[0]@ == "kind"@);
    assert(with_target_text_keys()[1]@ == "target"@);
    assert(with_target_text_keys()[2]@ == "text"@);
}

pub open spec fn with_path_keys() -> Seq<&'static str> {
    seq!["kind", "path"]
}

/// Each field is found under its key.
pub(crate) proof fn with_path_entries(v0: Option<Tree>, v1: Option<Tree>)
    ensures
        ({
            let entries = with(with(Seq::empty(), "kind"@, v0), "path"@, v1);
            &&& keys_in(entries, with_path_keys())
            &&& lookup(entries, "kind"@) == v0
            &&& lookup(entries, "path"@) == v1
        }),
{
    broadcast use group_fields;

    field_names();
    assert(with_path_keys()[0]@ == "kind"@);
    assert(with_path_keys()[1]@ == "path"@);
}

pub open spec fn with_command_keys() -> Seq<&'static str> {
    seq!["args", "command", "kind"]
}

/// Each field is found under its key.
pub(crate) proof fn with_command_entries(v0: Option<Tree>, v1: Option<Tree>, v2: Option<Tree>)
    ensures
        ({
            let entries = with(with(with(Seq::empty(), "args"@, v0), "command"@, v1), "kind"@, v2);
            &&& keys_in(entries, with_command_keys())
            &&& lookup(entries, "args"@) == v0
            &&& lookup(entries, "command"@) == v1
            &&& lookup(entries, "kind"@) == v2
        }),
{
    broadcast use group_fields;

    field_names();
    assert(with_command_keys()[0]@ == "args"@);
    assert(with_command_keys()[1]@ == "command"@);
    assert(with_command_keys()[2]@ == "kind"@);
}

pub open spec fn with_target_url_keys() -> Seq<&'static str> {
    seq!["kind", "target", "url"]
}

/// Each field is found under its key.
pub(crate) proof fn with_target_url_entries(v0: Option<Tree>, v1: Option<Tree>, v2: Option<Tree>)
    ensures
        ({
            let entries = with(with(with(Seq::empty(), "kind"@, v0), "target"@, v1), "url"@, v2);
            &&& keys_in(entries, with_target_url_keys())
            &&& lookup(entries, "kind"@) == v0
            &&& lookup(entries, "target"@) == v1
            &&& lookup(entries, "url"@) == v2
        }),
{
    broadcast use group_fields;

    field_names();
    assert(with_target_url_keys()[0]@ == "kind"@);
    assert(with_target_url_keys()[1]@ == "target"@);
    assert(with_target_url_keys()[2]@ == "url"@);
}

pub open spec fn with_app_keys() -> Seq<&'static str> {
    seq!["app", "kind", "target"]
}

/// Each field is found under its key.
pub(crate) proof fn with_app_entries(v0: Option<Tree>, v1: Option<Tree>, v2: Option<Tree>)
    ensures
        ({
            let entries = with(with(with(Seq::empty(), "app"@, v0), "kind"@, v1), "target"@, v2);
            &&& keys_in(entries, with_app_keys())
            &&& lookup(entries, "app"@) == v0
            &&& lookup(entries, "kind"@) == v1
            &&& lookup(entries, "target"@) == v2
        }),
{
    broadcast use group_fields;

    field_names();
    assert(with_app_keys()[0]@ == "app"@);
    assert(with_app_keys()[1]@ == "kind"@);
    assert(with_app_keys()[2]@ == "target"@);
}

pub open spec fn with_keys_keys() -> Seq<&'static str> {
    seq!["keys", "kind", "target"]
}

/// Each field is found under its key.
pub(crate) proof fn with_keys_entries(v0: Option<Tree>, v1: Option<Tree>, v2: Option<Tree>)
    ensures
        ({
            let entries = with(with(with(Seq::empty(), "keys"@, v0), "kind"@, v1), "target"@, v2);
            &&& keys_in(entries, with_keys_keys())
            &&& lookup(entries, "keys"@) == v0
            &&& lookup(entries, "kind"@) == v1
            &&& lookup(entries, "target"@) == v2
        }),
{
    broadcast use group_fields;

    field_names();
    assert(with_keys_keys()[0]@ == "keys"@);
    assert(with_keys_keys()[1]@ == "kind"@);
    assert(with_keys_keys()[2]@ == "target"@);
}

pub open spec fn with_deltas_keys() -> Seq<&'static str> {
    seq!["delta_x", "delta_y", "kind", "target"]
}

/// Each field is found under its key.
pub(crate) proof fn with_deltas_entries(
    v0: Option<Tree>,
    v1: Option<Tree>,
    v2: Option<Tree>,
    v3: Option<Tree>,
)
    ensures
        ({
            let entries: Seq<(Seq<char>, Tree)> = Seq::empty();
            let entries = with(entries, "delta_x"@, v0);
            let entries = with(entries, "delta_y"@, v1);
            let entries = with(entries, "kind"@, v2);
            let entries = with(entries, "target"@, v3);
            &&& keys_in(entries, with_deltas_keys())
            &&& lookup(entries, "delta_x"@) == v0
            &&& lookup(entries, "delta_y"@) == v1
            &&& lookup(entries, "kind"@) == v2
            &&& lookup(entries, "target"@) == v3
        }),
{
    broadcast use group_fields;

    field_names();
    assert(with_deltas_keys()[0]@ == "delta_x"@);
    assert(with_deltas_keys()[1]@ == "delta_y"@);
    assert(with_deltas_keys()[2]@ == "kind"@);
    assert(with_deltas_keys()[3]@ == "target"@);
}

pub open spec fn with_condition_keys() -> Seq<&'static str> {
    seq!["condition", "kind"]
}

/// Each field is found under its key.
pub(crate) proof fn with_condition_entries(v0: Option<Tree>, v1: Option<Tree>)
    ensures
        ({
            let entries = with(with(Seq::empty(), "condition"@, v0), "kind"@, v1);
            &&& keys_in(entries, with_condition_keys())
            &&& lookup(entries, "condition"@) == v0
            &&& lookup(entries, "kind"@) == v1
        }),
{
    broadcast use group_fields;

    field_names();
    assert(with_condition_keys()[0]@ == "condition"@);
    assert(with_condition_keys()[1]@ == "kind"@);
}

pub open spec fn with_assertion_keys() -> Seq<&'static str> {
    seq!["assertion", "kind"]
}

/// Each field is found under its key.
pub(crate) proof fn with_assertion_entries(v0: Option<Tree>, v1: Option<Tree>)
    ensures
        ({
            let entries = with(with(Seq::empty(), "assertion"@, v0), "kind"@, v1);
            &&& keys_in(entries, with_assertion_keys())
            &&& lookup(entries, "assertion"@) == v0
            &&& lookup(entries, "kind"@) == v1
        }),
{
    broadcast use group_fields;

    field_names();
    assert(with_assertion_keys()[0]@ == "assertion"@);
    assert(with_assertion_keys()[1]@ == "kind"@);
}

pub open spec fn with_path_target_keys() -> Seq<&'static str> {
    seq!["kind", "path", "target"]
}

/// Each field is found under its key.
pub(crate) proof fn with_path_target_entries(v0: Option<Tree>, v1: Option<Tree>, v2: Option<Tree>)
    ensures
        ({
            let entries = with(with(with(Seq::empty(), "kind"@, v0), "path"@, v1), "target"@, v2);
            &&& keys_in(entries, with_path_target_keys())
            &&& lookup(entries, "kind"@) == v0
            &&& lookup(entries, "path"@) == v1
            &&& lookup(entries, "target"@) == v2
        }),
{
    broadcast use group_fields;

    field_names();
    assert(with_path_target_keys()[0]@ == "kind"@);
    assert(with_path_target_keys()[1]@ == "path"@);
    assert(with_path_target_keys()[2]@ == "target"@);
}

pub open spec fn with_reference_keys() -> Seq<&'static str> {
    seq!["kind", "reference"]
}

/// Each field is found under its key.
pub(crate) proof fn with_reference_entries(v0: Option<Tree>, v1: Option<Tree>)
    ensures
        ({
            let entries = with(with(Seq::empty(), "kind"@, v0), "reference"@, v1);
            &&& keys_in(entries, with_reference_keys())
            &&& lookup(entries, "kind"@) == v0
            &&& lookup(entries, "reference"@) == v1
        }),
{
    broadcast use group_fields;

    field_names();
    assert(with_reference_keys()[0]@ == "kind"@);
    assert(with_reference_keys()[1]@ == "reference"@);
}

pub open spec fn with_value_keys() -> Seq<&'static str> {
    seq!["kind", "value"]
}

/// Each field is found under its key.
pub(crate) proof fn with_value_entries(v0: Option<Tree>, v1: Option<Tree>)
    ensures
        ({
            let entries = with(with(Seq::empty(), "kind"@, v0), "value"@, v1);
            &&& keys_in(entries, with_value_keys())
            &&& lookup(entries, "kind"@) == v0
            &&& lookup(entries, "value"@) == v1
        }),
{
    broadcast use group_fields;

    field_names();
    assert(with_value_keys()[0]@ == "kind"@);
    assert(with_value_keys()[1]@ == "value"@);
}

} // verus!
