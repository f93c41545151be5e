//! Actions and platform overrides in documents.
use vstd::prelude::*;
use crate::codec::condition::{
    assertion_round_trip, assertion_tree, condition_round_trip, condition_tree, encode_assertion,
    encode_condition, read_req_assertion_at, read_req_condition_at, req_assertion_at,
    req_condition_at,
};
use crate::codec::names::{
    action_kind_name, action_kind_round_trip, action_kind_text, platform_name, platform_round_trip,
    platform_text, read_req_action_kind_at, read_req_platform_at, req_action_kind_at,
    req_platform_at, ActionKind,
};
use crate::codec::readers::{
    def_texts_at, encode_texts_field, read_def_texts_at, read_req_i32_at, read_req_text_at,
    req_i32_at, req_text_at, texts_field,
};
use crate::codec::shapes::{
    with_app_entries, with_app_keys, with_assertion_entries, with_assertion_keys,
    with_command_entries, with_command_keys, with_condition_entries, with_condition_keys,
    with_deltas_entries, with_deltas_keys, with_keys_entries, with_keys_keys,
    with_path_target_entries, with_path_target_keys, with_target_entries, with_target_keys,
    with_target_text_entries, with_target_text_keys, with_target_url_entries, with_target_url_keys,
};
use crate::codec::target::{
    encode_opt_target, encode_target, opt_target_at, opt_target_tree, read_opt_target_at,
    read_req_target_at, req_target_at, target_is_object, target_round_trip, target_tree,
};
use crate::collections::lookup;
use crate::definition::{Action, ActionView, PlatformActionOverride, PlatformActionOverrideView};
use crate::fields::{
    add_field, decode_each, decode_each_all, decode_each_step, encode_i32, encode_text,
    group_fields, keys_among, keys_in, no_fields, required, signed, texts_round_trip, with,
};
use crate::platform::kind_of;
use crate::value::{array_tree, entry_trees, find_entry, object_tree, trees, Json, Tree};
use crate::views::{opt_view, views};

verus! {

pub open spec fn action_app(a: ActionView) -> Option<Tree> {
    match a {
        ActionView::LaunchApp { app, target } => Some(Tree::Text(app)),
        _ => None,
    }
}

pub(crate) fn encode_action_app(a: &Action) -> (r: Option<Json>)
    ensures
        opt_view(r) == action_app(a@),
{
    match a {
        Action::LaunchApp { app, .. } => Some(encode_text(app.as_str())),
        _ => None,
    }
}

pub open spec fn action_args(a: ActionView) -> Option<Tree> {
    match a {
        ActionView::RunCommand { command, args } => texts_field(args),
        _ => None,
    }
}

pub(crate) fn encode_action_args(a: &Action) -> (r: Option<Json>)
    ensures
        opt_view(r) == action_args(a@),
{
    match a {
        Action::RunCommand { args, .. } => encode_texts_field(args),
        _ => None,
    }
}

pub open spec fn action_assertion(a: ActionView) -> Option<Tree> {
    match a {
        ActionView::Assert { assertion } => Some(assertion_tree(assertion)),
        _ => None,
    }
}

pub(crate) fn encode_action_assertion(a: &Action) -> (r: Option<Json>)
    ensures
        opt_view(r) == action_assertion(a@),
{
    match a {
        Action::Assert { assertion, .. } => Some(encode_assertion(assertion)),
        _ => None,
    }
}

pub open spec fn action_command(a: ActionView) -> Option<Tree> {
    match a {
        ActionView::RunCommand { command, args } => Some(Tree::Text(command)),
        _ => None,
    }
}

pub(crate) fn encode_action_command(a: &Action) -> (r: Option<Json>)
    ensures
        opt_view(r) == action_command(a@),
{
    match a {
        Action::RunCommand { command, .. } => Some(encode_text(command.as_str())),
        _ => None,
    }
}

pub open spec fn action_condition(a: ActionView) -> Option<Tree> {
    match a {
        ActionView::WaitFor { condition } => Some(condition_tree(condition)),
        _ => None,
    }
}

pub(crate) fn encode_action_condition(a: &Action) -> (r: Option<Json>)
    ensures
        opt_view(r) == action_condition(a@),
{
    match a {
        Action::WaitFor { condition, .. } => Some(encode_condition(condition)),
        _ => None,
    }
}

pub open spec fn action_delta_x(a: ActionView) -> Option<Tree> {
    match a {
        ActionView::Scroll { delta_x, delta_y, target } => Some(signed(delta_x)),
        _ => None,
    }
}

pub(crate) fn encode_action_delta_x(a: &Action) -> (r: Option<Json>)
    ensures
        opt_view(r) == action_delta_x(a@),
{
    match a {
        Action::Scroll { delta_x, .. } => Some(encode_i32(*delta_x)),
        _ => None,
    }
}

pub open spec fn action_delta_y(a: ActionView) -> Option<Tree> {
    match a {
        ActionView::Scroll { delta_x, delta_y, target } => Some(signed(delta_y)),
        _ => None,
    }
}

pub(crate) fn encode_action_delta_y(a: &Action) -> (r: Option<Json>)
    ensures
        opt_view(r) == action_delta_y(a@),
{
    match a {
        Action::Scroll { delta_y, .. } => Some(encode_i32(*delta_y)),
        _ => None,
    }
}

pub open spec fn action_keys(a: ActionView) -> Option<Tree> {
    match a {
        ActionView::PressKey { keys, target } => Some(Tree::Text(keys)),
        _ => None,
    }
}

pub(crate) fn encode_action_keys(a: &Action) -> (r: Option<Json>)
    ensures
        opt_view(r) == action_keys(a@),
{
    match a {
        Action::PressKey { keys, .. } => Some(encode_text(keys.as_str())),
        _ => None,
    }
}

pub open spec fn action_path(a: ActionView) -> Option<Tree> {
    match a {
        ActionView::OpenFile { path, target } => Some(Tree::Text(path)),
        _ => None,
    }
}

pub(crate) fn encode_action_path(a: &Action) -> (r: Option<Json>)
    ensures
        opt_view(r) == action_path(a@),
{
    match a {
        Action::OpenFile { path, .. } => Some(encode_text(path.as_str())),
        _ => None,
    }
}

pub open spec fn action_target(a: ActionView) -> Option<Tree> {
    match a {
        ActionView::LaunchUrl { url, target } => opt_target_tree(target),
        ActionView::LaunchApp { app, target } => opt_target_tree(target),
        ActionView::FocusWindow { target } => Some(target_tree(target)),
        ActionView::TypeText { text, target } => opt_target_tree(target),
        ActionView::PressKey { keys, target } => opt_target_tree(target),
        ActionView::ClickTarget { target } => Some(target_tree(target)),
        ActionView::Scroll { delta_x, delta_y, target } => opt_target_tree(target),
        ActionView::OpenFile { path, target } => opt_target_tree(target),
        _ => None,
    }
}

pub(crate) fn encode_action_target(a: &Action) -> (r: Option<Json>)
    ensures
        opt_view(r) == action_target(a@),
{
    match a {
        Action::LaunchUrl { target, .. } => encode_opt_target(target),
        Action::LaunchApp { target, .. } => encode_opt_target(target),
        Action::FocusWindow { target, .. } => Some(encode_target(target)),
        Action::TypeText { target, .. } => encode_opt_target(target),
        Action::PressKey { target, .. } => encode_opt_target(target),
        Action::ClickTarget { target, .. } => Some(encode_target(target)),
        Action::Scroll { target, .. } => encode_opt_target(target),
        Action::OpenFile { target, .. } => encode_opt_target(target),
        _ => None,
    }
}

pub open spec fn action_text(a: ActionView) -> Option<Tree> {
    match a {
        ActionView::TypeText { text, target } => Some(Tree::Text(text)),
        _ => None,
    }
}

pub(crate) fn encode_action_text(a: &Action) -> (r: Option<Json>)
    ensures
        opt_view(r) == action_text(a@),
{
    match a {
        Action::TypeText { text, .. } => Some(encode_text(text.as_str())),
        _ => None,
    }
}

pub open spec fn action_url(a: ActionView) -> Option<Tree> {
    match a {
        ActionView::LaunchUrl { url, target } => Some(Tree::Text(url)),
        _ => None,
    }
}

pub(crate) fn encode_action_url(a: &Action) -> (r: Option<Json>)
    ensures
        opt_view(r) == action_url(a@),
{
    match a {
        Action::LaunchUrl { url, .. } => Some(encode_text(url.as_str())),
        _ => None,
    }
}

pub open spec fn kind_of_action(a: ActionView) -> ActionKind {
    match a {
        ActionView::LaunchUrl { url, target } => ActionKind::LaunchUrl,
        ActionView::LaunchApp { app, target } => ActionKind::LaunchApp,
        ActionView::FocusWindow { target } => ActionKind::FocusWindow,
        ActionView::TypeText { text, target } => ActionKind::TypeText,
        ActionView::PressKey { keys, target } => ActionKind::PressKey,
        ActionView::ClickTarget { target } => ActionKind::ClickTarget,
        ActionView::Scroll { delta_x, delta_y, target } => ActionKind::Scroll,
        ActionView::WaitFor { condition } => ActionKind::WaitFor,
        ActionView::Assert { assertion } => ActionKind::Assert,
        ActionView::RunCommand { command, args } => ActionKind::RunCommand,
        ActionView::OpenFile { path, target } => ActionKind::OpenFile,
    }
}

pub open spec fn action_kind(a: ActionView) -> Option<Tree> {
    Some(Tree::Text(action_kind_name(kind_of_action(a))))
}

pub(crate) fn encode_action_kind(a: &Action) -> (r: Option<Json>)
    ensures
        opt_view(r) == action_kind(a@),
{
    let kind = match a {
        Action::LaunchUrl { .. } => ActionKind::LaunchUrl,
        Action::LaunchApp { .. } => ActionKind::LaunchApp,
        Action::FocusWindow { .. } => ActionKind::FocusWindow,
        Action::TypeText { .. } => ActionKind::TypeText,
        Action::PressKey { .. } => ActionKind::PressKey,
        Action::ClickTarget { .. } => ActionKind::ClickTarget,
        Action::Scroll { .. } => ActionKind::Scroll,
        Action::WaitFor { .. } => ActionKind::WaitFor,
        Action::Assert { .. } => ActionKind::Assert,
        Action::RunCommand { .. } => ActionKind::RunCommand,
        Action::OpenFile { .. } => ActionKind::OpenFile,
    };
    Some(encode_text(action_kind_text(kind)))
}

/// A document calls an action by its kind.
pub proof fn action_kind_is_kind(a: ActionView)
    ensures
        action_kind(a) == Some(Tree::Text(kind_of(a))),
{
}

pub open spec fn action_tree(a: ActionView) -> Tree {
    let entries: Seq<(Seq<char>, Tree)> = Seq::empty();
    let entries = with(entries, "app"@, action_app(a));
    let entries = with(entries, "args"@, action_args(a));
    let entries = with(entries, "assertion"@, action_assertion(a));
    let entries = with(entries, "command"@, action_command(a));
    let entries = with(entries, "condition"@, action_condition(a));
    let entries = with(entries, "delta_x"@, action_delta_x(a));
    let entries = with(entries, "delta_y"@, action_delta_y(a));
    let entries = with(entries, "keys"@, action_keys(a));
    let entries = with(entries, "kind"@, action_kind(a));
    let entries = with(entries, "path"@, action_path(a));
    let entries = with(entries, "target"@, action_target(a));
    let entries = with(entries, "text"@, action_text(a));
    let entries = with(entries, "url"@, action_url(a));
    Tree::Object(entries)
}

pub open spec fn action_names(kind: ActionKind) -> Seq<&'static str> {
    match kind {
        ActionKind::LaunchUrl => with_target_url_keys(),
        ActionKind::LaunchApp => with_app_keys(),
        ActionKind::FocusWindow => with_target_keys(),
        ActionKind::TypeText => with_target_text_keys(),
        ActionKind::PressKey => with_keys_keys(),
        ActionKind::ClickTarget => with_target_keys(),
        ActionKind::Scroll => with_deltas_keys(),
        ActionKind::WaitFor => with_condition_keys(),
        ActionKind::Assert => with_assertion_keys(),
        ActionKind::RunCommand => with_command_keys(),
        ActionKind::OpenFile => with_path_target_keys(),
    }
}

pub open spec fn action_from(kind: ActionKind, entries: Seq<(Seq<char>, Tree)>) -> Option<
    ActionView,
> {
    match kind {
        ActionKind::LaunchUrl => {
            let url = req_text_at(entries, "url"@);
            let target = opt_target_at(entries, "target"@);
            if url is Some && target is Some {
                Some(ActionView::LaunchUrl { url: url->0, target: target->0 })
            } else {
                None
            }
        },
        ActionKind::LaunchApp => {
            let app = req_text_at(entries, "app"@);
            let target = opt_target_at(entries, "target"@);
            if app is Some && target is Some {
                Some(ActionView::LaunchApp { app: app->0, target: target->0 })
            } else {
                None
            }
        },
        ActionKind::FocusWindow => {
            let target = req_target_at(entries, "target"@);
            if target is Some {
                Some(ActionView::FocusWindow { target: target->0 })
            } else {
                None
            }
        },
        ActionKind::TypeText => {
            let text = req_text_at(entries, "text"@);
            let target = opt_target_at(entries, "target"@);
            if text is Some && target is Some {
                Some(ActionView::TypeText { text: text->0, target: target->0 })
            } else {
                None
            }
        },
        ActionKind::PressKey => {
            let keys = req_text_at(entries, "keys"@);
            let target = opt_target_at(entries, "target"@);
            if keys is Some && target is Some {
                Some(ActionView::PressKey { keys: keys->0, target: target->0 })
            } else {
                None
            }
        },
        ActionKind::ClickTarget => {
            let target = req_target_at(entries, "target"@);
            if target is Some {
                Some(ActionView::ClickTarget { target: target->0 })
            } else {
                None
            }
        },
        ActionKind::Scroll => {
            let delta_x = req_i32_at(entries, "delta_x"@);
            let delta_y = req_i32_at(entries, "delta_y"@);
            let target = opt_target_at(entries, "target"@);
            if delta_x is Some && delta_y is Some && target is Some {
                Some(
                    ActionView::Scroll {
                        delta_x: delta_x->0,
                        delta_y: delta_y->0,
                        target: target->0,
                    },
                )
            } else {
                None
            }
        },
        ActionKind::WaitFor => {
            let condition = req_condition_at(entries, "condition"@);
            if condition is Some {
                Some(ActionView::WaitFor { condition: condition->0 })
            } else {
                None
            }
        },
        ActionKind::Assert => {
            let assertion = req_assertion_at(entries, "assertion"@);
            if assertion is Some {
                Some(ActionView::Assert { assertion: assertion->0 })
            } else {
                None
            }
        },
        ActionKind::RunCommand => {
            let command = req_text_at(entries, "command"@);
            let args = def_texts_at(entries, "args"@);
            if command is Some && args is Some {
                Some(ActionView::RunCommand { command: command->0, args: args->0 })
            } else {
                None
            }
        },
        ActionKind::OpenFile => {
            let path = req_text_at(entries, "path"@);
            let target = opt_target_at(entries, "target"@);
            if path is Some && target is Some {
                Some(ActionView::OpenFile { path: path->0, target: target->0 })
            } else {
                None
            }
        },
    }
}

pub open spec fn action_of(tree: Tree) -> Option<ActionView> {
    match tree {
        Tree::Object(entries) => match req_action_kind_at(entries, "kind"@) {
            Some(kind) => if keys_in(entries, action_names(kind)) {
                action_from(kind, entries)
            } else {
                None
            },
            None => None,
        },
        _ => None,
    }
}

proof fn action_round_trip(a: ActionView)
    ensures
        action_of(action_tree(a)) == Some(a),
{
    let entries = action_tree(a)->Object_0;
    let kind = kind_of_action(a);
    action_kind_round_trip(kind);
    match a {
        ActionView::LaunchUrl { url, target } => {
            if target is Some {
                target_round_trip(target->0);
                target_is_object(target->0);
            }
            with_target_url_entries(action_kind(a), action_target(a), action_url(a));
            assert(req_text_at(entries, "url"@) == Some(url));
            assert(opt_target_at(entries, "target"@) == Some(target));
        },
        ActionView::LaunchApp { app, target } => {
            if target is Some {
                target_round_trip(target->0);
                target_is_object(target->0);
            }
            with_app_entries(action_app(a), action_kind(a), action_target(a));
            assert(req_text_at(entries, "app"@) == Some(app));
            assert(opt_target_at(entries, "target"@) == Some(target));
        },
        ActionView::FocusWindow { target } => {
            target_round_trip(target);
            with_target_entries(action_kind(a), action_target(a));
            assert(req_target_at(entries, "target"@) == Some(target));
        },
        ActionView::TypeText { text, target } => {
            if target is Some {
                target_round_trip(target->0);
                target_is_object(target->0);
            }
            with_target_text_entries(action_kind(a), action_target(a), action_text(a));
            assert(req_text_at(entries, "text"@) == Some(text));
            assert(opt_target_at(entries, "target"@) == Some(target));
        },
        ActionView::PressKey { keys, target } => {
            if target is Some {
                target_round_trip(target->0);
                target_is_object(target->0);
            }
            with_keys_entries(action_keys(a), action_kind(a), action_target(a));
            assert(req_text_at(entries, "keys"@) == Some(keys));
            assert(opt_target_at(entries, "target"@) == Some(target));
        },
        ActionView::ClickTarget { target } => {
            target_round_trip(target);
            with_target_entries(action_kind(a), action_target(a));
            assert(req_target_at(entries, "target"@) == Some(target));
        },
        ActionView::Scroll { delta_x, delta_y, target } => {
            if target is Some {
                target_round_trip(target->0);
                target_is_object(target->0);
            }
            with_deltas_entries(
                action_delta_x(a),
                action_delta_y(a),
                action_kind(a),
                action_target(a),
            );
            assert(req_i32_at(entries, "delta_x"@) == Some(delta_x));
            assert(req_i32_at(entries, "delta_y"@) == Some(delta_y));
            assert(opt_target_at(entries, "target"@) == Some(target));
        },
        ActionView::WaitFor { condition } => {
            condition_round_trip(condition);
            with_condition_entries(action_condition(a), action_kind(a));
            assert(req_condition_at(entries, "condition"@) == Some(condition));
        },
        ActionView::Assert { assertion } => {
            assertion_round_trip(assertion);
            with_assertion_entries(action_assertion(a), action_kind(a));
            assert(req_assertion_at(entries, "assertion"@) == Some(assertion));
        },
        ActionView::RunCommand { command, args } => {
            texts_round_trip(args);
            with_command_entries(action_args(a), action_command(a), action_kind(a));
            assert(req_text_at(entries, "command"@) == Some(command));
            assert(def_texts_at(entries, "args"@) == Some(args)) by {
                if args.len() == 0 {
                    assert(args =~= Seq::empty());
                }
            }
        },
        ActionView::OpenFile { path, target } => {
            if target is Some {
                target_round_trip(target->0);
                target_is_object(target->0);
            }
            with_path_target_entries(action_kind(a), action_path(a), action_target(a));
            assert(req_text_at(entries, "path"@) == Some(path));
            assert(opt_target_at(entries, "target"@) == Some(target));
        },
    }
    assert(req_action_kind_at(entries, "kind"@) == Some(kind));
}

pub fn encode_action(a: &Action) -> (r: Json)
    ensures
        r@ == action_tree(a@),
{
    broadcast use object_tree;

    let mut entries = no_fields();
    add_field(&mut entries, "app", encode_action_app(a));
    add_field(&mut entries, "args", encode_action_args(a));
    add_field(&mut entries, "assertion", encode_action_assertion(a));
    add_field(&mut entries, "command", encode_action_command(a));
    add_field(&mut entries, "condition", encode_action_condition(a));
    add_field(&mut entries, "delta_x", encode_action_delta_x(a));
    add_field(&mut entries, "delta_y", encode_action_delta_y(a));
    add_field(&mut entries, "keys", encode_action_keys(a));
    add_field(&mut entries, "kind", encode_action_kind(a));
    add_field(&mut entries, "path", encode_action_path(a));
    add_field(&mut entries, "target", encode_action_target(a));
    add_field(&mut entries, "text", encode_action_text(a));
    add_field(&mut entries, "url", encode_action_url(a));
    Json::Object(entries)
}

fn action_names_ok(entries: &Vec<(String, Json)>, kind: ActionKind) -> (r: bool)
    ensures
        r == keys_in(entry_trees(entries@), action_names(kind)),
{
    match kind {
        ActionKind::LaunchUrl => {
            let keys = ["kind", "target", "url"];
            assert(keys@ =~= with_target_url_keys());
            keys_among(entries, &keys)
        },
        ActionKind::LaunchApp => {
            let keys = ["app", "kind", "target"];
            assert(keys@ =~= with_app_keys());
            keys_among(entries, &keys)
        },
        ActionKind::FocusWindow => {
            let keys = ["kind", "target"];
            assert(keys@ =~= with_target_keys());
            keys_among(entries, &keys)
        },
        ActionKind::TypeText => {
            let keys = ["kind", "target", "text"];
            assert(keys@ =~= with_target_text_keys());
            keys_among(entries, &keys)
        },
        ActionKind::PressKey => {
            let keys = ["keys", "kind", "target"];
            assert(keys@ =~= with_keys_keys());
            keys_among(entries, &keys)
        },
        ActionKind::ClickTarget => {
            let keys = ["kind", "target"];
            assert(keys@ =~= with_target_keys());
            keys_among(entries, &keys)
        },
        ActionKind::Scroll => {
            let keys = ["delta_x", "delta_y", "kind", "target"];
            assert(keys@ =~= with_deltas_keys());
            keys_among(entries, &keys)
        },
        ActionKind::WaitFor => {
            let keys = ["condition", "kind"];
            assert(keys@ =~= with_condition_keys());
            keys_among(entries, &keys)
        },
        ActionKind::Assert => {
            let keys = ["assertion", "kind"];
            assert(keys@ =~= with_assertion_keys());
            keys_among(entries, &keys)
        },
        ActionKind::RunCommand => {
            let keys = ["args", "command", "kind"];
            assert(keys@ =~= with_command_keys());
            keys_among(entries, &keys)
        },
        ActionKind::OpenFile => {
            let keys = ["kind", "path", "target"];
            assert(keys@ =~= with_path_target_keys());
            keys_among(entries, &keys)
        },
    }
}

pub(crate) fn decode_action_from(
    kind: ActionKind,
    entries: &Vec<(String, Json)>,
) -> (r: Option<Action>)
    ensures
        opt_view(r) == action_from(kind, entry_trees(entries@)),
{
    match kind {
        ActionKind::LaunchUrl => {
            let url = read_req_text_at(entries, "url")?;
            let target = read_opt_target_at(entries, "target")?;
            Some(Action::LaunchUrl { url, target })
        },
        ActionKind::LaunchApp => {
            let app = read_req_text_at(entries, "app")?;
            let target = read_opt_target_at(entries, "target")?;
            Some(Action::LaunchApp { app, target })
        },
        ActionKind::FocusWindow => {
            let target = read_req_target_at(entries, "target")?;
            Some(Action::FocusWindow { target })
        },
        ActionKind::TypeText => {
            let text = read_req_text_at(entries, "text")?;
            let target = read_opt_target_at(entries, "target")?;
            Some(Action::TypeText { text, target })
        },
        ActionKind::PressKey => {
            let keys = read_req_text_at(entries, "keys")?;
            let target = read_opt_target_at(entries, "target")?;
            Some(Action::PressKey { keys, target })
        },
        ActionKind::ClickTarget => {
            let target = read_req_target_at(entries, "target")?;
            Some(Action::ClickTarget { target })
        },
        ActionKind::Scroll => {
            let delta_x = read_req_i32_at(entries, "delta_x")?;
            let delta_y = read_req_i32_at(entries, "delta_y")?;
            let target = read_opt_target_at(entries, "target")?;
            Some(Action::Scroll { delta_x, delta_y, target })
        },
        ActionKind::WaitFor => {
            let condition = read_req_condition_at(entries, "condition")?;
            Some(Action::WaitFor { condition })
        },
        ActionKind::Assert => {
            let assertion = read_req_assertion_at(entries, "assertion")?;
            Some(Action::Assert { assertion })
        },
        ActionKind::RunCommand => {
            let command = read_req_text_at(entries, "command")?;
            let args = read_def_texts_at(entries, "args")?;
            Some(Action::RunCommand { command, args })
        },
        ActionKind::OpenFile => {
            let path = read_req_text_at(entries, "path")?;
            let target = read_opt_target_at(entries, "target")?;
            Some(Action::OpenFile { path, target })
        },
    }
}

pub fn decode_action(value: &Json) -> (r: Option<Action>)
    ensures
        opt_view(r) == action_of(value@),
{
    broadcast use object_tree;

    let entries = match value {
        Json::Object(entries) => entries,
        _ => {
            return None;
        },
    };
    let kind = read_req_action_kind_at(entries, "kind")?;
    if !action_names_ok(entries, kind) {
        return None;
    }
    decode_action_from(kind, entries)
}

/// An action in a box.
fn decode_boxed_action(value: &Json) -> (r: Option<Box<Action>>)
    ensures
        opt_view(r) == action_of(value@),
{
    match decode_action(value) {
        Some(action) => Some(Box::new(action)),
        None => None,
    }
}

pub open spec fn req_action_at(
    entries: Seq<(Seq<char>, Tree)>,
    key: Seq<char>,
) -> Option<ActionView> {
    required(entries, key, |t: Tree| action_of(t))
}

fn read_req_action_at(entries: &Vec<(String, Json)>, key: &str) -> (r: Option<Box<Action>>)
    ensures
        match r {
            Some(x) => req_action_at(entry_trees(entries@), key@) == Some(x@),
            None => req_action_at(entry_trees(entries@), key@) is None,
        },
{
    match find_entry(entries, key) {
        None => None,
        Some(value) => decode_boxed_action(value),
    }
}

pub open spec fn override_entry_keys() -> Seq<&'static str> {
    seq!["action", "platform"]
}

pub open spec fn override_entry_tree(v: PlatformActionOverrideView) -> Tree {
    let entries: Seq<(Seq<char>, Tree)> = Seq::empty();
    let entries = with(entries, "action"@, Some(action_tree(v.action)));
    let entries = with(entries, "platform"@, Some(Tree::Text(platform_name(v.platform))));
    Tree::Object(entries)
}

pub open spec fn override_entry_of(tree: Tree) -> Option<PlatformActionOverrideView> {
    match tree {
        Tree::Object(entries) => {
            let action = req_action_at(entries, "action"@);
            let platform = req_platform_at(entries, "platform"@);
            if keys_in(entries, override_entry_keys()) && action is Some && platform is Some {
                Some(PlatformActionOverrideView { action: action->0, platform: platform->0 })
            } else {
                None
            }
        },
        _ => None,
    }
}

/// Each field is found under its key.
proof fn override_entry_entries(v0: Option<Tree>, v1: Option<Tree>)
    ensures
        ({
            let entries = with(with(Seq::empty(), "action"@, v0), "platform"@, v1);
            &&& keys_in(entries, override_entry_keys())
            &&& lookup(entries, "action"@) == v0
            &&& lookup(entries, "platform"@) == v1
        }),
{
    broadcast use group_fields;

    reveal_strlit("action");
    reveal_strlit("platform");
    assert("action"@.len() == 6);
    assert("platform"@.len() == 8);
    assert(override_entry_keys()[0]@ == "action"@);
    assert(override_entry_keys()[1]@ == "platform"@);
}

proof fn override_entry_round_trip(v: PlatformActionOverrideView)
    ensures
        override_entry_of(override_entry_tree(v)) == Some(v),
{
    let entries = override_entry_tree(v)->Object_0;
    override_entry_entries(
        Some(action_tree(v.action)),
        Some(Tree::Text(platform_name(v.platform))),
    );
    action_round_trip(v.action);
    assert(req_action_at(entries, "action"@) == Some(v.action));
    platform_round_trip(v.platform);
    assert(req_platform_at(entries, "platform"@) == Some(v.platform));
}

pub fn encode_override_entry(v: &PlatformActionOverride) -> (r: Json)
    ensures
        r@ == override_entry_tree(v@),
{
    broadcast use object_tree;

    let mut entries = no_fields();
    add_field(&mut entries, "action", Some(encode_action(&v.action)));
    add_field(&mut entries, "platform", Some(encode_text(platform_text(v.platform))));
    Json::Object(entries)
}

pub fn decode_override_entry(value: &Json) -> (r: Option<PlatformActionOverride>)
    ensures
        opt_view(r) == override_entry_of(value@),
{
    broadcast use object_tree;

    let entries = match value {
        Json::Object(entries) => entries,
        _ => {
            return None;
        },
    };
    let keys = ["action", "platform"];
    assert(keys@ =~= override_entry_keys());
    if !keys_among(entries, &keys) {
        return None;
    }
    let action = read_req_action_at(entries, "action")?;
    let platform = read_req_platform_at(entries, "platform")?;
    Some(PlatformActionOverride { action, platform })
}

pub open spec fn overrides_tree(items: Seq<PlatformActionOverrideView>) -> Tree {
    Tree::Array(items.map_values(|x: PlatformActionOverrideView| override_entry_tree(x)))
}

pub open spec fn overrides_of(tree: Tree) -> Option<Seq<PlatformActionOverrideView>> {
    match tree {
        Tree::Array(items) => decode_each(items, |t: Tree| override_entry_of(t)),
        _ => None,
    }
}

pub(crate) proof fn overrides_round_trip(items: Seq<PlatformActionOverrideView>)
    ensures
        overrides_of(overrides_tree(items)) == Some(items),
{
    let all = overrides_tree(items)->Array_0;
    assert forall|i: int| 0 <= i < all.len() implies override_entry_of(
        #[trigger] all[i],
    ) == Some(items[i]) by {
        override_entry_round_trip(items[i]);
    }
    decode_each_all(all, |t: Tree| override_entry_of(t), items);
}

pub fn encode_overrides(items: &Vec<PlatformActionOverride>) -> (r: Json)
    ensures
        r@ == overrides_tree(views(items@)),
{
    broadcast use array_tree;

    let mut out: Vec<Json> = Vec::new();
    let mut i: usize = 0;
    while i < items.len()
        invariant
            i <= items@.len(),
            out@.len() == i,
            forall|j: int| 0 <= j < i ==> (#[trigger] out@[j])@ == override_entry_tree(items@[j]@),
        decreases items@.len() - i,
    {
        out.push(encode_override_entry(&items[i]));
        i = i + 1;
    }
    assert(trees(out@) =~= overrides_tree(views(items@))->Array_0);
    Json::Array(out)
}

pub fn decode_overrides(value: &Json) -> (r: Option<Vec<PlatformActionOverride>>)
    ensures
        match r {
            Some(items) => overrides_of(value@) == Some(views(items@)),
            None => overrides_of(value@) is None,
        },
{
    broadcast use array_tree;

    let items = match value {
        Json::Array(items) => items,
        _ => {
            return None;
        },
    };
    let ghost all = trees(items@);
    let ghost decode = |t: Tree| override_entry_of(t);
    let mut out: Vec<PlatformActionOverride> = Vec::new();
    let mut i: usize = 0;
    assert(all.take(0) =~= Seq::empty());
    assert(views(out@) =~= Seq::empty());
    while i < items.len()
        invariant
            i <= items@.len(),
            all == trees(items@),
            value@ == Tree::Array(all),
            decode == (|t: Tree| override_entry_of(t)),
            decode_each(all.take(i as int), decode) == Some(views(out@)),
        decreases items@.len() - i,
    {
        let ghost front = views(out@);
        proof {
            decode_each_step(all, i as int, decode, front);
            assert(all[i as int] == items@[i as int]@);
        }
        match decode_override_entry(&items[i]) {
            Some(x) => {
                let ghost read = x@;
                out.push(x);
                assert(views(out@) =~= front.push(read));
            },
            None => {
                return None;
            },
        }
        i = i + 1;
    }
    assert(all.take(i as int) =~= all);
    Some(out)
}

pub open spec fn overrides_field(items: Seq<PlatformActionOverrideView>) -> Option<Tree> {
    if items.len() == 0 {
        None
    } else {
        Some(overrides_tree(items))
    }
}

pub(crate) fn encode_overrides_field(items: &Vec<PlatformActionOverride>) -> (r: Option<Json>)
    ensures
        opt_view(r) == overrides_field(views(items@)),
{
    if items.len() == 0 {
        None
    } else {
        Some(encode_overrides(items))
    }
}

} // verus!
