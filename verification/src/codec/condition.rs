//! Conditions and assertions in documents.
use vstd::prelude::*;
use crate::codec::names::{
    assertion_kind_name, assertion_kind_round_trip, assertion_kind_text, condition_kind_name,
    condition_kind_round_trip, condition_kind_text, read_req_assertion_kind_at,
    read_req_condition_kind_at, req_assertion_kind_at, req_condition_kind_at, AssertionKind,
    ConditionKind,
};
use crate::codec::readers::{
    def_texts_at, encode_texts_field, read_def_texts_at, read_req_text_at, req_text_at, texts_field,
};
use crate::codec::shapes::{
    with_command_entries, with_command_keys, with_condition_entries, with_condition_keys,
    with_duration_entries, with_duration_keys, with_path_entries, with_path_keys,
    with_target_entries, with_target_keys, with_target_text_entries, with_target_text_keys,
};
use crate::codec::target::{
    duration_round_trip, duration_tree, encode_duration, encode_target, read_req_duration_at,
    read_req_target_at, req_duration_at, req_target_at, target_round_trip, target_tree,
};
use crate::definition::{Assertion, AssertionView, WaitCondition, WaitConditionView};
use crate::fields::{
    add_field, decode_each, decode_each_all, decode_each_step, encode_text, keys_among, keys_in,
    no_fields, required, texts_round_trip, with,
};
use crate::value::{array_tree, entry_trees, find_entry, object_tree, trees, Json, Tree};
use crate::views::{opt_view, views};

verus! {

pub open spec fn condition_kind_tree(kind: ConditionKind) -> Option<Tree> {
    Some(Tree::Text(condition_kind_name(kind)))
}

pub open spec fn condition_tree(c: WaitConditionView) -> Tree {
    match c {
        WaitConditionView::Duration { duration } => Tree::Object(
            with(
                with(Seq::empty(), "duration"@, Some(duration_tree(duration))),
                "kind"@,
                condition_kind_tree(ConditionKind::Duration),
            ),
        ),
        WaitConditionView::WindowExists { target } => Tree::Object(
            with(
                with(Seq::empty(), "kind"@, condition_kind_tree(ConditionKind::WindowExists)),
                "target"@,
                Some(target_tree(target)),
            ),
        ),
        WaitConditionView::WindowFocused { target } => Tree::Object(
            with(
                with(Seq::empty(), "kind"@, condition_kind_tree(ConditionKind::WindowFocused)),
                "target"@,
                Some(target_tree(target)),
            ),
        ),
        WaitConditionView::TargetExists { target } => Tree::Object(
            with(
                with(Seq::empty(), "kind"@, condition_kind_tree(ConditionKind::TargetExists)),
                "target"@,
                Some(target_tree(target)),
            ),
        ),
        WaitConditionView::TargetNotExists { target } => Tree::Object(
            with(
                with(Seq::empty(), "kind"@, condition_kind_tree(ConditionKind::TargetNotExists)),
                "target"@,
                Some(target_tree(target)),
            ),
        ),
        WaitConditionView::TargetFocused { target } => Tree::Object(
            with(
                with(Seq::empty(), "kind"@, condition_kind_tree(ConditionKind::TargetFocused)),
                "target"@,
                Some(target_tree(target)),
            ),
        ),
        WaitConditionView::TargetEnabled { target } => Tree::Object(
            with(
                with(Seq::empty(), "kind"@, condition_kind_tree(ConditionKind::TargetEnabled)),
                "target"@,
                Some(target_tree(target)),
            ),
        ),
        WaitConditionView::TargetVisible { target } => Tree::Object(
            with(
                with(Seq::empty(), "kind"@, condition_kind_tree(ConditionKind::TargetVisible)),
                "target"@,
                Some(target_tree(target)),
            ),
        ),
        WaitConditionView::TargetActionable { target } => Tree::Object(
            with(
                with(Seq::empty(), "kind"@, condition_kind_tree(ConditionKind::TargetActionable)),
                "target"@,
                Some(target_tree(target)),
            ),
        ),
        WaitConditionView::ProcessRunning { target } => Tree::Object(
            with(
                with(Seq::empty(), "kind"@, condition_kind_tree(ConditionKind::ProcessRunning)),
                "target"@,
                Some(target_tree(target)),
            ),
        ),
        WaitConditionView::TargetNameContains { target, text } => Tree::Object(
            with(
                with(
                    ({
                        let entries: Seq<(Seq<char>, Tree)> = Seq::empty();
                        let entries = with(
                            entries,
                            "kind"@,
                            condition_kind_tree(ConditionKind::TargetNameContains),
                        );
                        entries
                    }),
                    "target"@,
                    Some(target_tree(target)),
                ),
                "text"@,
                Some(Tree::Text(text)),
            ),
        ),
        WaitConditionView::TargetValueContains { target, text } => Tree::Object(
            with(
                with(
                    ({
                        let entries: Seq<(Seq<char>, Tree)> = Seq::empty();
                        let entries = with(
                            entries,
                            "kind"@,
                            condition_kind_tree(ConditionKind::TargetValueContains),
                        );
                        entries
                    }),
                    "target"@,
                    Some(target_tree(target)),
                ),
                "text"@,
                Some(Tree::Text(text)),
            ),
        ),
        WaitConditionView::FileExists { path } => Tree::Object(
            with(
                with(Seq::empty(), "kind"@, condition_kind_tree(ConditionKind::FileExists)),
                "path"@,
                Some(Tree::Text(path)),
            ),
        ),
        WaitConditionView::CommandExits { command, args } => Tree::Object(
            with(
                with(
                    with(Seq::empty(), "args"@, texts_field(args)),
                    "command"@,
                    Some(Tree::Text(command)),
                ),
                "kind"@,
                condition_kind_tree(ConditionKind::CommandExits),
            ),
        ),
    }
}

pub open spec fn condition_names(kind: ConditionKind) -> Seq<&'static str> {
    match kind {
        ConditionKind::Duration => with_duration_keys(),
        ConditionKind::TargetNameContains => with_target_text_keys(),
        ConditionKind::TargetValueContains => with_target_text_keys(),
        ConditionKind::FileExists => with_path_keys(),
        ConditionKind::CommandExits => with_command_keys(),
        _ => with_target_keys(),
    }
}

pub open spec fn condition_from(kind: ConditionKind, entries: Seq<(Seq<char>, Tree)>) -> Option<
    WaitConditionView,
> {
    let target = req_target_at(entries, "target"@);
    let text = req_text_at(entries, "text"@);
    match kind {
        ConditionKind::Duration => match req_duration_at(entries, "duration"@) {
            Some(duration) => Some(WaitConditionView::Duration { duration }),
            None => None,
        },
        ConditionKind::WindowExists => match target {
            Some(target) => Some(WaitConditionView::WindowExists { target }),
            None => None,
        },
        ConditionKind::WindowFocused => match target {
            Some(target) => Some(WaitConditionView::WindowFocused { target }),
            None => None,
        },
        ConditionKind::TargetExists => match target {
            Some(target) => Some(WaitConditionView::TargetExists { target }),
            None => None,
        },
        ConditionKind::TargetNotExists => match target {
            Some(target) => Some(WaitConditionView::TargetNotExists { target }),
            None => None,
        },
        ConditionKind::TargetFocused => match target {
            Some(target) => Some(WaitConditionView::TargetFocused { target }),
            None => None,
        },
        ConditionKind::TargetEnabled => match target {
            Some(target) => Some(WaitConditionView::TargetEnabled { target }),
            None => None,
        },
        ConditionKind::TargetVisible => match target {
            Some(target) => Some(WaitConditionView::TargetVisible { target }),
            None => None,
        },
        ConditionKind::TargetActionable => match target {
            Some(target) => Some(WaitConditionView::TargetActionable { target }),
            None => None,
        },
        ConditionKind::ProcessRunning => match target {
            Some(target) => Some(WaitConditionView::ProcessRunning { target }),
            None => None,
        },
        ConditionKind::TargetNameContains => match (target, text) {
            (Some(target), Some(text)) => Some(WaitConditionView::TargetNameContains { target, text }),
            _ => None,
        },
        ConditionKind::TargetValueContains => match (target, text) {
            (Some(target), Some(text)) => Some(WaitConditionView::TargetValueContains { target, text }),
            _ => None,
        },
        ConditionKind::FileExists => match req_text_at(entries, "path"@) {
            Some(path) => Some(WaitConditionView::FileExists { path }),
            None => None,
        },
        ConditionKind::CommandExits => match (
            req_text_at(entries, "command"@),
            def_texts_at(entries, "args"@),
        ) {
            (Some(command), Some(args)) => Some(WaitConditionView::CommandExits { command, args }),
            _ => None,
        },
    }
}

pub open spec fn condition_of(tree: Tree) -> Option<WaitConditionView> {
    match tree {
        Tree::Object(entries) => match req_condition_kind_at(entries, "kind"@) {
            Some(kind) => if keys_in(entries, condition_names(kind)) {
                condition_from(kind, entries)
            } else {
                None
            },
            None => None,
        },
        _ => None,
    }
}

pub open spec fn kind_of_condition(c: WaitConditionView) -> ConditionKind {
    match c {
        WaitConditionView::Duration { duration } => ConditionKind::Duration,
        WaitConditionView::WindowExists { target } => ConditionKind::WindowExists,
        WaitConditionView::WindowFocused { target } => ConditionKind::WindowFocused,
        WaitConditionView::TargetExists { target } => ConditionKind::TargetExists,
        WaitConditionView::TargetNotExists { target } => ConditionKind::TargetNotExists,
        WaitConditionView::TargetFocused { target } => ConditionKind::TargetFocused,
        WaitConditionView::TargetEnabled { target } => ConditionKind::TargetEnabled,
        WaitConditionView::TargetVisible { target } => ConditionKind::TargetVisible,
        WaitConditionView::TargetActionable { target } => ConditionKind::TargetActionable,
        WaitConditionView::ProcessRunning { target } => ConditionKind::ProcessRunning,
        WaitConditionView::TargetNameContains { target, text } => ConditionKind::TargetNameContains,
        WaitConditionView::TargetValueContains { target, text } => ConditionKind::TargetValueContains,
        WaitConditionView::FileExists { path } => ConditionKind::FileExists,
        WaitConditionView::CommandExits { command, args } => ConditionKind::CommandExits,
    }
}

pub(crate) proof fn condition_round_trip(c: WaitConditionView)
    ensures
        condition_of(condition_tree(c)) == Some(c),
{
    let entries = condition_tree(c)->Object_0;
    let kind = kind_of_condition(c);
    condition_kind_round_trip(kind);
    let tag = condition_kind_tree(kind);
    match c {
        WaitConditionView::Duration { duration } => {
            duration_round_trip(duration);
            with_duration_entries(Some(duration_tree(duration)), tag);
        },
        WaitConditionView::WindowExists { target } => {
            target_round_trip(target);
            with_target_entries(tag, Some(target_tree(target)));
        },
        WaitConditionView::WindowFocused { target } => {
            target_round_trip(target);
            with_target_entries(tag, Some(target_tree(target)));
        },
        WaitConditionView::TargetExists { target } => {
            target_round_trip(target);
            with_target_entries(tag, Some(target_tree(target)));
        },
        WaitConditionView::TargetNotExists { target } => {
            target_round_trip(target);
            with_target_entries(tag, Some(target_tree(target)));
        },
        WaitConditionView::TargetFocused { target } => {
            target_round_trip(target);
            with_target_entries(tag, Some(target_tree(target)));
        },
        WaitConditionView::TargetEnabled { target } => {
            target_round_trip(target);
            with_target_entries(tag, Some(target_tree(target)));
        },
        WaitConditionView::TargetVisible { target } => {
            target_round_trip(target);
            with_target_entries(tag, Some(target_tree(target)));
        },
        WaitConditionView::TargetActionable { target } => {
            target_round_trip(target);
            with_target_entries(tag, Some(target_tree(target)));
        },
        WaitConditionView::ProcessRunning { target } => {
            target_round_trip(target);
            with_target_entries(tag, Some(target_tree(target)));
        },
        WaitConditionView::TargetNameContains { target, text } => {
            target_round_trip(target);
            with_target_text_entries(tag, Some(target_tree(target)), Some(Tree::Text(text)));
        },
        WaitConditionView::TargetValueContains { target, text } => {
            target_round_trip(target);
            with_target_text_entries(tag, Some(target_tree(target)), Some(Tree::Text(text)));
        },
        WaitConditionView::FileExists { path } => {
            with_path_entries(tag, Some(Tree::Text(path)));
        },
        WaitConditionView::CommandExits { command, args } => {
            texts_round_trip(args);
            with_command_entries(texts_field(args), Some(Tree::Text(command)), tag);
            assert(def_texts_at(entries, "args"@) == Some(args)) by {
                if args.len() == 0 {
                    assert(args =~= Seq::empty());
                }
            }
        },
    }
    assert(req_condition_kind_at(entries, "kind"@) == Some(kind));
    assert(keys_in(entries, condition_names(kind)));
    assert(condition_from(kind, entries) == Some(c));
}

fn encode_condition_kind(kind: ConditionKind) -> (r: Option<Json>)
    ensures
        opt_view(r) == condition_kind_tree(kind),
{
    Some(encode_text(condition_kind_text(kind)))
}

pub fn encode_condition(c: &WaitCondition) -> (r: Json)
    ensures
        r@ == condition_tree(c@),
{
    broadcast use object_tree;

    let mut entries = no_fields();
    match c {
        WaitCondition::Duration { duration } => {
            add_field(&mut entries, "duration", Some(encode_duration(*duration)));
            add_field(&mut entries, "kind", encode_condition_kind(ConditionKind::Duration));
        },
        WaitCondition::WindowExists { target } => {
            add_field(&mut entries, "kind", encode_condition_kind(ConditionKind::WindowExists));
            add_field(&mut entries, "target", Some(encode_target(target)));
        },
        WaitCondition::WindowFocused { target } => {
            add_field(&mut entries, "kind", encode_condition_kind(ConditionKind::WindowFocused));
            add_field(&mut entries, "target", Some(encode_target(target)));
        },
        WaitCondition::TargetExists { target } => {
            add_field(&mut entries, "kind", encode_condition_kind(ConditionKind::TargetExists));
            add_field(&mut entries, "target", Some(encode_target(target)));
        },
        WaitCondition::TargetNotExists { target } => {
            add_field(&mut entries, "kind", encode_condition_kind(ConditionKind::TargetNotExists));
            add_field(&mut entries, "target", Some(encode_target(target)));
        },
        WaitCondition::TargetFocused { target } => {
            add_field(&mut entries, "kind", encode_condition_kind(ConditionKind::TargetFocused));
            add_field(&mut entries, "target", Some(encode_target(target)));
        },
        WaitCondition::TargetEnabled { target } => {
            add_field(&mut entries, "kind", encode_condition_kind(ConditionKind::TargetEnabled));
            add_field(&mut entries, "target", Some(encode_target(target)));
        },
        WaitCondition::TargetVisible { target } => {
            add_field(&mut entries, "kind", encode_condition_kind(ConditionKind::TargetVisible));
            add_field(&mut entries, "target", Some(encode_target(target)));
        },
        WaitCondition::TargetActionable { target } => {
            add_field(&mut entries, "kind", encode_condition_kind(ConditionKind::TargetActionable));
            add_field(&mut entries, "target", Some(encode_target(target)));
        },
        WaitCondition::ProcessRunning { target } => {
            add_field(&mut entries, "kind", encode_condition_kind(ConditionKind::ProcessRunning));
            add_field(&mut entries, "target", Some(encode_target(target)));
        },
        WaitCondition::TargetNameContains { target, text } => {
            add_field(
                &mut entries,
                "kind",
                encode_condition_kind(ConditionKind::TargetNameContains),
            );
            add_field(&mut entries, "target", Some(encode_target(target)));
            add_field(&mut entries, "text", Some(encode_text(text.as_str())));
        },
        WaitCondition::TargetValueContains { target, text } => {
            add_field(
                &mut entries,
                "kind",
                encode_condition_kind(ConditionKind::TargetValueContains),
            );
            add_field(&mut entries, "target", Some(encode_target(target)));
            add_field(&mut entries, "text", Some(encode_text(text.as_str())));
        },
        WaitCondition::FileExists { path } => {
            add_field(&mut entries, "kind", encode_condition_kind(ConditionKind::FileExists));
            add_field(&mut entries, "path", Some(encode_text(path.as_str())));
        },
        WaitCondition::CommandExits { command, args } => {
            add_field(&mut entries, "args", encode_texts_field(args));
            add_field(&mut entries, "command", Some(encode_text(command.as_str())));
            add_field(&mut entries, "kind", encode_condition_kind(ConditionKind::CommandExits));
        },
    }
    Json::Object(entries)
}

fn condition_names_ok(entries: &Vec<(String, Json)>, kind: ConditionKind) -> (r: bool)
    ensures
        r == keys_in(entry_trees(entries@), condition_names(kind)),
{
    match kind {
        ConditionKind::Duration => {
            let keys = ["duration", "kind"];
            assert(keys@ =~= with_duration_keys());
            keys_among(entries, &keys)
        },
        ConditionKind::TargetNameContains | ConditionKind::TargetValueContains => {
            let keys = ["kind", "target", "text"];
            assert(keys@ =~= with_target_text_keys());
            keys_among(entries, &keys)
        },
        ConditionKind::FileExists => {
            let keys = ["kind", "path"];
            assert(keys@ =~= with_path_keys());
            keys_among(entries, &keys)
        },
        ConditionKind::CommandExits => {
            let keys = ["args", "command", "kind"];
            assert(keys@ =~= with_command_keys());
            keys_among(entries, &keys)
        },
        _ => {
            let keys = ["kind", "target"];
            assert(keys@ =~= with_target_keys());
            keys_among(entries, &keys)
        },
    }
}

pub fn decode_condition(value: &Json) -> (r: Option<WaitCondition>)
    ensures
        opt_view(r) == condition_of(value@),
{
    broadcast use object_tree;

    let entries = match value {
        Json::Object(entries) => entries,
        _ => {
            return None;
        },
    };
    let kind = read_req_condition_kind_at(entries, "kind")?;
    if !condition_names_ok(entries, kind) {
        return None;
    }
    match kind {
        ConditionKind::Duration => {
            let duration = read_req_duration_at(entries, "duration")?;
            Some(WaitCondition::Duration { duration })
        },
        ConditionKind::FileExists => {
            let path = read_req_text_at(entries, "path")?;
            Some(WaitCondition::FileExists { path })
        },
        ConditionKind::CommandExits => {
            let command = read_req_text_at(entries, "command")?;
            let args = read_def_texts_at(entries, "args")?;
            Some(WaitCondition::CommandExits { command, args })
        },
        ConditionKind::TargetNameContains => {
            let target = read_req_target_at(entries, "target")?;
            let text = read_req_text_at(entries, "text")?;
            Some(WaitCondition::TargetNameContains { target, text })
        },
        ConditionKind::TargetValueContains => {
            let target = read_req_target_at(entries, "target")?;
            let text = read_req_text_at(entries, "text")?;
            Some(WaitCondition::TargetValueContains { target, text })
        },
        ConditionKind::WindowExists => {
            let target = read_req_target_at(entries, "target")?;
            Some(WaitCondition::WindowExists { target })
        },
        ConditionKind::WindowFocused => {
            let target = read_req_target_at(entries, "target")?;
            Some(WaitCondition::WindowFocused { target })
        },
        ConditionKind::TargetExists => {
            let target = read_req_target_at(entries, "target")?;
            Some(WaitCondition::TargetExists { target })
        },
        ConditionKind::TargetNotExists => {
            let target = read_req_target_at(entries, "target")?;
            Some(WaitCondition::TargetNotExists { target })
        },
        ConditionKind::TargetFocused => {
            let target = read_req_target_at(entries, "target")?;
            Some(WaitCondition::TargetFocused { target })
        },
        ConditionKind::TargetEnabled => {
            let target = read_req_target_at(entries, "target")?;
            Some(WaitCondition::TargetEnabled { target })
        },
        ConditionKind::TargetVisible => {
            let target = read_req_target_at(entries, "target")?;
            Some(WaitCondition::TargetVisible { target })
        },
        ConditionKind::TargetActionable => {
            let target = read_req_target_at(entries, "target")?;
            Some(WaitCondition::TargetActionable { target })
        },
        ConditionKind::ProcessRunning => {
            let target = read_req_target_at(entries, "target")?;
            Some(WaitCondition::ProcessRunning { target })
        },
    }
}

pub open spec fn conditions_tree(items: Seq<WaitConditionView>) -> Tree {
    Tree::Array(items.map_values(|x: WaitConditionView| condition_tree(x)))
}

pub open spec fn conditions_of(tree: Tree) -> Option<Seq<WaitConditionView>> {
    match tree {
        Tree::Array(items) => decode_each(items, |t: Tree| condition_of(t)),
        _ => None,
    }
}

pub(crate) proof fn conditions_round_trip(items: Seq<WaitConditionView>)
    ensures
        conditions_of(conditions_tree(items)) == Some(items),
{
    let all = conditions_tree(items)->Array_0;
    assert forall|i: int| 0 <= i < all.len() implies condition_of(
        #[trigger] all[i],
    ) == Some(items[i]) by {
        condition_round_trip(items[i]);
    }
    decode_each_all(all, |t: Tree| condition_of(t), items);
}

pub fn encode_conditions(items: &Vec<WaitCondition>) -> (r: Json)
    ensures
        r@ == conditions_tree(views(items@)),
{
    broadcast use array_tree;

    let mut out: Vec<Json> = Vec::new();
    let mut i: usize = 0;
    while i < items.len()
        invariant
            i <= items@.len(),
            out@.len() == i,
            forall|j: int| 0 <= j < i ==> (#[trigger] out@[j])@ == condition_tree(items@[j]@),
        decreases items@.len() - i,
    {
        out.push(encode_condition(&items[i]));
        i = i + 1;
    }
    assert(trees(out@) =~= conditions_tree(views(items@))->Array_0);
    Json::Array(out)
}

pub fn decode_conditions(value: &Json) -> (r: Option<Vec<WaitCondition>>)
    ensures
        match r {
            Some(items) => conditions_of(value@) == Some(views(items@)),
            None => conditions_of(value@) is None,
        },
{
    broadcast use array_tree;

    let items = match value {
        Json::Array(items) => items,
        _ => {
            return None;
        },
    };
    let ghost all = trees(items@);
    let ghost decode = |t: Tree| condition_of(t);
    let mut out: Vec<WaitCondition> = Vec::new();
    let mut i: usize = 0;
    assert(all.take(0) =~= Seq::empty());
    assert(views(out@) =~= Seq::empty());
    while i < items.len()
        invariant
            i <= items@.len(),
            all == trees(items@),
            value@ == Tree::Array(all),
            decode == (|t: Tree| condition_of(t)),
            decode_each(all.take(i as int), decode) == Some(views(out@)),
        decreases items@.len() - i,
    {
        let ghost front = views(out@);
        proof {
            decode_each_step(all, i as int, decode, front);
            assert(all[i as int] == items@[i as int]@);
        }
        match decode_condition(&items[i]) {
            Some(x) => {
                let ghost read = x@;
                out.push(x);
                assert(views(out@) =~= front.push(read));
            },
            None => {
                return None;
            },
        }
        i = i + 1;
    }
    assert(all.take(i as int) =~= all);
    Some(out)
}

pub open spec fn conditions_field(items: Seq<WaitConditionView>) -> Option<Tree> {
    if items.len() == 0 {
        None
    } else {
        Some(conditions_tree(items))
    }
}

pub(crate) fn encode_conditions_field(items: &Vec<WaitCondition>) -> (r: Option<Json>)
    ensures
        opt_view(r) == conditions_field(views(items@)),
{
    if items.len() == 0 {
        None
    } else {
        Some(encode_conditions(items))
    }
}

pub open spec fn req_condition_at(
    entries: Seq<(Seq<char>, Tree)>,
    key: Seq<char>,
) -> Option<WaitConditionView> {
    required(entries, key, |t: Tree| condition_of(t))
}

pub(crate) fn read_req_condition_at(
    entries: &Vec<(String, Json)>,
    key: &str,
) -> (r: Option<WaitCondition>)
    ensures
        match r {
            Some(x) => req_condition_at(entry_trees(entries@), key@) == Some(x@),
            None => req_condition_at(entry_trees(entries@), key@) is None,
        },
{
    match find_entry(entries, key) {
        None => None,
        Some(value) => decode_condition(value),
    }
}

pub open spec fn assertion_kind_tree(kind: AssertionKind) -> Option<Tree> {
    Some(Tree::Text(assertion_kind_name(kind)))
}

pub open spec fn assertion_tree(a: AssertionView) -> Tree {
    match a {
        AssertionView::Condition { condition } => Tree::Object(
            with(
                with(Seq::empty(), "condition"@, Some(condition_tree(condition))),
                "kind"@,
                assertion_kind_tree(AssertionKind::Condition),
            ),
        ),
        AssertionView::TargetExists { target } => Tree::Object(
            with(
                with(Seq::empty(), "kind"@, assertion_kind_tree(AssertionKind::TargetExists)),
                "target"@,
                Some(target_tree(target)),
            ),
        ),
    }
}

pub open spec fn assertion_of(tree: Tree) -> Option<AssertionView> {
    match tree {
        Tree::Object(entries) => match req_assertion_kind_at(entries, "kind"@) {
            Some(AssertionKind::Condition) => match req_condition_at(entries, "condition"@) {
                Some(condition) => if keys_in(entries, with_condition_keys()) {
                    Some(AssertionView::Condition { condition })
                } else {
                    None
                },
                None => None,
            },
            Some(AssertionKind::TargetExists) => match req_target_at(entries, "target"@) {
                Some(target) => if keys_in(entries, with_target_keys()) {
                    Some(AssertionView::TargetExists { target })
                } else {
                    None
                },
                None => None,
            },
            None => None,
        },
        _ => None,
    }
}

pub(crate) proof fn assertion_round_trip(a: AssertionView)
    ensures
        assertion_of(assertion_tree(a)) == Some(a),
{
    let entries = assertion_tree(a)->Object_0;
    match a {
        AssertionView::Condition { condition } => {
            condition_round_trip(condition);
            assertion_kind_round_trip(AssertionKind::Condition);
            with_condition_entries(
                Some(condition_tree(condition)),
                assertion_kind_tree(AssertionKind::Condition),
            );
            assert(req_condition_at(entries, "condition"@) == Some(condition));
        },
        AssertionView::TargetExists { target } => {
            target_round_trip(target);
            assertion_kind_round_trip(AssertionKind::TargetExists);
            with_target_entries(
                assertion_kind_tree(AssertionKind::TargetExists),
                Some(target_tree(target)),
            );
            assert(req_target_at(entries, "target"@) == Some(target));
        },
    }
}

fn encode_assertion_kind(kind: AssertionKind) -> (r: Option<Json>)
    ensures
        opt_view(r) == assertion_kind_tree(kind),
{
    Some(encode_text(assertion_kind_text(kind)))
}

pub fn encode_assertion(a: &Assertion) -> (r: Json)
    ensures
        r@ == assertion_tree(a@),
{
    broadcast use object_tree;

    let mut entries = no_fields();
    match a {
        Assertion::Condition { condition } => {
            add_field(&mut entries, "condition", Some(encode_condition(condition)));
            add_field(&mut entries, "kind", encode_assertion_kind(AssertionKind::Condition));
        },
        Assertion::TargetExists { target } => {
            add_field(&mut entries, "kind", encode_assertion_kind(AssertionKind::TargetExists));
            add_field(&mut entries, "target", Some(encode_target(target)));
        },
    }
    Json::Object(entries)
}

pub fn decode_assertion(value: &Json) -> (r: Option<Assertion>)
    ensures
        opt_view(r) == assertion_of(value@),
{
    broadcast use object_tree;

    let entries = match value {
        Json::Object(entries) => entries,
        _ => {
            return None;
        },
    };
    match read_req_assertion_kind_at(entries, "kind")? {
        AssertionKind::Condition => {
            let keys = ["condition", "kind"];
            assert(keys@ =~= with_condition_keys());
            let condition = read_req_condition_at(entries, "condition")?;
            if keys_among(entries, &keys) {
                Some(Assertion::Condition { condition })
            } else {
                None
            }
        },
        AssertionKind::TargetExists => {
            let keys = ["kind", "target"];
            assert(keys@ =~= with_target_keys());
            let target = read_req_target_at(entries, "target")?;
            if keys_among(entries, &keys) {
                Some(Assertion::TargetExists { target })
            } else {
                None
            }
        },
    }
}

pub open spec fn req_assertion_at(
    entries: Seq<(Seq<char>, Tree)>,
    key: Seq<char>,
) -> Option<AssertionView> {
    required(entries, key, |t: Tree| assertion_of(t))
}

pub(crate) fn read_req_assertion_at(
    entries: &Vec<(String, Json)>,
    key: &str,
) -> (r: Option<Assertion>)
    ensures
        match r {
            Some(x) => req_assertion_at(entry_trees(entries@), key@) == Some(x@),
            None => req_assertion_at(entry_trees(entries@), key@) is None,
        },
{
    match find_entry(entries, key) {
        None => None,
        Some(value) => decode_assertion(value),
    }
}

} // verus!
