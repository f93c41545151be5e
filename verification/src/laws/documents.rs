//! What a document of a definition says, entry by entry.
use vstd::prelude::*;
use crate::codec::action::{action_from, action_of, override_entry_of, overrides_of};
use crate::codec::condition::{
    assertion_of, assertion_round_trip, assertion_tree, condition_of, condition_round_trip,
    condition_tree, conditions_of,
};
use crate::codec::document::{
    definition_maps_are_found, definition_of, definition_round_trip, definition_tree,
    encode_definition, parse_definition_json, DefinitionParseError,
};
use crate::codec::names::{
    action_kind_round_trip, assertion_kind_round_trip, backoff_of, backoff_round_trip,
    condition_kind_round_trip, on_error_of, on_error_round_trip, platform_of, platform_round_trip,
    req_action_kind_at, req_assertion_kind_at, req_condition_kind_at, req_source_kind_at,
    source_kind_round_trip, variable_type_of, variable_type_round_trip, ActionKind, AssertionKind,
    ConditionKind, SourceKind,
};
use crate::codec::readers::{def_texts_at, opt_u32s_at};
use crate::codec::step::{
    decode_step, encode_step, retry_of, step_of, step_round_trip, step_tree, steps_of,
};
use crate::codec::target::{
    accessibility_of, coordinates_of, duration_of, image_of, opt_duration_at, opt_target_at,
    region_of, req_duration_at, req_target_at, selector_of, selectors_of, target_of,
    target_round_trip, target_tree,
};
use crate::codec::variable::{decode_entries, source_of, variable_of, variables_of};
use crate::collections::{ascending, lookup, put_all_ascending};
use crate::definition::{
    AccessibilityTargetView, ActionView, AssertionView, AutomationDefinition,
    AutomationDefinitionView, BackoffPolicy, Coordinates, DurationSpec, ImageRegion,
    ImageTargetView, OnErrorPolicy, Platform, PlatformActionOverrideView, PlatformSelectorView,
    PlatformSelectorsView, RetryPolicy, Step, StepView, TargetView, VariableDefinitionView,
    VariableSourceView, VariableType, WaitConditionView,
};
use crate::fields::{decode_each, keys_in, named};
use crate::value::{json_of_text, Json, NumberView, Tree};

verus! {

type Entries = Seq<(Seq<char>, Tree)>;

/// Every entry stands under one of the keys.
pub open spec fn only(entries: Entries, keys: Set<Seq<char>>) -> bool {
    forall|i: int| 0 <= i < entries.len() ==> keys.contains((#[trigger] entries[i]).0)
}

/// There is nothing under a key.
pub open spec fn nothing(entries: Entries, key: Seq<char>) -> bool {
    lookup(entries, key) is None || lookup(entries, key) == Some(Tree::Null)
}

pub open spec fn text(entries: Entries, key: Seq<char>, x: Seq<char>) -> bool {
    lookup(entries, key) == Some(Tree::Text(x))
}

pub open spec fn maybe_text(entries: Entries, key: Seq<char>, x: Option<Seq<char>>) -> bool {
    match x {
        Some(y) => text(entries, key, y),
        None => nothing(entries, key),
    }
}

/// A number that is written without a sign.
pub open spec fn number(entries: Entries, key: Seq<char>, n: int) -> bool {
    lookup(entries, key) == Some(Tree::Number(NumberView::PosInt(n as u64)))
}

/// A number that is written with a sign where it is negative.
pub open spec fn signed_number(entries: Entries, key: Seq<char>, n: i32) -> bool {
    ||| n >= 0 && lookup(entries, key) == Some(Tree::Number(NumberView::PosInt(n as u64)))
    ||| lookup(entries, key) == Some(Tree::Number(NumberView::NegInt(n as i64)))
}

/// Texts in a list, or none at all.
pub open spec fn texts_under(entries: Entries, key: Seq<char>, x: Seq<Seq<char>>) -> bool {
    match lookup(entries, key) {
        None => x.len() == 0,
        Some(Tree::Array(items)) => items.len() == x.len() && forall|i: int|
            0 <= i < items.len() ==> #[trigger] items[i] == Tree::Text(x[i]),
        _ => false,
    }
}

/// Numbers in a list, or nothing.
pub open spec fn maybe_numbers(entries: Entries, key: Seq<char>, x: Option<Seq<u32>>) -> bool {
    match x {
        None => nothing(entries, key),
        Some(numbers) => match lookup(entries, key) {
            Some(Tree::Array(items)) => items.len() == numbers.len() && forall|i: int|
                0 <= i < items.len() ==> #[trigger] items[i] == Tree::Number(
                    NumberView::PosInt(numbers[i] as u64),
                ),
            _ => false,
        },
    }
}

pub proof fn each_is_read<T>(items: Seq<Tree>, decode: spec_fn(Tree) -> Option<T>, x: Seq<T>)
    ensures
        decode_each(items, decode) == Some(x) <==> items.len() == x.len() && forall|i: int|
            0 <= i < items.len() ==> decode(#[trigger] items[i]) == Some(x[i]),
    decreases items.len(),
{
    if items.len() == 0 {
        if x.len() == 0 {
            assert(x =~= Seq::empty());
        }
    } else {
        let front = items.drop_last();
        if decode_each(items, decode) == Some(x) {
            let y = decode_each(front, decode)->0;
            each_is_read(front, decode, y);
            assert(x == y.push(decode(items.last())->0));
            assert forall|i: int| 0 <= i < items.len() implies decode(#[trigger] items[i]) == Some(
                x[i],
            ) by {
                if i < front.len() {
                    assert(front[i] == items[i]);
                }
            }
        }
        if items.len() == x.len() && forall|i: int|
            0 <= i < items.len() ==> decode(#[trigger] items[i]) == Some(x[i]) {
            assert forall|i: int| 0 <= i < front.len() implies decode(#[trigger] front[i]) == Some(
                x.drop_last()[i],
            ) by {
                assert(front[i] == items[i]);
            }
            each_is_read(front, decode, x.drop_last());
            assert(items.last() == items[items.len() - 1]);
            assert(x =~= x.drop_last().push(x.last()));
        }
    }
}

proof fn texts_are_read(entries: Entries, key: Seq<char>, x: Seq<Seq<char>>)
    ensures
        def_texts_at(entries, key) == Some(x) <==> texts_under(entries, key, x),
{
    if let Some(Tree::Array(items)) = lookup(entries, key) {
        each_is_read(items, |t: Tree| crate::fields::text_of(t), x);
    }
    if x.len() == 0 {
        assert(x =~= Seq::empty());
    }
}

proof fn numbers_are_read(entries: Entries, key: Seq<char>, x: Option<Seq<u32>>)
    ensures
        opt_u32s_at(entries, key) == Some(x) <==> maybe_numbers(entries, key, x),
{
    if let Some(Tree::Array(items)) = lookup(entries, key) {
        if let Some(numbers) = x {
            each_is_read(items, |t: Tree| crate::fields::u32_of(t), numbers);
        }
    }
}

pub proof fn keys_are(entries: Entries, names: Seq<&str>, keys: Set<Seq<char>>)
    requires
        forall|k: Seq<char>| #[trigger] named(names, k) <==> keys.contains(k),
    ensures
        keys_in(entries, names) <==> only(entries, keys),
{
    if keys_in(entries, names) {
        assert forall|i: int| 0 <= i < entries.len() implies keys.contains(
            (#[trigger] entries[i]).0,
        ) by {
            assert(named(names, entries[i].0));
        }
    }
    if only(entries, keys) {
        assert forall|i: int| 0 <= i < entries.len() implies named(
            names,
            (#[trigger] entries[i]).0,
        ) by {
            assert(keys.contains(entries[i].0));
        }
    }
}

/// The entries of a region.
pub open spec fn region_says(t: Tree, x: ImageRegion) -> bool {
    &&& t is Object
    &&& only(t->Object_0, set!["height"@, "left"@, "top"@, "width"@])
    &&& number(t->Object_0, "height"@, x.height as int)
    &&& signed_number(t->Object_0, "left"@, x.left)
    &&& signed_number(t->Object_0, "top"@, x.top)
    &&& number(t->Object_0, "width"@, x.width as int)
}

proof fn region_entries(entries: Entries)
    ensures
        keys_in(entries, crate::codec::target::region_keys()) <==> only(entries, set![
            "height"@,
            "left"@,
            "top"@,
            "width"@,
        ]),
{
    let names = crate::codec::target::region_keys();
    let keys = set!["height"@, "left"@, "top"@, "width"@];
    assert(names[0]@ == "height"@);
    assert(names[1]@ == "left"@);
    assert(names[2]@ == "top"@);
    assert(names[3]@ == "width"@);
    assert forall|k: Seq<char>| #[trigger] named(names, k) <==> keys.contains(k) by {
        if named(names, k) {
            let i = choose|i: int| 0 <= i < names.len() && (#[trigger] names[i])@ == k;
            assert(keys.contains(names[i]@));
        }
    }
    keys_are(entries, names, keys);
}

/// A document is read as what its entries say, and as nothing else.
pub proof fn region_is_read(t: Tree, x: ImageRegion)
    ensures
        region_of(t) == Some(x) <==> region_says(t, x),
{
    if t is Object {
        let entries = t->Object_0;
        region_entries(entries);
    }
}

/// The entries of a point.
pub open spec fn coordinates_says(t: Tree, x: Coordinates) -> bool {
    &&& t is Object
    &&& only(t->Object_0, set!["x"@, "y"@])
    &&& signed_number(t->Object_0, "x"@, x.x)
    &&& signed_number(t->Object_0, "y"@, x.y)
}

proof fn coordinates_entries(entries: Entries)
    ensures
        keys_in(entries, crate::codec::target::coordinates_keys()) <==> only(entries, set![
            "x"@, "y"@,
        ]),
{
    let names = crate::codec::target::coordinates_keys();
    let keys = set!["x"@, "y"@];
    assert(names[0]@ == "x"@);
    assert(names[1]@ == "y"@);
    assert forall|k: Seq<char>| #[trigger] named(names, k) <==> keys.contains(k) by {
        if named(names, k) {
            let i = choose|i: int| 0 <= i < names.len() && (#[trigger] names[i])@ == k;
            assert(keys.contains(names[i]@));
        }
    }
    keys_are(entries, names, keys);
}

/// A document is read as what its entries say, and as nothing else.
pub proof fn coordinates_is_read(t: Tree, x: Coordinates)
    ensures
        coordinates_of(t) == Some(x) <==> coordinates_says(t, x),
{
    if t is Object {
        let entries = t->Object_0;
        coordinates_entries(entries);
    }
}

/// The entry of a duration.
pub open spec fn duration_says(t: Tree, x: DurationSpec) -> bool {
    &&& t is Object
    &&& only(t->Object_0, set!["millis"@])
    &&& number(t->Object_0, "millis"@, x.millis as int)
}

proof fn duration_entries(entries: Entries)
    ensures
        keys_in(entries, crate::codec::target::duration_keys()) <==> only(entries, set!["millis"@]),
{
    let names = crate::codec::target::duration_keys();
    let keys = set!["millis"@];
    assert(names[0]@ == "millis"@);
    assert forall|k: Seq<char>| #[trigger] named(names, k) <==> keys.contains(k) by {
        if named(names, k) {
            let i = choose|i: int| 0 <= i < names.len() && (#[trigger] names[i])@ == k;
            assert(keys.contains(names[i]@));
        }
    }
    keys_are(entries, names, keys);
}

/// A document is read as what its entries say, and as nothing else.
pub proof fn duration_is_read(t: Tree, x: DurationSpec)
    ensures
        duration_of(t) == Some(x) <==> duration_says(t, x),
{
    if t is Object {
        let entries = t->Object_0;
        duration_entries(entries);
    }
}

/// The entries of an accessibility selector.
pub open spec fn accessibility_says(t: Tree, x: AccessibilityTargetView) -> bool {
    &&& t is Object
    &&& only(t->Object_0, set!["controlType"@, "id"@, "name"@, "path"@])
    &&& maybe_text(t->Object_0, "controlType"@, x.control_type)
    &&& maybe_text(t->Object_0, "id"@, x.id)
    &&& maybe_text(t->Object_0, "name"@, x.name)
    &&& maybe_numbers(t->Object_0, "path"@, x.path)
}

proof fn accessibility_entries(entries: Entries)
    ensures
        keys_in(entries, crate::codec::target::accessibility_keys()) <==> only(entries, set![
            "controlType"@,
            "id"@,
            "name"@,
            "path"@,
        ]),
{
    let names = crate::codec::target::accessibility_keys();
    let keys = set!["controlType"@, "id"@, "name"@, "path"@];
    assert(names[0]@ == "controlType"@);
    assert(names[1]@ == "id"@);
    assert(names[2]@ == "name"@);
    assert(names[3]@ == "path"@);
    assert forall|k: Seq<char>| #[trigger] named(names, k) <==> keys.contains(k) by {
        if named(names, k) {
            let i = choose|i: int| 0 <= i < names.len() && (#[trigger] names[i])@ == k;
            assert(keys.contains(names[i]@));
        }
    }
    keys_are(entries, names, keys);
}

/// A document is read as what its entries say, and as nothing else.
pub proof fn accessibility_is_read(t: Tree, x: AccessibilityTargetView)
    ensures
        accessibility_of(t) == Some(x) <==> accessibility_says(t, x),
{
    if t is Object {
        let entries = t->Object_0;
        accessibility_entries(entries);
        numbers_are_read(entries, "path"@, x.path);
    }
}

/// The entries of a picture to be found.
pub open spec fn image_says(t: Tree, x: ImageTargetView) -> bool {
    &&& t is Object
    &&& only(t->Object_0, set!["confidence"@, "path"@, "region"@])
    &&& match x.confidence {
        Some(y) => number(t->Object_0, "confidence"@, y as int),
        None => nothing(t->Object_0, "confidence"@),
    }
    &&& text(t->Object_0, "path"@, x.path)
    &&& match x.region {
        Some(y) => lookup(t->Object_0, "region"@) is Some
            && region_says(lookup(t->Object_0, "region"@)->0, y),
        None => nothing(t->Object_0, "region"@),
    }
}

proof fn image_entries(entries: Entries)
    ensures
        keys_in(entries, crate::codec::target::image_keys()) <==> only(entries, set![
            "confidence"@,
            "path"@,
            "region"@,
        ]),
{
    let names = crate::codec::target::image_keys();
    let keys = set!["confidence"@, "path"@, "region"@];
    assert(names[0]@ == "confidence"@);
    assert(names[1]@ == "path"@);
    assert(names[2]@ == "region"@);
    assert forall|k: Seq<char>| #[trigger] named(names, k) <==> keys.contains(k) by {
        if named(names, k) {
            let i = choose|i: int| 0 <= i < names.len() && (#[trigger] names[i])@ == k;
            assert(keys.contains(names[i]@));
        }
    }
    keys_are(entries, names, keys);
}

/// A document is read as what its entries say, and as nothing else.
pub proof fn image_is_read(t: Tree, x: ImageTargetView)
    ensures
        image_of(t) == Some(x) <==> image_says(t, x),
{
    if t is Object {
        let entries = t->Object_0;
        image_entries(entries);
        if lookup(entries, "region"@) is Some && x.region is Some {
            region_is_read(lookup(entries, "region"@)->0, x.region->0);
        }
    }
}

/// The entries of a selector for a platform.
pub open spec fn selector_says(t: Tree, x: PlatformSelectorView) -> bool {
    &&& t is Object
    &&& only(t->Object_0, set![
        "accessibilityQuery"@,
        "commandHint"@,
        "processName"@,
        "windowTitle"@,
    ])
    &&& maybe_text(t->Object_0, "accessibilityQuery"@, x.accessibility_query)
    &&& maybe_text(t->Object_0, "commandHint"@, x.command_hint)
    &&& maybe_text(t->Object_0, "processName"@, x.process_name)
    &&& maybe_text(t->Object_0, "windowTitle"@, x.window_title)
}

proof fn selector_entries(entries: Entries)
    ensures
        keys_in(entries, crate::codec::target::selector_keys()) <==> only(entries, set![
            "accessibilityQuery"@,
            "commandHint"@,
            "processName"@,
            "windowTitle"@,
        ]),
{
    let names = crate::codec::target::selector_keys();
    let keys = set!["accessibilityQuery"@, "commandHint"@, "processName"@, "windowTitle"@];
    assert(names[0]@ == "accessibilityQuery"@);
    assert(names[1]@ == "commandHint"@);
    assert(names[2]@ == "processName"@);
    assert(names[3]@ == "windowTitle"@);
    assert forall|k: Seq<char>| #[trigger] named(names, k) <==> keys.contains(k) by {
        if named(names, k) {
            let i = choose|i: int| 0 <= i < names.len() && (#[trigger] names[i])@ == k;
            assert(keys.contains(names[i]@));
        }
    }
    keys_are(entries, names, keys);
}

/// A document is read as what its entries say, and as nothing else.
pub proof fn selector_is_read(t: Tree, x: PlatformSelectorView)
    ensures
        selector_of(t) == Some(x) <==> selector_says(t, x),
{
    if t is Object {
        let entries = t->Object_0;
        selector_entries(entries);
    }
}

/// The entries of the selectors of a target, one for each platform.
pub open spec fn selectors_says(t: Tree, x: PlatformSelectorsView) -> bool {
    &&& t is Object
    &&& only(t->Object_0, set!["linux"@, "mac-os"@, "windows"@])
    &&& match x.linux {
        Some(y) => lookup(t->Object_0, "linux"@) is Some
            && selector_says(lookup(t->Object_0, "linux"@)->0, y),
        None => lookup(t->Object_0, "linux"@) is None,
    }
    &&& match x.mac_os {
        Some(y) => lookup(t->Object_0, "mac-os"@) is Some
            && selector_says(lookup(t->Object_0, "mac-os"@)->0, y),
        None => lookup(t->Object_0, "mac-os"@) is None,
    }
    &&& match x.windows {
        Some(y) => lookup(t->Object_0, "windows"@) is Some
            && selector_says(lookup(t->Object_0, "windows"@)->0, y),
        None => lookup(t->Object_0, "windows"@) is None,
    }
}

proof fn selectors_entries(entries: Entries)
    ensures
        keys_in(entries, crate::codec::target::selectors_keys()) <==> only(entries, set![
            "linux"@,
            "mac-os"@,
            "windows"@,
        ]),
{
    let names = crate::codec::target::selectors_keys();
    let keys = set!["linux"@, "mac-os"@, "windows"@];
    assert(names[0]@ == "linux"@);
    assert(names[1]@ == "mac-os"@);
    assert(names[2]@ == "windows"@);
    assert forall|k: Seq<char>| #[trigger] named(names, k) <==> keys.contains(k) by {
        if named(names, k) {
            let i = choose|i: int| 0 <= i < names.len() && (#[trigger] names[i])@ == k;
            assert(keys.contains(names[i]@));
        }
    }
    keys_are(entries, names, keys);
}

/// A document is read as what its entries say, and as nothing else.
pub proof fn selectors_is_read(t: Tree, x: PlatformSelectorsView)
    ensures
        selectors_of(t) == Some(x) <==> selectors_says(t, x),
{
    if t is Object {
        let entries = t->Object_0;
        selectors_entries(entries);
        if lookup(entries, "linux"@) is Some && x.linux is Some {
            selector_is_read(lookup(entries, "linux"@)->0, x.linux->0);
        }
        if lookup(entries, "mac-os"@) is Some && x.mac_os is Some {
            selector_is_read(lookup(entries, "mac-os"@)->0, x.mac_os->0);
        }
        if lookup(entries, "windows"@) is Some && x.windows is Some {
            selector_is_read(lookup(entries, "windows"@)->0, x.windows->0);
        }
    }
}

/// The entries of a target.
pub open spec fn target_says(t: Tree, x: TargetView) -> bool {
    &&& t is Object
    &&& only(t->Object_0, set![
        "accessibility"@,
        "appName"@,
        "coordinates"@,
        "filePath"@,
        "image"@,
        "platformSelectors"@,
        "processName"@,
        "titleContains"@,
        "url"@,
        "windowTitle"@,
    ])
    &&& match x.accessibility {
        Some(y) => lookup(t->Object_0, "accessibility"@) is Some
            && accessibility_says(lookup(t->Object_0, "accessibility"@)->0, y),
        None => nothing(t->Object_0, "accessibility"@),
    }
    &&& maybe_text(t->Object_0, "appName"@, x.app_name)
    &&& match x.coordinates {
        Some(y) => lookup(t->Object_0, "coordinates"@) is Some
            && coordinates_says(lookup(t->Object_0, "coordinates"@)->0, y),
        None => nothing(t->Object_0, "coordinates"@),
    }
    &&& maybe_text(t->Object_0, "filePath"@, x.file_path)
    &&& match x.image {
        Some(y) => lookup(t->Object_0, "image"@) is Some
            && image_says(lookup(t->Object_0, "image"@)->0, y),
        None => nothing(t->Object_0, "image"@),
    }
    &&& match lookup(t->Object_0, "platformSelectors"@) {
        Some(u) => selectors_says(u, x.platform_selectors),
        None => x.platform_selectors.windows is None && x.platform_selectors.mac_os is None
            && x.platform_selectors.linux is None,
    }
    &&& maybe_text(t->Object_0, "processName"@, x.process_name)
    &&& maybe_text(t->Object_0, "titleContains"@, x.title_contains)
    &&& maybe_text(t->Object_0, "url"@, x.url)
    &&& maybe_text(t->Object_0, "windowTitle"@, x.window_title)
}

proof fn target_entries(entries: Entries)
    ensures
        keys_in(entries, crate::codec::target::target_keys()) <==> only(entries, set![
            "accessibility"@,
            "appName"@,
            "coordinates"@,
            "filePath"@,
            "image"@,
            "platformSelectors"@,
            "processName"@,
            "titleContains"@,
            "url"@,
            "windowTitle"@,
        ]),
{
    let names = crate::codec::target::target_keys();
    let keys = set![
        "accessibility"@,
        "appName"@,
        "coordinates"@,
        "filePath"@,
        "image"@,
        "platformSelectors"@,
        "processName"@,
        "titleContains"@,
        "url"@,
        "windowTitle"@,
    ];
    assert(names[0]@ == "accessibility"@);
    assert(names[1]@ == "appName"@);
    assert(names[2]@ == "coordinates"@);
    assert(names[3]@ == "filePath"@);
    assert(names[4]@ == "image"@);
    assert(names[5]@ == "platformSelectors"@);
    assert(names[6]@ == "processName"@);
    assert(names[7]@ == "titleContains"@);
    assert(names[8]@ == "url"@);
    assert(names[9]@ == "windowTitle"@);
    assert forall|k: Seq<char>| #[trigger] named(names, k) <==> keys.contains(k) by {
        if named(names, k) {
            let i = choose|i: int| 0 <= i < names.len() && (#[trigger] names[i])@ == k;
            assert(keys.contains(names[i]@));
        }
    }
    keys_are(entries, names, keys);
}

/// A document is read as what its entries say, and as nothing else.
pub proof fn target_is_read(t: Tree, x: TargetView)
    ensures
        target_of(t) == Some(x) <==> target_says(t, x),
{
    if t is Object {
        let entries = t->Object_0;
        target_entries(entries);
        if lookup(entries, "accessibility"@) is Some && x.accessibility is Some {
            accessibility_is_read(lookup(entries, "accessibility"@)->0, x.accessibility->0);
        }
        if lookup(entries, "coordinates"@) is Some && x.coordinates is Some {
            coordinates_is_read(lookup(entries, "coordinates"@)->0, x.coordinates->0);
        }
        if lookup(entries, "image"@) is Some && x.image is Some {
            image_is_read(lookup(entries, "image"@)->0, x.image->0);
        }
        if lookup(entries, "platformSelectors"@) is Some {
            selectors_is_read(lookup(entries, "platformSelectors"@)->0, x.platform_selectors);
        }
    }
    reveal(target_of);
}

/// The words for platforms.
pub open spec fn platform_word(p: Platform) -> Seq<char> {
    match p {
        Platform::Windows => "windows"@,
        Platform::MacOs => "mac-os"@,
        Platform::Linux => "linux"@,
    }
}

/// The words for the types of variables.
pub open spec fn type_word(v: VariableType) -> Seq<char> {
    match v {
        VariableType::String => "string"@,
        VariableType::Boolean => "boolean"@,
        VariableType::Number => "number"@,
        VariableType::Json => "json"@,
    }
}

/// The words for how delays grow.
pub open spec fn backoff_word(v: BackoffPolicy) -> Seq<char> {
    match v {
        BackoffPolicy::Constant => "none"@,
        BackoffPolicy::Linear => "linear"@,
        BackoffPolicy::Exponential => "exponential"@,
    }
}

/// The words for what is done after a failure.
pub open spec fn on_error_word(v: OnErrorPolicy) -> Seq<char> {
    match v {
        OnErrorPolicy::Stop => "stop"@,
        OnErrorPolicy::Continue => "continue"@,
        OnErrorPolicy::Prompt => "prompt"@,
    }
}

/// Platforms, types and policies are read from their words, and from nothing else.
pub proof fn words_are_read(
    t: Tree,
    p: Platform,
    v: VariableType,
    b: BackoffPolicy,
    o: OnErrorPolicy,
)
    ensures
        platform_of(t) == Some(p) <==> t == Tree::Text(platform_word(p)),
        variable_type_of(t) == Some(v) <==> t == Tree::Text(type_word(v)),
        backoff_of(t) == Some(b) <==> t == Tree::Text(backoff_word(b)),
        on_error_of(t) == Some(o) <==> t == Tree::Text(on_error_word(o)),
{
    platform_round_trip(p);
    variable_type_round_trip(v);
    backoff_round_trip(b);
    on_error_round_trip(o);
}

proof fn with_duration(entries: Entries)
    ensures
        keys_in(entries, crate::codec::shapes::with_duration_keys()) <==> only(entries, set![
            "duration"@,
            "kind"@,
        ]),
{
    let names = crate::codec::shapes::with_duration_keys();
    let keys = set!["duration"@, "kind"@];
    assert(names[0]@ == "duration"@);
    assert(names[1]@ == "kind"@);
    assert forall|k: Seq<char>| #[trigger] named(names, k) <==> keys.contains(k) by {
        if named(names, k) {
            let i = choose|i: int| 0 <= i < names.len() && (#[trigger] names[i])@ == k;
            assert(keys.contains(names[i]@));
        }
    }
    keys_are(entries, names, keys);
}

proof fn with_target(entries: Entries)
    ensures
        keys_in(entries, crate::codec::shapes::with_target_keys()) <==> only(entries, set![
            "kind"@,
            "target"@,
        ]),
{
    let names = crate::codec::shapes::with_target_keys();
    let keys = set!["kind"@, "target"@];
    assert(names[0]@ == "kind"@);
    assert(names[1]@ == "target"@);
    assert forall|k: Seq<char>| #[trigger] named(names, k) <==> keys.contains(k) by {
        if named(names, k) {
            let i = choose|i: int| 0 <= i < names.len() && (#[trigger] names[i])@ == k;
            assert(keys.contains(names[i]@));
        }
    }
    keys_are(entries, names, keys);
}

proof fn with_target_text(entries: Entries)
    ensures
        keys_in(entries, crate::codec::shapes::with_target_text_keys()) <==> only(entries, set![
            "kind"@,
            "target"@,
            "text"@,
        ]),
{
    let names = crate::codec::shapes::with_target_text_keys();
    let keys = set!["kind"@, "target"@, "text"@];
    assert(names[0]@ == "kind"@);
    assert(names[1]@ == "target"@);
    assert(names[2]@ == "text"@);
    assert forall|k: Seq<char>| #[trigger] named(names, k) <==> keys.contains(k) by {
        if named(names, k) {
            let i = choose|i: int| 0 <= i < names.len() && (#[trigger] names[i])@ == k;
            assert(keys.contains(names[i]@));
        }
    }
    keys_are(entries, names, keys);
}

proof fn with_path(entries: Entries)
    ensures
        keys_in(entries, crate::codec::shapes::with_path_keys()) <==> only(entries, set![
            "kind"@,
            "path"@,
        ]),
{
    let names = crate::codec::shapes::with_path_keys();
    let keys = set!["kind"@, "path"@];
    assert(names[0]@ == "kind"@);
    assert(names[1]@ == "path"@);
    assert forall|k: Seq<char>| #[trigger] named(names, k) <==> keys.contains(k) by {
        if named(names, k) {
            let i = choose|i: int| 0 <= i < names.len() && (#[trigger] names[i])@ == k;
            assert(keys.contains(names[i]@));
        }
    }
    keys_are(entries, names, keys);
}

proof fn with_command(entries: Entries)
    ensures
        keys_in(entries, crate::codec::shapes::with_command_keys()) <==> only(entries, set![
            "args"@,
            "command"@,
            "kind"@,
        ]),
{
    let names = crate::codec::shapes::with_command_keys();
    let keys = set!["args"@, "command"@, "kind"@];
    assert(names[0]@ == "args"@);
    assert(names[1]@ == "command"@);
    assert(names[2]@ == "kind"@);
    assert forall|k: Seq<char>| #[trigger] named(names, k) <==> keys.contains(k) by {
        if named(names, k) {
            let i = choose|i: int| 0 <= i < names.len() && (#[trigger] names[i])@ == k;
            assert(keys.contains(names[i]@));
        }
    }
    keys_are(entries, names, keys);
}

proof fn with_target_url(entries: Entries)
    ensures
        keys_in(entries, crate::codec::shapes::with_target_url_keys()) <==> only(entries, set![
            "kind"@,
            "target"@,
            "url"@,
        ]),
{
    let names = crate::codec::shapes::with_target_url_keys();
    let keys = set!["kind"@, "target"@, "url"@];
    assert(names[0]@ == "kind"@);
    assert(names[1]@ == "target"@);
    assert(names[2]@ == "url"@);
    assert forall|k: Seq<char>| #[trigger] named(names, k) <==> keys.contains(k) by {
        if named(names, k) {
            let i = choose|i: int| 0 <= i < names.len() && (#[trigger] names[i])@ == k;
            assert(keys.contains(names[i]@));
        }
    }
    keys_are(entries, names, keys);
}

proof fn with_app(entries: Entries)
    ensures
        keys_in(entries, crate::codec::shapes::with_app_keys()) <==> only(entries, set![
            "app"@,
            "kind"@,
            "target"@,
        ]),
{
    let names = crate::codec::shapes::with_app_keys();
    let keys = set!["app"@, "kind"@, "target"@];
    assert(names[0]@ == "app"@);
    assert(names[1]@ == "kind"@);
    assert(names[2]@ == "target"@);
    assert forall|k: Seq<char>| #[trigger] named(names, k) <==> keys.contains(k) by {
        if named(names, k) {
            let i = choose|i: int| 0 <= i < names.len() && (#[trigger] names[i])@ == k;
            assert(keys.contains(names[i]@));
        }
    }
    keys_are(entries, names, keys);
}

proof fn with_keys(entries: Entries)
    ensures
        keys_in(entries, crate::codec::shapes::with_keys_keys()) <==> only(entries, set![
            "keys"@,
            "kind"@,
            "target"@,
        ]),
{
    let names = crate::codec::shapes::with_keys_keys();
    let keys = set!["keys"@, "kind"@, "target"@];
    assert(names[0]@ == "keys"@);
    assert(names[1]@ == "kind"@);
    assert(names[2]@ == "target"@);
    assert forall|k: Seq<char>| #[trigger] named(names, k) <==> keys.contains(k) by {
        if named(names, k) {
            let i = choose|i: int| 0 <= i < names.len() && (#[trigger] names[i])@ == k;
            assert(keys.contains(names[i]@));
        }
    }
    keys_are(entries, names, keys);
}

proof fn with_deltas(entries: Entries)
    ensures
        keys_in(entries, crate::codec::shapes::with_deltas_keys()) <==> only(entries, set![
            "delta_x"@,
            "delta_y"@,
            "kind"@,
            "target"@,
        ]),
{
    let names = crate::codec::shapes::with_deltas_keys();
    let keys = set!["delta_x"@, "delta_y"@, "kind"@, "target"@];
    assert(names[0]@ == "delta_x"@);
    assert(names[1]@ == "delta_y"@);
    assert(names[2]@ == "kind"@);
    assert(names[3]@ == "target"@);
    assert forall|k: Seq<char>| #[trigger] named(names, k) <==> keys.contains(k) by {
        if named(names, k) {
            let i = choose|i: int| 0 <= i < names.len() && (#[trigger] names[i])@ == k;
            assert(keys.contains(names[i]@));
        }
    }
    keys_are(entries, names, keys);
}

proof fn with_condition(entries: Entries)
    ensures
        keys_in(entries, crate::codec::shapes::with_condition_keys()) <==> only(entries, set![
            "condition"@,
            "kind"@,
        ]),
{
    let names = crate::codec::shapes::with_condition_keys();
    let keys = set!["condition"@, "kind"@];
    assert(names[0]@ == "condition"@);
    assert(names[1]@ == "kind"@);
    assert forall|k: Seq<char>| #[trigger] named(names, k) <==> keys.contains(k) by {
        if named(names, k) {
            let i = choose|i: int| 0 <= i < names.len() && (#[trigger] names[i])@ == k;
            assert(keys.contains(names[i]@));
        }
    }
    keys_are(entries, names, keys);
}

proof fn with_assertion(entries: Entries)
    ensures
        keys_in(entries, crate::codec::shapes::with_assertion_keys()) <==> only(entries, set![
            "assertion"@,
            "kind"@,
        ]),
{
    let names = crate::codec::shapes::with_assertion_keys();
    let keys = set!["assertion"@, "kind"@];
    assert(names[0]@ == "assertion"@);
    assert(names[1]@ == "kind"@);
    assert forall|k: Seq<char>| #[trigger] named(names, k) <==> keys.contains(k) by {
        if named(names, k) {
            let i = choose|i: int| 0 <= i < names.len() && (#[trigger] names[i])@ == k;
            assert(keys.contains(names[i]@));
        }
    }
    keys_are(entries, names, keys);
}

proof fn with_path_target(entries: Entries)
    ensures
        keys_in(entries, crate::codec::shapes::with_path_target_keys()) <==> only(entries, set![
            "kind"@,
            "path"@,
            "target"@,
        ]),
{
    let names = crate::codec::shapes::with_path_target_keys();
    let keys = set!["kind"@, "path"@, "target"@];
    assert(names[0]@ == "kind"@);
    assert(names[1]@ == "path"@);
    assert(names[2]@ == "target"@);
    assert forall|k: Seq<char>| #[trigger] named(names, k) <==> keys.contains(k) by {
        if named(names, k) {
            let i = choose|i: int| 0 <= i < names.len() && (#[trigger] names[i])@ == k;
            assert(keys.contains(names[i]@));
        }
    }
    keys_are(entries, names, keys);
}

proof fn with_reference(entries: Entries)
    ensures
        keys_in(entries, crate::codec::shapes::with_reference_keys()) <==> only(entries, set![
            "kind"@,
            "reference"@,
        ]),
{
    let names = crate::codec::shapes::with_reference_keys();
    let keys = set!["kind"@, "reference"@];
    assert(names[0]@ == "kind"@);
    assert(names[1]@ == "reference"@);
    assert forall|k: Seq<char>| #[trigger] named(names, k) <==> keys.contains(k) by {
        if named(names, k) {
            let i = choose|i: int| 0 <= i < names.len() && (#[trigger] names[i])@ == k;
            assert(keys.contains(names[i]@));
        }
    }
    keys_are(entries, names, keys);
}

proof fn with_value(entries: Entries)
    ensures
        keys_in(entries, crate::codec::shapes::with_value_keys()) <==> only(entries, set![
            "kind"@,
            "value"@,
        ]),
{
    let names = crate::codec::shapes::with_value_keys();
    let keys = set!["kind"@, "value"@];
    assert(names[0]@ == "kind"@);
    assert(names[1]@ == "value"@);
    assert forall|k: Seq<char>| #[trigger] named(names, k) <==> keys.contains(k) by {
        if named(names, k) {
            let i = choose|i: int| 0 <= i < names.len() && (#[trigger] names[i])@ == k;
            assert(keys.contains(names[i]@));
        }
    }
    keys_are(entries, names, keys);
}

/// A target stands under a key.
pub open spec fn target_under(entries: Entries, key: Seq<char>, x: TargetView) -> bool {
    lookup(entries, key) is Some && target_says(lookup(entries, key)->0, x)
}

/// A target stands under a key, or nothing does.
pub open spec fn maybe_target(entries: Entries, key: Seq<char>, x: Option<TargetView>) -> bool {
    match x {
        Some(y) => target_under(entries, key, y),
        None => nothing(entries, key),
    }
}

proof fn targets_are_read(entries: Entries, key: Seq<char>)
    ensures
        forall|x: TargetView|
            req_target_at(entries, key) == Some(x) <==> #[trigger] target_under(entries, key, x),
        forall|x: Option<TargetView>|
            opt_target_at(entries, key) == Some(x) <==> #[trigger] maybe_target(entries, key, x),
{
    assert forall|x: TargetView|
        req_target_at(entries, key) == Some(x) <==> #[trigger] target_under(entries, key, x) by {
        if lookup(entries, key) is Some {
            target_is_read(lookup(entries, key)->0, x);
        }
    }
    assert(target_of(Tree::Null) is None) by {
        reveal(target_of);
    }
    assert forall|x: Option<TargetView>|
        opt_target_at(entries, key) == Some(x) <==> #[trigger] maybe_target(entries, key, x) by {
        if lookup(entries, key) is Some && x is Some {
            target_is_read(lookup(entries, key)->0, x->0);
        }
    }
}

/// The entries of a condition, of each kind.
pub open spec fn condition_says(t: Tree, x: WaitConditionView) -> bool {
    let entries = t->Object_0;
    t is Object && match x {
        WaitConditionView::Duration { duration } => text(entries, "kind"@, "duration"@) && (lookup(
            entries,
            "duration"@,
        ) is Some && duration_says(lookup(entries, "duration"@)->0, duration)) && only(
            entries,
            set!["duration"@, "kind"@],
        ),
        WaitConditionView::WindowExists { target } => text(entries, "kind"@, "windowExists"@)
            && target_under(entries, "target"@, target) && only(
            entries,
            set!["kind"@, "target"@],
        ),
        WaitConditionView::WindowFocused { target } => text(entries, "kind"@, "windowFocused"@)
            && target_under(entries, "target"@, target) && only(
            entries,
            set!["kind"@, "target"@],
        ),
        WaitConditionView::TargetExists { target } => text(entries, "kind"@, "targetExists"@)
            && target_under(entries, "target"@, target) && only(
            entries,
            set!["kind"@, "target"@],
        ),
        WaitConditionView::TargetNotExists { target } => text(entries, "kind"@, "targetNotExists"@)
            && target_under(entries, "target"@, target) && only(
            entries,
            set!["kind"@, "target"@],
        ),
        WaitConditionView::TargetFocused { target } => text(entries, "kind"@, "targetFocused"@)
            && target_under(entries, "target"@, target) && only(
            entries,
            set!["kind"@, "target"@],
        ),
        WaitConditionView::TargetEnabled { target } => text(entries, "kind"@, "targetEnabled"@)
            && target_under(entries, "target"@, target) && only(
            entries,
            set!["kind"@, "target"@],
        ),
        WaitConditionView::TargetVisible { target } => text(entries, "kind"@, "targetVisible"@)
            && target_under(entries, "target"@, target) && only(
            entries,
            set!["kind"@, "target"@],
        ),
        WaitConditionView::TargetActionable { target } => text(entries, "kind"@, "targetActionable"@)
            && target_under(entries, "target"@, target) && only(
            entries,
            set!["kind"@, "target"@],
        ),
        WaitConditionView::ProcessRunning { target } => text(entries, "kind"@, "processRunning"@)
            && target_under(entries, "target"@, target) && only(
            entries,
            set!["kind"@, "target"@],
        ),
        WaitConditionView::TargetNameContains { target, text: words } => text(
            entries,
            "kind"@,
            "targetNameContains"@,
        )
            && target_under(entries, "target"@, target) && text(entries, "text"@, words) && only(
            entries,
            set!["kind"@, "target"@, "text"@],
        ),
        WaitConditionView::TargetValueContains { target, text: words } => text(
            entries,
            "kind"@,
            "targetValueContains"@,
        )
            && target_under(entries, "target"@, target) && text(entries, "text"@, words) && only(
            entries,
            set!["kind"@, "target"@, "text"@],
        ),
        WaitConditionView::FileExists { path } => text(entries, "kind"@, "fileExists"@) && text(
            entries,
            "path"@,
            path,
        ) && only(entries, set!["kind"@, "path"@]),
        WaitConditionView::CommandExits { command, args } => text(
            entries,
            "kind"@,
            "commandExits"@,
        ) && text(entries, "command"@, command) && texts_under(entries, "args"@, args) && only(
            entries,
            set!["args"@, "command"@, "kind"@],
        ),
    }
}

proof fn durations_are_read(entries: Entries, key: Seq<char>, x: DurationSpec)
    ensures
        req_duration_at(entries, key) == Some(x) <==> lookup(entries, key) is Some && duration_says(
            lookup(entries, key)->0,
            x,
        ),
        opt_duration_at(entries, key) == Some(Some(x)) <==> lookup(entries, key) is Some
            && duration_says(lookup(entries, key)->0, x),
        opt_duration_at(entries, key) == Some(None::<DurationSpec>) <==> nothing(entries, key),
{
    if lookup(entries, key) is Some {
        duration_is_read(lookup(entries, key)->0, x);
    }
}

/// The words for the kinds.
pub open spec fn condition_kind_word(kind: ConditionKind) -> Seq<char> {
    match kind {
        ConditionKind::Duration => "duration"@,
        ConditionKind::WindowExists => "windowExists"@,
        ConditionKind::WindowFocused => "windowFocused"@,
        ConditionKind::TargetExists => "targetExists"@,
        ConditionKind::TargetNotExists => "targetNotExists"@,
        ConditionKind::TargetFocused => "targetFocused"@,
        ConditionKind::TargetEnabled => "targetEnabled"@,
        ConditionKind::TargetVisible => "targetVisible"@,
        ConditionKind::TargetActionable => "targetActionable"@,
        ConditionKind::ProcessRunning => "processRunning"@,
        ConditionKind::TargetNameContains => "targetNameContains"@,
        ConditionKind::TargetValueContains => "targetValueContains"@,
        ConditionKind::FileExists => "fileExists"@,
        ConditionKind::CommandExits => "commandExits"@,
    }
}

proof fn condition_kind_is_read(entries: Entries, kind: ConditionKind)
    ensures
        req_condition_kind_at(entries, "kind"@) == Some(kind)
            <==> text(entries, "kind"@, condition_kind_word(kind)),
{
    condition_kind_round_trip(kind);
}

/// The words for the kinds.
pub open spec fn action_kind_word(kind: ActionKind) -> Seq<char> {
    match kind {
        ActionKind::LaunchUrl => "launchUrl"@,
        ActionKind::LaunchApp => "launchApp"@,
        ActionKind::FocusWindow => "focusWindow"@,
        ActionKind::TypeText => "typeText"@,
        ActionKind::PressKey => "pressKey"@,
        ActionKind::ClickTarget => "clickTarget"@,
        ActionKind::Scroll => "scroll"@,
        ActionKind::WaitFor => "waitFor"@,
        ActionKind::Assert => "assert"@,
        ActionKind::RunCommand => "runCommand"@,
        ActionKind::OpenFile => "openFile"@,
    }
}

proof fn action_kind_is_read(entries: Entries, kind: ActionKind)
    ensures
        req_action_kind_at(entries, "kind"@) == Some(kind)
            <==> text(entries, "kind"@, action_kind_word(kind)),
{
    action_kind_round_trip(kind);
}

/// The words for the kinds.
pub open spec fn assertion_kind_word(kind: AssertionKind) -> Seq<char> {
    match kind {
        AssertionKind::Condition => "condition"@,
        AssertionKind::TargetExists => "targetExists"@,
    }
}

proof fn assertion_kind_is_read(entries: Entries, kind: AssertionKind)
    ensures
        req_assertion_kind_at(entries, "kind"@) == Some(kind)
            <==> text(entries, "kind"@, assertion_kind_word(kind)),
{
    assertion_kind_round_trip(kind);
}

/// The words for the kinds.
pub open spec fn source_kind_word(kind: SourceKind) -> Seq<char> {
    match kind {
        SourceKind::Literal => "literal"@,
        SourceKind::SecretReference => "secretReference"@,
    }
}

proof fn source_kind_is_read(entries: Entries, kind: SourceKind)
    ensures
        req_source_kind_at(entries, "kind"@) == Some(kind)
            <==> text(entries, "kind"@, source_kind_word(kind)),
{
    source_kind_round_trip(kind);
}

spec fn kind_of_wait(x: WaitConditionView) -> ConditionKind {
    match x {
        WaitConditionView::Duration { .. } => ConditionKind::Duration,
        WaitConditionView::WindowExists { .. } => ConditionKind::WindowExists,
        WaitConditionView::WindowFocused { .. } => ConditionKind::WindowFocused,
        WaitConditionView::TargetExists { .. } => ConditionKind::TargetExists,
        WaitConditionView::TargetNotExists { .. } => ConditionKind::TargetNotExists,
        WaitConditionView::TargetFocused { .. } => ConditionKind::TargetFocused,
        WaitConditionView::TargetEnabled { .. } => ConditionKind::TargetEnabled,
        WaitConditionView::TargetVisible { .. } => ConditionKind::TargetVisible,
        WaitConditionView::TargetActionable { .. } => ConditionKind::TargetActionable,
        WaitConditionView::ProcessRunning { .. } => ConditionKind::ProcessRunning,
        WaitConditionView::TargetNameContains { .. } => ConditionKind::TargetNameContains,
        WaitConditionView::TargetValueContains { .. } => ConditionKind::TargetValueContains,
        WaitConditionView::FileExists { .. } => ConditionKind::FileExists,
        WaitConditionView::CommandExits { .. } => ConditionKind::CommandExits,
    }
}

/// A condition is read as what its entries say, and as nothing else.
pub proof fn condition_is_read(t: Tree, x: WaitConditionView)
    ensures
        condition_of(t) == Some(x) <==> condition_says(t, x),
{
    if t is Object {
        let entries = t->Object_0;
        with_duration(entries);
        with_target(entries);
        with_target_text(entries);
        with_path(entries);
        with_command(entries);
        targets_are_read(entries, "target"@);
        condition_kind_is_read(entries, kind_of_wait(x));
        if let WaitConditionView::Duration { duration } = x {
            durations_are_read(entries, "duration"@, duration);
        }
        if let WaitConditionView::CommandExits { command, args } = x {
            texts_are_read(entries, "args"@, args);
        }
    }
}

pub open spec fn condition_under(entries: Entries, key: Seq<char>, x: WaitConditionView) -> bool {
    lookup(entries, key) is Some && condition_says(lookup(entries, key)->0, x)
}

/// The entries of an assertion.
pub open spec fn assertion_says(t: Tree, x: AssertionView) -> bool {
    let entries = t->Object_0;
    t is Object && match x {
        AssertionView::Condition { condition } => text(entries, "kind"@, "condition"@)
            && condition_under(entries, "condition"@, condition) && only(
            entries,
            set!["condition"@, "kind"@],
        ),
        AssertionView::TargetExists { target } => text(entries, "kind"@, "targetExists"@)
            && target_under(entries, "target"@, target) && only(
            entries,
            set!["kind"@, "target"@],
        ),
    }
}

/// An assertion is read as what its entries say, and as nothing else.
pub proof fn assertion_is_read(t: Tree, x: AssertionView)
    ensures
        assertion_of(t) == Some(x) <==> assertion_says(t, x),
{
    if t is Object {
        let entries = t->Object_0;
        with_condition(entries);
        with_target(entries);
        targets_are_read(entries, "target"@);
        match x {
            AssertionView::Condition { condition } => {
                assertion_kind_is_read(entries, AssertionKind::Condition);
                if lookup(entries, "condition"@) is Some {
                    condition_is_read(lookup(entries, "condition"@)->0, condition);
                }
            },
            AssertionView::TargetExists { target } => {
                assertion_kind_is_read(entries, AssertionKind::TargetExists);
            },
        }
    }
}

pub open spec fn assertion_under(entries: Entries, key: Seq<char>, x: AssertionView) -> bool {
    lookup(entries, key) is Some && assertion_says(lookup(entries, key)->0, x)
}

/// The entries of an action, of each kind. A scroll goes by its `delta_x` from left to right, and
/// by its `delta_y` up and down.
pub open spec fn action_told(entries: Entries, x: ActionView) -> bool {
    match x {
        ActionView::LaunchUrl { url, target } => text(entries, "kind"@, "launchUrl"@) && text(
            entries,
            "url"@,
            url,
        ) && maybe_target(entries, "target"@, target),
        ActionView::LaunchApp { app, target } => text(entries, "kind"@, "launchApp"@) && text(
            entries,
            "app"@,
            app,
        ) && maybe_target(entries, "target"@, target),
        ActionView::FocusWindow { target } => text(entries, "kind"@, "focusWindow"@)
            && target_under(entries, "target"@, target),
        ActionView::TypeText { text: words, target } => text(entries, "kind"@, "typeText"@) && text(
            entries,
            "text"@,
            words,
        ) && maybe_target(entries, "target"@, target),
        ActionView::PressKey { keys, target } => text(entries, "kind"@, "pressKey"@) && text(
            entries,
            "keys"@,
            keys,
        ) && maybe_target(entries, "target"@, target),
        ActionView::ClickTarget { target } => text(entries, "kind"@, "clickTarget"@)
            && target_under(entries, "target"@, target),
        ActionView::Scroll { delta_x, delta_y, target } => text(entries, "kind"@, "scroll"@)
            && signed_number(entries, "delta_x"@, delta_x) && signed_number(
            entries,
            "delta_y"@,
            delta_y,
        ) && maybe_target(entries, "target"@, target),
        ActionView::WaitFor { condition } => text(entries, "kind"@, "waitFor"@) && condition_under(
            entries,
            "condition"@,
            condition,
        ),
        ActionView::Assert { assertion } => text(entries, "kind"@, "assert"@) && assertion_under(
            entries,
            "assertion"@,
            assertion,
        ),
        ActionView::RunCommand { command, args } => text(entries, "kind"@, "runCommand"@) && text(
            entries,
            "command"@,
            command,
        ) && texts_under(entries, "args"@, args),
        ActionView::OpenFile { path, target } => text(entries, "kind"@, "openFile"@) && text(
            entries,
            "path"@,
            path,
        ) && maybe_target(entries, "target"@, target),
    }
}

/// The keys of the entries of an action.
pub open spec fn keys_of_action(x: ActionView) -> Set<Seq<char>> {
    match x {
        ActionView::LaunchUrl { .. } => set!["kind"@, "target"@, "url"@],
        ActionView::LaunchApp { .. } => set!["app"@, "kind"@, "target"@],
        ActionView::FocusWindow { .. } => set!["kind"@, "target"@],
        ActionView::TypeText { .. } => set!["kind"@, "target"@, "text"@],
        ActionView::PressKey { .. } => set!["keys"@, "kind"@, "target"@],
        ActionView::ClickTarget { .. } => set!["kind"@, "target"@],
        ActionView::Scroll { .. } => set!["delta_x"@, "delta_y"@, "kind"@, "target"@],
        ActionView::WaitFor { .. } => set!["condition"@, "kind"@],
        ActionView::Assert { .. } => set!["assertion"@, "kind"@],
        ActionView::RunCommand { .. } => set!["args"@, "command"@, "kind"@],
        ActionView::OpenFile { .. } => set!["kind"@, "path"@, "target"@],
    }
}

/// The entries of an action that stands by itself.
pub open spec fn action_says(t: Tree, x: ActionView) -> bool {
    t is Object && only(t->Object_0, keys_of_action(x)) && action_told(t->Object_0, x)
}

spec fn kind_of_deed(x: ActionView) -> ActionKind {
    match x {
        ActionView::LaunchUrl { .. } => ActionKind::LaunchUrl,
        ActionView::LaunchApp { .. } => ActionKind::LaunchApp,
        ActionView::FocusWindow { .. } => ActionKind::FocusWindow,
        ActionView::TypeText { .. } => ActionKind::TypeText,
        ActionView::PressKey { .. } => ActionKind::PressKey,
        ActionView::ClickTarget { .. } => ActionKind::ClickTarget,
        ActionView::Scroll { .. } => ActionKind::Scroll,
        ActionView::WaitFor { .. } => ActionKind::WaitFor,
        ActionView::Assert { .. } => ActionKind::Assert,
        ActionView::RunCommand { .. } => ActionKind::RunCommand,
        ActionView::OpenFile { .. } => ActionKind::OpenFile,
    }
}

proof fn deed_is_read(entries: Entries, x: ActionView)
    ensures
        req_action_kind_at(entries, "kind"@) is Some && action_from(
            req_action_kind_at(entries, "kind"@)->0,
            entries,
        ) == Some(x) <==> action_told(entries, x),
        action_told(entries, x) ==> req_action_kind_at(entries, "kind"@) == Some(kind_of_deed(x)),
        req_action_kind_at(entries, "kind"@) is Some && action_from(
            req_action_kind_at(entries, "kind"@)->0,
            entries,
        ) == Some(x) ==> req_action_kind_at(entries, "kind"@) == Some(kind_of_deed(x)),
{
    targets_are_read(entries, "target"@);
    action_kind_is_read(entries, kind_of_deed(x));
    match x {
        ActionView::WaitFor { condition } => {
            if lookup(entries, "condition"@) is Some {
                condition_is_read(lookup(entries, "condition"@)->0, condition);
            }
        },
        ActionView::Assert { assertion } => {
            if lookup(entries, "assertion"@) is Some {
                assertion_is_read(lookup(entries, "assertion"@)->0, assertion);
            }
        },
        ActionView::RunCommand { command, args } => {
            texts_are_read(entries, "args"@, args);
        },
        _ => {},
    }
}

/// An action is read as what its entries say, and as nothing else.
pub proof fn action_is_read(t: Tree, x: ActionView)
    ensures
        action_of(t) == Some(x) <==> action_says(t, x),
{
    if t is Object {
        let entries = t->Object_0;
        with_target_url(entries);
        with_app(entries);
        with_target(entries);
        with_target_text(entries);
        with_keys(entries);
        with_deltas(entries);
        with_condition(entries);
        with_assertion(entries);
        with_command(entries);
        with_path_target(entries);
        deed_is_read(entries, x);
    }
}

/// The entries of a retry policy.
pub open spec fn retry_says(t: Tree, x: RetryPolicy) -> bool {
    &&& t is Object
    &&& only(t->Object_0, set!["backoff"@, "delay"@, "maxAttempts"@])
    &&& match lookup(t->Object_0, "backoff"@) {
        Some(u) => u == Tree::Text(backoff_word(x.backoff)),
        None => x.backoff == BackoffPolicy::Constant,
    }
    &&& match x.delay {
        Some(y) => lookup(t->Object_0, "delay"@) is Some
            && duration_says(lookup(t->Object_0, "delay"@)->0, y),
        None => nothing(t->Object_0, "delay"@),
    }
    &&& number(t->Object_0, "maxAttempts"@, x.max_attempts as int)
}

proof fn retry_entries(entries: Entries)
    ensures
        keys_in(entries, crate::codec::step::retry_keys()) <==> only(entries, set![
            "backoff"@,
            "delay"@,
            "maxAttempts"@,
        ]),
{
    let names = crate::codec::step::retry_keys();
    let keys = set!["backoff"@, "delay"@, "maxAttempts"@];
    assert(names[0]@ == "backoff"@);
    assert(names[1]@ == "delay"@);
    assert(names[2]@ == "maxAttempts"@);
    assert forall|k: Seq<char>| #[trigger] named(names, k) <==> keys.contains(k) by {
        if named(names, k) {
            let i = choose|i: int| 0 <= i < names.len() && (#[trigger] names[i])@ == k;
            assert(keys.contains(names[i]@));
        }
    }
    keys_are(entries, names, keys);
}

/// A document is read as what its entries say, and as nothing else.
pub proof fn retry_is_read(t: Tree, x: RetryPolicy)
    ensures
        retry_of(t) == Some(x) <==> retry_says(t, x),
{
    if t is Object {
        let entries = t->Object_0;
        retry_entries(entries);
        if x.delay is Some {
            durations_are_read(entries, "delay"@, x.delay->0);
        }
        if lookup(entries, "backoff"@) is Some {
            words_are_read(
                lookup(entries, "backoff"@)->0,
                Platform::Linux,
                VariableType::Json,
                x.backoff,
                OnErrorPolicy::Stop,
            );
        }
    }
}

/// The entries of an override.
pub open spec fn override_entry_says(t: Tree, x: PlatformActionOverrideView) -> bool {
    &&& t is Object
    &&& only(t->Object_0, set!["action"@, "platform"@])
    &&& lookup(t->Object_0, "action"@) is Some
            && action_says(lookup(t->Object_0, "action"@)->0, x.action)
    &&& text(t->Object_0, "platform"@, platform_word(x.platform))
}

proof fn override_entry_entries(entries: Entries)
    ensures
        keys_in(entries, crate::codec::action::override_entry_keys()) <==> only(entries, set![
            "action"@,
            "platform"@,
        ]),
{
    let names = crate::codec::action::override_entry_keys();
    let keys = set!["action"@, "platform"@];
    assert(names[0]@ == "action"@);
    assert(names[1]@ == "platform"@);
    assert forall|k: Seq<char>| #[trigger] named(names, k) <==> keys.contains(k) by {
        if named(names, k) {
            let i = choose|i: int| 0 <= i < names.len() && (#[trigger] names[i])@ == k;
            assert(keys.contains(names[i]@));
        }
    }
    keys_are(entries, names, keys);
}

/// A document is read as what its entries say, and as nothing else.
pub proof fn override_entry_is_read(t: Tree, x: PlatformActionOverrideView)
    ensures
        override_entry_of(t) == Some(x) <==> override_entry_says(t, x),
{
    if t is Object {
        let entries = t->Object_0;
        override_entry_entries(entries);
        if lookup(entries, "action"@) is Some {
            action_is_read(lookup(entries, "action"@)->0, x.action);
        }
        if lookup(entries, "platform"@) is Some {
            words_are_read(
                lookup(entries, "platform"@)->0,
                x.platform,
                VariableType::Json,
                BackoffPolicy::Linear,
                OnErrorPolicy::Stop,
            );
        }
    }
}

/// A list of conditions, in order.
pub open spec fn conditions_say(t: Tree, x: Seq<WaitConditionView>) -> bool {
    t is Array && t->Array_0.len() == x.len() && forall|i: int|
        0 <= i < x.len() ==> condition_says(#[trigger] t->Array_0[i], x[i])
}

/// A list of conditions is read item by item.
pub proof fn conditions_are_read(t: Tree, x: Seq<WaitConditionView>)
    ensures
        conditions_of(t) == Some(x) <==> conditions_say(t, x),
{
    if t is Array {
        let items = t->Array_0;
        each_is_read(items, |u: Tree| condition_of(u), x);
        assert forall|i: int| 0 <= i < items.len() && items.len() == x.len() implies (condition_of(
            #[trigger] items[i],
        ) == Some(x[i]) <==> condition_says(items[i], x[i])) by {
            condition_is_read(items[i], x[i]);
        }
    }
}

/// A list of overrides, in order.
pub open spec fn overrides_say(t: Tree, x: Seq<PlatformActionOverrideView>) -> bool {
    t is Array && t->Array_0.len() == x.len() && forall|i: int|
        0 <= i < x.len() ==> override_entry_says(#[trigger] t->Array_0[i], x[i])
}

/// A list of overrides is read item by item.
pub proof fn overrides_are_read(t: Tree, x: Seq<PlatformActionOverrideView>)
    ensures
        overrides_of(t) == Some(x) <==> overrides_say(t, x),
{
    if t is Array {
        let items = t->Array_0;
        each_is_read(items, |u: Tree| override_entry_of(u), x);
        assert forall|i: int| 0 <= i < items.len()
            && items.len() == x.len() implies (override_entry_of(
            #[trigger] items[i],
        ) == Some(x[i]) <==> override_entry_says(items[i], x[i])) by {
            override_entry_is_read(items[i], x[i]);
        }
    }
}

proof fn step_with_target_url(entries: Entries)
    ensures
        keys_in(entries, crate::codec::step::step_with_target_url_keys()) <==> only(entries, set![
            "kind"@,
            "target"@,
            "url"@,
        ].union(step_keys())),
{
    let names = crate::codec::step::step_with_target_url_keys();
    let keys = set!["kind"@, "target"@, "url"@].union(step_keys());
    assert(names[0]@ == "conditions"@);
    assert(names[1]@ == "id"@);
    assert(names[2]@ == "kind"@);
    assert(names[3]@ == "label"@);
    assert(names[4]@ == "onError"@);
    assert(names[5]@ == "platformOverrides"@);
    assert(names[6]@ == "retry"@);
    assert(names[7]@ == "target"@);
    assert(names[8]@ == "timeout"@);
    assert(names[9]@ == "url"@);
    assert forall|k: Seq<char>| #[trigger] named(names, k) <==> keys.contains(k) by {
        if named(names, k) {
            let i = choose|i: int| 0 <= i < names.len() && (#[trigger] names[i])@ == k;
            assert(keys.contains(names[i]@));
        }
    }
    keys_are(entries, names, keys);
}

proof fn step_with_app(entries: Entries)
    ensures
        keys_in(entries, crate::codec::step::step_with_app_keys()) <==> only(entries, set![
            "app"@,
            "kind"@,
            "target"@,
        ].union(step_keys())),
{
    let names = crate::codec::step::step_with_app_keys();
    let keys = set!["app"@, "kind"@, "target"@].union(step_keys());
    assert(names[0]@ == "app"@);
    assert(names[1]@ == "conditions"@);
    assert(names[2]@ == "id"@);
    assert(names[3]@ == "kind"@);
    assert(names[4]@ == "label"@);
    assert(names[5]@ == "onError"@);
    assert(names[6]@ == "platformOverrides"@);
    assert(names[7]@ == "retry"@);
    assert(names[8]@ == "target"@);
    assert(names[9]@ == "timeout"@);
    assert forall|k: Seq<char>| #[trigger] named(names, k) <==> keys.contains(k) by {
        if named(names, k) {
            let i = choose|i: int| 0 <= i < names.len() && (#[trigger] names[i])@ == k;
            assert(keys.contains(names[i]@));
        }
    }
    keys_are(entries, names, keys);
}

proof fn step_with_target(entries: Entries)
    ensures
        keys_in(entries, crate::codec::step::step_with_target_keys()) <==> only(entries, set![
            "kind"@,
            "target"@,
        ].union(step_keys())),
{
    let names = crate::codec::step::step_with_target_keys();
    let keys = set!["kind"@, "target"@].union(step_keys());
    assert(names[0]@ == "conditions"@);
    assert(names[1]@ == "id"@);
    assert(names[2]@ == "kind"@);
    assert(names[3]@ == "label"@);
    assert(names[4]@ == "onError"@);
    assert(names[5]@ == "platformOverrides"@);
    assert(names[6]@ == "retry"@);
    assert(names[7]@ == "target"@);
    assert(names[8]@ == "timeout"@);
    assert forall|k: Seq<char>| #[trigger] named(names, k) <==> keys.contains(k) by {
        if named(names, k) {
            let i = choose|i: int| 0 <= i < names.len() && (#[trigger] names[i])@ == k;
            assert(keys.contains(names[i]@));
        }
    }
    keys_are(entries, names, keys);
}

proof fn step_with_target_text(entries: Entries)
    ensures
        keys_in(entries, crate::codec::step::step_with_target_text_keys()) <==> only(entries, set![
            "kind"@,
            "target"@,
            "text"@,
        ].union(step_keys())),
{
    let names = crate::codec::step::step_with_target_text_keys();
    let keys = set!["kind"@, "target"@, "text"@].union(step_keys());
    assert(names[0]@ == "conditions"@);
    assert(names[1]@ == "id"@);
    assert(names[2]@ == "kind"@);
    assert(names[3]@ == "label"@);
    assert(names[4]@ == "onError"@);
    assert(names[5]@ == "platformOverrides"@);
    assert(names[6]@ == "retry"@);
    assert(names[7]@ == "target"@);
    assert(names[8]@ == "text"@);
    assert(names[9]@ == "timeout"@);
    assert forall|k: Seq<char>| #[trigger] named(names, k) <==> keys.contains(k) by {
        if named(names, k) {
            let i = choose|i: int| 0 <= i < names.len() && (#[trigger] names[i])@ == k;
            assert(keys.contains(names[i]@));
        }
    }
    keys_are(entries, names, keys);
}

proof fn step_with_keys(entries: Entries)
    ensures
        keys_in(entries, crate::codec::step::step_with_keys_keys()) <==> only(entries, set![
            "keys"@,
            "kind"@,
            "target"@,
        ].union(step_keys())),
{
    let names = crate::codec::step::step_with_keys_keys();
    let keys = set!["keys"@, "kind"@, "target"@].union(step_keys());
    assert(names[0]@ == "conditions"@);
    assert(names[1]@ == "id"@);
    assert(names[2]@ == "keys"@);
    assert(names[3]@ == "kind"@);
    assert(names[4]@ == "label"@);
    assert(names[5]@ == "onError"@);
    assert(names[6]@ == "platformOverrides"@);
    assert(names[7]@ == "retry"@);
    assert(names[8]@ == "target"@);
    assert(names[9]@ == "timeout"@);
    assert forall|k: Seq<char>| #[trigger] named(names, k) <==> keys.contains(k) by {
        if named(names, k) {
            let i = choose|i: int| 0 <= i < names.len() && (#[trigger] names[i])@ == k;
            assert(keys.contains(names[i]@));
        }
    }
    keys_are(entries, names, keys);
}

proof fn step_with_deltas(entries: Entries)
    ensures
        keys_in(entries, crate::codec::step::step_with_deltas_keys()) <==> only(entries, set![
            "delta_x"@,
            "delta_y"@,
            "kind"@,
            "target"@,
        ].union(step_keys())),
{
    let names = crate::codec::step::step_with_deltas_keys();
    let keys = set!["delta_x"@, "delta_y"@, "kind"@, "target"@].union(step_keys());
    assert(names[0]@ == "conditions"@);
    assert(names[1]@ == "delta_x"@);
    assert(names[2]@ == "delta_y"@);
    assert(names[3]@ == "id"@);
    assert(names[4]@ == "kind"@);
    assert(names[5]@ == "label"@);
    assert(names[6]@ == "onError"@);
    assert(names[7]@ == "platformOverrides"@);
    assert(names[8]@ == "retry"@);
    assert(names[9]@ == "target"@);
    assert(names[10]@ == "timeout"@);
    assert forall|k: Seq<char>| #[trigger] named(names, k) <==> keys.contains(k) by {
        if named(names, k) {
            let i = choose|i: int| 0 <= i < names.len() && (#[trigger] names[i])@ == k;
            assert(keys.contains(names[i]@));
        }
    }
    keys_are(entries, names, keys);
}

proof fn step_with_condition(entries: Entries)
    ensures
        keys_in(entries, crate::codec::step::step_with_condition_keys()) <==> only(entries, set![
            "condition"@,
            "kind"@,
        ].union(step_keys())),
{
    let names = crate::codec::step::step_with_condition_keys();
    let keys = set!["condition"@, "kind"@].union(step_keys());
    assert(names[0]@ == "condition"@);
    assert(names[1]@ == "conditions"@);
    assert(names[2]@ == "id"@);
    assert(names[3]@ == "kind"@);
    assert(names[4]@ == "label"@);
    assert(names[5]@ == "onError"@);
    assert(names[6]@ == "platformOverrides"@);
    assert(names[7]@ == "retry"@);
    assert(names[8]@ == "timeout"@);
    assert forall|k: Seq<char>| #[trigger] named(names, k) <==> keys.contains(k) by {
        if named(names, k) {
            let i = choose|i: int| 0 <= i < names.len() && (#[trigger] names[i])@ == k;
            assert(keys.contains(names[i]@));
        }
    }
    keys_are(entries, names, keys);
}

proof fn step_with_assertion(entries: Entries)
    ensures
        keys_in(entries, crate::codec::step::step_with_assertion_keys()) <==> only(entries, set![
            "assertion"@,
            "kind"@,
        ].union(step_keys())),
{
    let names = crate::codec::step::step_with_assertion_keys();
    let keys = set!["assertion"@, "kind"@].union(step_keys());
    assert(names[0]@ == "assertion"@);
    assert(names[1]@ == "conditions"@);
    assert(names[2]@ == "id"@);
    assert(names[3]@ == "kind"@);
    assert(names[4]@ == "label"@);
    assert(names[5]@ == "onError"@);
    assert(names[6]@ == "platformOverrides"@);
    assert(names[7]@ == "retry"@);
    assert(names[8]@ == "timeout"@);
    assert forall|k: Seq<char>| #[trigger] named(names, k) <==> keys.contains(k) by {
        if named(names, k) {
            let i = choose|i: int| 0 <= i < names.len() && (#[trigger] names[i])@ == k;
            assert(keys.contains(names[i]@));
        }
    }
    keys_are(entries, names, keys);
}

proof fn step_with_command(entries: Entries)
    ensures
        keys_in(entries, crate::codec::step::step_with_command_keys()) <==> only(entries, set![
            "args"@,
            "command"@,
            "kind"@,
        ].union(step_keys())),
{
    let names = crate::codec::step::step_with_command_keys();
    let keys = set!["args"@, "command"@, "kind"@].union(step_keys());
    assert(names[0]@ == "args"@);
    assert(names[1]@ == "command"@);
    assert(names[2]@ == "conditions"@);
    assert(names[3]@ == "id"@);
    assert(names[4]@ == "kind"@);
    assert(names[5]@ == "label"@);
    assert(names[6]@ == "onError"@);
    assert(names[7]@ == "platformOverrides"@);
    assert(names[8]@ == "retry"@);
    assert(names[9]@ == "timeout"@);
    assert forall|k: Seq<char>| #[trigger] named(names, k) <==> keys.contains(k) by {
        if named(names, k) {
            let i = choose|i: int| 0 <= i < names.len() && (#[trigger] names[i])@ == k;
            assert(keys.contains(names[i]@));
        }
    }
    keys_are(entries, names, keys);
}

proof fn step_with_path_target(entries: Entries)
    ensures
        keys_in(entries, crate::codec::step::step_with_path_target_keys()) <==> only(entries, set![
            "kind"@,
            "path"@,
            "target"@,
        ].union(step_keys())),
{
    let names = crate::codec::step::step_with_path_target_keys();
    let keys = set!["kind"@, "path"@, "target"@].union(step_keys());
    assert(names[0]@ == "conditions"@);
    assert(names[1]@ == "id"@);
    assert(names[2]@ == "kind"@);
    assert(names[3]@ == "label"@);
    assert(names[4]@ == "onError"@);
    assert(names[5]@ == "path"@);
    assert(names[6]@ == "platformOverrides"@);
    assert(names[7]@ == "retry"@);
    assert(names[8]@ == "target"@);
    assert(names[9]@ == "timeout"@);
    assert forall|k: Seq<char>| #[trigger] named(names, k) <==> keys.contains(k) by {
        if named(names, k) {
            let i = choose|i: int| 0 <= i < names.len() && (#[trigger] names[i])@ == k;
            assert(keys.contains(names[i]@));
        }
    }
    keys_are(entries, names, keys);
}

/// The entries of a step: those of its action, beside its own.
pub open spec fn step_says(t: Tree, x: StepView) -> bool {
    let entries = t->Object_0;
    &&& t is Object
    &&& only(entries, keys_of_action(x.action).union(step_keys()))
    &&& action_told(entries, x.action)
    &&& text(entries, "id"@, x.id)
    &&& maybe_text(entries, "label"@, x.label)
    &&& match lookup(entries, "conditions"@) {
        Some(u) => conditions_say(u, x.conditions),
        None => x.conditions.len() == 0,
    }
    &&& match lookup(entries, "platformOverrides"@) {
        Some(u) => overrides_say(u, x.platform_overrides),
        None => x.platform_overrides.len() == 0,
    }
    &&& match lookup(entries, "onError"@) {
        Some(u) => u == Tree::Text(on_error_word(x.on_error)),
        None => x.on_error == OnErrorPolicy::Stop,
    }
    &&& match lookup(entries, "retry"@) {
        Some(u) => retry_says(u, x.retry),
        None => x.retry.max_attempts == 1 && x.retry.delay is None && x.retry.backoff
            == BackoffPolicy::Constant,
    }
    &&& match x.timeout {
        Some(y) => lookup(entries, "timeout"@) is Some && duration_says(
            lookup(entries, "timeout"@)->0,
            y,
        ),
        None => nothing(entries, "timeout"@),
    }
}

/// A step is read as what its entries say, and as nothing else.
pub proof fn step_is_read(t: Tree, x: StepView)
    ensures
        step_of(t) == Some(x) <==> step_says(t, x),
{
    if t is Object {
        let entries = t->Object_0;
        step_with_target_url(entries);
        step_with_app(entries);
        step_with_target(entries);
        step_with_target_text(entries);
        step_with_keys(entries);
        step_with_deltas(entries);
        step_with_condition(entries);
        step_with_assertion(entries);
        step_with_command(entries);
        step_with_path_target(entries);
        deed_is_read(entries, x.action);
        if lookup(entries, "conditions"@) is Some {
            conditions_are_read(lookup(entries, "conditions"@)->0, x.conditions);
        } else if x.conditions.len() == 0 {
            assert(x.conditions =~= Seq::empty());
        }
        if lookup(entries, "platformOverrides"@) is Some {
            overrides_are_read(lookup(entries, "platformOverrides"@)->0, x.platform_overrides);
        } else if x.platform_overrides.len() == 0 {
            assert(x.platform_overrides =~= Seq::empty());
        }
        if lookup(entries, "onError"@) is Some {
            words_are_read(
                lookup(entries, "onError"@)->0,
                Platform::Linux,
                VariableType::Json,
                BackoffPolicy::Linear,
                x.on_error,
            );
        }
        if lookup(entries, "retry"@) is Some {
            retry_is_read(lookup(entries, "retry"@)->0, x.retry);
        }
        if x.timeout is Some {
            durations_are_read(entries, "timeout"@, x.timeout->0);
        }
    }
}

/// The keys of the entries that every step may have.
pub open spec fn step_keys() -> Set<Seq<char>> {
    set!["conditions"@, "id"@, "label"@, "onError"@, "platformOverrides"@, "retry"@, "timeout"@]
}

/// A list of steps, in order.
pub open spec fn steps_say(t: Tree, x: Seq<StepView>) -> bool {
    t is Array && t->Array_0.len() == x.len() && forall|i: int|
        0 <= i < x.len() ==> step_says(#[trigger] t->Array_0[i], x[i])
}

/// A list of steps is read item by item.
pub proof fn steps_are_read(t: Tree, x: Seq<StepView>)
    ensures
        steps_of(t) == Some(x) <==> steps_say(t, x),
{
    if t is Array {
        let items = t->Array_0;
        each_is_read(items, |u: Tree| step_of(u), x);
        assert forall|i: int| 0 <= i < items.len() && items.len() == x.len() implies (step_of(
            #[trigger] items[i],
        ) == Some(x[i]) <==> step_says(items[i], x[i])) by {
            step_is_read(items[i], x[i]);
        }
    }
}

/// The entries of the source of a value.
pub open spec fn source_says(t: Tree, x: VariableSourceView) -> bool {
    let entries = t->Object_0;
    t is Object && match x {
        VariableSourceView::Literal { value } => text(entries, "kind"@, "literal"@) && lookup(
            entries,
            "value"@,
        ) == Some(value) && only(entries, set!["kind"@, "value"@]),
        VariableSourceView::SecretReference { reference } => text(
            entries,
            "kind"@,
            "secretReference"@,
        ) && text(entries, "reference"@, reference) && only(
            entries,
            set!["kind"@, "reference"@],
        ),
    }
}

/// The source of a value is read as what its entries say, and as nothing else.
pub proof fn source_is_read(t: Tree, x: VariableSourceView)
    ensures
        source_of(t) == Some(x) <==> source_says(t, x),
{
    if t is Object {
        let entries = t->Object_0;
        with_value(entries);
        with_reference(entries);
        match x {
            VariableSourceView::Literal { value } => {
                source_kind_is_read(entries, SourceKind::Literal);
            },
            VariableSourceView::SecretReference { reference } => {
                source_kind_is_read(entries, SourceKind::SecretReference);
            },
        }
    }
}

/// The entries of a variable.
pub open spec fn variable_says(t: Tree, x: VariableDefinitionView) -> bool {
    &&& t is Object
    &&& only(t->Object_0, set!["default"@, "description"@, "required"@, "type"@])
    &&& match x.default {
        Some(y) => lookup(t->Object_0, "default"@) is Some
            && source_says(lookup(t->Object_0, "default"@)->0, y),
        None => nothing(t->Object_0, "default"@),
    }
    &&& maybe_text(t->Object_0, "description"@, x.description)
    &&& match lookup(t->Object_0, "required"@) {
        Some(u) => u == Tree::Bool(x.required),
        None => !x.required,
    }
    &&& text(t->Object_0, "type"@, type_word(x.value_type))
}

proof fn variable_entries(entries: Entries)
    ensures
        keys_in(entries, crate::codec::variable::variable_keys()) <==> only(entries, set![
            "default"@,
            "description"@,
            "required"@,
            "type"@,
        ]),
{
    let names = crate::codec::variable::variable_keys();
    let keys = set!["default"@, "description"@, "required"@, "type"@];
    assert(names[0]@ == "default"@);
    assert(names[1]@ == "description"@);
    assert(names[2]@ == "required"@);
    assert(names[3]@ == "type"@);
    assert forall|k: Seq<char>| #[trigger] named(names, k) <==> keys.contains(k) by {
        if named(names, k) {
            let i = choose|i: int| 0 <= i < names.len() && (#[trigger] names[i])@ == k;
            assert(keys.contains(names[i]@));
        }
    }
    keys_are(entries, names, keys);
}

/// A document is read as what its entries say, and as nothing else.
pub proof fn variable_is_read(t: Tree, x: VariableDefinitionView)
    ensures
        variable_of(t) == Some(x) <==> variable_says(t, x),
{
    if t is Object {
        let entries = t->Object_0;
        variable_entries(entries);
        if lookup(entries, "default"@) is Some && x.default is Some {
            source_is_read(lookup(entries, "default"@)->0, x.default->0);
        }
        if lookup(entries, "type"@) is Some {
            words_are_read(
                lookup(entries, "type"@)->0,
                Platform::Linux,
                x.value_type,
                BackoffPolicy::Linear,
                OnErrorPolicy::Stop,
            );
        }
    }
}

/// The variables of a definition, each under its name.
pub open spec fn variables_say(t: Tree, x: Seq<(Seq<char>, VariableDefinitionView)>) -> bool {
    t is Object && t->Object_0.len() == x.len() && forall|i: int|
        0 <= i < x.len() ==> (#[trigger] t->Object_0[i]).0 == x[i].0 && variable_says(
            t->Object_0[i].1,
            x[i].1,
        )
}

proof fn entries_are_read<T>(
    entries: Entries,
    decode: spec_fn(Tree) -> Option<T>,
    x: Seq<(Seq<char>, T)>,
)
    ensures
        decode_entries(entries, decode) == Some(x) <==> entries.len() == x.len() && forall|i: int|
            0 <= i < entries.len() ==> (#[trigger] entries[i]).0 == x[i].0 && decode(entries[i].1)
                == Some(x[i].1),
    decreases entries.len(),
{
    if entries.len() == 0 {
        if x.len() == 0 {
            assert(x =~= Seq::empty());
        }
    } else {
        let front = entries.drop_last();
        if decode_entries(entries, decode) == Some(x) {
            let y = decode_entries(front, decode)->0;
            entries_are_read(front, decode, y);
            assert(x == y.push((entries.last().0, decode(entries.last().1)->0)));
            assert forall|i: int| 0 <= i < entries.len() implies (#[trigger] entries[i]).0 == x[i].0
                && decode(entries[i].1) == Some(x[i].1) by {
                if i < front.len() {
                    assert(front[i] == entries[i]);
                }
            }
        }
        if entries.len() == x.len() && forall|i: int|
            0 <= i < entries.len() ==> (#[trigger] entries[i]).0 == x[i].0 && decode(entries[i].1)
                == Some(x[i].1) {
            assert forall|i: int| 0 <= i < front.len() implies (#[trigger] front[i]).0
                == x.drop_last()[i].0 && decode(front[i].1) == Some(x.drop_last()[i].1) by {
                assert(front[i] == entries[i]);
            }
            entries_are_read(front, decode, x.drop_last());
            assert(entries.last() == entries[entries.len() - 1]);
            assert(x =~= x.drop_last().push(x.last()));
        }
    }
}

/// Variables that stand in the order of their names are read one by one.
pub proof fn variables_are_read(t: Tree, x: Seq<(Seq<char>, VariableDefinitionView)>)
    requires
        t is Object ==> ascending(t->Object_0),
    ensures
        variables_of(t) == Some(x) <==> variables_say(t, x),
{
    if t is Object {
        let entries = t->Object_0;
        let decode = |u: Tree| variable_of(u);
        if let Some(pairs) = decode_entries(entries, decode) {
            entries_are_read(entries, decode, pairs);
            assert(ascending(pairs)) by {
                assert forall|i: int| 0 <= i < pairs.len() implies (#[trigger] pairs[i]).0
                    == entries[i].0 by {}
            }
            put_all_ascending(pairs);
        }
        entries_are_read(entries, decode, x);
        assert forall|i: int| 0 <= i < entries.len() && entries.len() == x.len() implies (
        variable_of((#[trigger] entries[i]).1) == Some(x[i].1) <==> variable_says(
            entries[i].1,
            x[i].1,
        )) by {
            variable_is_read(entries[i].1, x[i].1);
        }
    }
}

/// Whether the entries under a key, where an object stands there, are in the order of their keys.
pub open spec fn sorted_under(t: Tree, key: Seq<char>) -> bool {
    t is Object ==> match lookup(t->Object_0, key) {
        Some(Tree::Object(entries)) => ascending(entries),
        _ => true,
    }
}

/// The entries of a definition.
pub open spec fn definition_says(t: Tree, x: AutomationDefinitionView) -> bool {
    &&& t is Object
    &&& only(t->Object_0, set![
        "description"@,
        "id"@,
        "metadata"@,
        "schemaVersion"@,
        "steps"@,
        "title"@,
        "variables"@,
        "version"@,
    ])
    &&& maybe_text(t->Object_0, "description"@, x.description)
    &&& text(t->Object_0, "id"@, x.id)
    &&& match lookup(t->Object_0, "metadata"@) {
        Some(u) => u == Tree::Object(x.metadata),
        None => x.metadata.len() == 0,
    }
    &&& number(t->Object_0, "schemaVersion"@, x.schema_version as int)
    &&& lookup(t->Object_0, "steps"@) is Some
            && steps_say(lookup(t->Object_0, "steps"@)->0, x.steps)
    &&& text(t->Object_0, "title"@, x.title)
    &&& match lookup(t->Object_0, "variables"@) {
        Some(u) => variables_say(u, x.variables),
        None => x.variables.len() == 0,
    }
    &&& maybe_text(t->Object_0, "version"@, x.version)
}

proof fn definition_entries(entries: Entries)
    ensures
        keys_in(entries, crate::codec::document::definition_keys()) <==> only(entries, set![
            "description"@,
            "id"@,
            "metadata"@,
            "schemaVersion"@,
            "steps"@,
            "title"@,
            "variables"@,
            "version"@,
        ]),
{
    let names = crate::codec::document::definition_keys();
    let keys = set![
        "description"@,
        "id"@,
        "metadata"@,
        "schemaVersion"@,
        "steps"@,
        "title"@,
        "variables"@,
        "version"@,
    ];
    assert(names[0]@ == "description"@);
    assert(names[1]@ == "id"@);
    assert(names[2]@ == "metadata"@);
    assert(names[3]@ == "schemaVersion"@);
    assert(names[4]@ == "steps"@);
    assert(names[5]@ == "title"@);
    assert(names[6]@ == "variables"@);
    assert(names[7]@ == "version"@);
    assert forall|k: Seq<char>| #[trigger] named(names, k) <==> keys.contains(k) by {
        if named(names, k) {
            let i = choose|i: int| 0 <= i < names.len() && (#[trigger] names[i])@ == k;
            assert(keys.contains(names[i]@));
        }
    }
    keys_are(entries, names, keys);
}

/// A definition is read as what the entries of its document say, and as nothing else.
pub proof fn definition_is_read(t: Tree, x: AutomationDefinitionView)
    requires
        sorted_under(t, "metadata"@),
        sorted_under(t, "variables"@),
    ensures
        definition_of(t) == Some(x) <==> definition_says(t, x),
{
    if t is Object {
        let entries = t->Object_0;
        definition_entries(entries);
        if lookup(entries, "steps"@) is Some {
            steps_are_read(lookup(entries, "steps"@)->0, x.steps);
        }
        match lookup(entries, "metadata"@) {
            Some(Tree::Object(inner)) => {
                put_all_ascending(inner);
            },
            Some(_) => {},
            None => {
                if x.metadata.len() == 0 {
                    assert(x.metadata =~= Seq::empty());
                }
            },
        }
        if lookup(entries, "variables"@) is Some {
            variables_are_read(lookup(entries, "variables"@)->0, x.variables);
        } else if x.variables.len() == 0 {
            assert(x.variables =~= Seq::empty());
        }
    }
    reveal(definition_of);
}

/// The entries of a written target say what the target says.
pub proof fn written_targets_say_what_is_there(t: TargetView)
    ensures
        target_says(target_tree(t), t),
{
    target_round_trip(t);
    target_is_read(target_tree(t), t);
}

/// What is written says what is there: each written value is read from its entries.
pub proof fn written_entries_say_what_is_there(
    t: TargetView,
    c: WaitConditionView,
    a: AssertionView,
    s: StepView,
    d: AutomationDefinitionView,
)
    requires
        ascending(d.variables),
        ascending(d.metadata),
    ensures
        target_says(target_tree(t), t),
        condition_says(condition_tree(c), c),
        assertion_says(assertion_tree(a), a),
        step_says(step_tree(s), s),
        definition_says(definition_tree(d), d),
{
    target_round_trip(t);
    target_is_read(target_tree(t), t);
    condition_round_trip(c);
    condition_is_read(condition_tree(c), c);
    assertion_round_trip(a);
    assertion_is_read(assertion_tree(a), a);
    step_round_trip(s);
    step_is_read(step_tree(s), s);
    definition_round_trip(d);
    assert(sorted_under(definition_tree(d), "metadata"@) && sorted_under(
        definition_tree(d),
        "variables"@,
    )) by {
        definition_maps_are_found(d);
        let variables = crate::codec::variable::variables_tree(d.variables)->Object_0;
        assert forall|i: int| 0 <= i < variables.len() implies (#[trigger] variables[i]).0
            == d.variables[i].0 by {}
    }
    definition_is_read(definition_tree(d), d);
}

/// What is read from the text of a definition is what its entries say, and what is written of a
/// definition are entries that say what is there.
pub proof fn parsed_definitions_say_what_is_written(
    input: &str,
    read: Result<AutomationDefinition, DefinitionParseError>,
    definition: &AutomationDefinition,
    written: Json,
)
    requires
        call_ensures(parse_definition_json, (input,), read),
        call_ensures(encode_definition, (definition,), written),
    ensures
        read is Ok ==> json_of_text(input@) is Ok && ({
            let t = json_of_text(input@)->Ok_0;
            sorted_under(t, "metadata"@) && sorted_under(t, "variables"@) ==> definition_says(
                t,
                read->Ok_0@,
            )
        }),
        ascending(definition@.variables) && ascending(definition@.metadata) ==> definition_says(
            written@,
            definition@,
        ),
{
    if read is Ok {
        let t = json_of_text(input@)->Ok_0;
        if sorted_under(t, "metadata"@) && sorted_under(t, "variables"@) {
            definition_is_read(t, read->Ok_0@);
        }
    }
    let d = definition@;
    if ascending(d.variables) && ascending(d.metadata) {
        let s = if d.steps.len() > 0 {
            d.steps[0]
        } else {
            arbitrary()
        };
        written_entries_say_what_is_there(
            arbitrary(),
            arbitrary(),
            arbitrary(),
            s,
            d,
        );
    }
}

/// A single step is read and written by its entries.
pub proof fn single_steps_say_what_is_written(
    value: &Json,
    read: Option<Step>,
    step: &Step,
    written: Json,
)
    requires
        call_ensures(decode_step, (value,), read),
        call_ensures(encode_step, (step,), written),
    ensures
        read is Some ==> step_says(value@, read->0@),
        read is None ==> forall|x: StepView| !#[trigger] step_says(value@, x),
        step_says(written@, step@),
{
    if read is Some {
        step_is_read(value@, read->0@);
    } else {
        assert forall|x: StepView| !#[trigger] step_says(value@, x) by {
            step_is_read(value@, x);
        }
    }
    step_round_trip(step@);
    step_is_read(written@, step@);
}

} // verus!
