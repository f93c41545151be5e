//! Targets and what they are made of, in documents.
use vstd::prelude::*;
use crate::codec::readers::{
    encode_opt_u32s, encode_opt_u8, opt_text_at, opt_u32s_at, opt_u32s_tree, opt_u8_at, opt_u8_tree,
    read_opt_text_at, read_opt_u32s_at, read_opt_u8_at, read_req_i32_at, read_req_text_at,
    read_req_u32_at, read_req_u64_at, req_i32_at, req_text_at, req_u32_at, req_u64_at,
};
use crate::collections::lookup;
use crate::definition::{
    AccessibilityTarget, AccessibilityTargetView, Coordinates, DurationSpec, ImageRegion,
    ImageTarget, ImageTargetView, PlatformSelector, PlatformSelectorView, PlatformSelectors,
    PlatformSelectorsView, Target, TargetView,
};
use crate::fields::{
    add_field, defaulted, encode_i32, encode_opt_text, encode_text, encode_u64, group_fields,
    keys_among, keys_in, no_fields, opt_text_tree, optional, required, signed, u32s_round_trip,
    unsigned, with,
};
use crate::platform::empty_selectors;
use crate::value::{entry_trees, find_entry, object_tree, Json, Tree};
use crate::views::opt_view;

verus! {

pub open spec fn region_keys() -> Seq<&'static str> {
    seq!["height", "left", "top", "width"]
}

pub open spec fn region_tree(v: ImageRegion) -> Tree {
    let entries: Seq<(Seq<char>, Tree)> = Seq::empty();
    let entries = with(entries, "height"@, Some(unsigned(v.height as u64)));
    let entries = with(entries, "left"@, Some(signed(v.left)));
    let entries = with(entries, "top"@, Some(signed(v.top)));
    let entries = with(entries, "width"@, Some(unsigned(v.width as u64)));
    Tree::Object(entries)
}

pub open spec fn region_of(tree: Tree) -> Option<ImageRegion> {
    match tree {
        Tree::Object(entries) => {
            let height = req_u32_at(entries, "height"@);
            let left = req_i32_at(entries, "left"@);
            let top = req_i32_at(entries, "top"@);
            let width = req_u32_at(entries, "width"@);
            if keys_in(entries, region_keys()) && height is Some && left is Some && top is Some
                && width is Some {
                Some(ImageRegion { height: height->0, left: left->0, top: top->0, width: width->0 })
            } else {
                None
            }
        },
        _ => None,
    }
}

/// Each field is found under its key.
proof fn region_entries(v0: Option<Tree>, v1: Option<Tree>, v2: Option<Tree>, v3: Option<Tree>)
    ensures
        ({
            let entries: Seq<(Seq<char>, Tree)> = Seq::empty();
            let entries = with(entries, "height"@, v0);
            let entries = with(entries, "left"@, v1);
            let entries = with(entries, "top"@, v2);
            let entries = with(entries, "width"@, v3);
            &&& keys_in(entries, region_keys())
            &&& lookup(entries, "height"@) == v0
            &&& lookup(entries, "left"@) == v1
            &&& lookup(entries, "top"@) == v2
            &&& lookup(entries, "width"@) == v3
        }),
{
    broadcast use group_fields;

    reveal_strlit("height");
    reveal_strlit("left");
    reveal_strlit("top");
    reveal_strlit("width");
    assert("height"@.len() == 6);
    assert("left"@.len() == 4);
    assert("top"@.len() == 3);
    assert("width"@.len() == 5);
    assert(region_keys()[0]@ == "height"@);
    assert(region_keys()[1]@ == "left"@);
    assert(region_keys()[2]@ == "top"@);
    assert(region_keys()[3]@ == "width"@);
}

proof fn region_round_trip(v: ImageRegion)
    ensures
        region_of(region_tree(v)) == Some(v),
{
    let entries = region_tree(v)->Object_0;
    region_entries(
        Some(unsigned(v.height as u64)),
        Some(signed(v.left)),
        Some(signed(v.top)),
        Some(unsigned(v.width as u64)),
    );
    assert(req_u32_at(entries, "height"@) == Some(v.height));
    assert(req_i32_at(entries, "left"@) == Some(v.left));
    assert(req_i32_at(entries, "top"@) == Some(v.top));
    assert(req_u32_at(entries, "width"@) == Some(v.width));
}

pub fn encode_region(v: ImageRegion) -> (r: Json)
    ensures
        r@ == region_tree(v),
{
    broadcast use object_tree;

    let mut entries = no_fields();
    add_field(&mut entries, "height", Some(encode_u64(v.height as u64)));
    add_field(&mut entries, "left", Some(encode_i32(v.left)));
    add_field(&mut entries, "top", Some(encode_i32(v.top)));
    add_field(&mut entries, "width", Some(encode_u64(v.width as u64)));
    Json::Object(entries)
}

pub fn decode_region(value: &Json) -> (r: Option<ImageRegion>)
    ensures
        r == region_of(value@),
{
    broadcast use object_tree;

    let entries = match value {
        Json::Object(entries) => entries,
        _ => {
            return None;
        },
    };
    let keys = ["height", "left", "top", "width"];
    assert(keys@ =~= region_keys());
    if !keys_among(entries, &keys) {
        return None;
    }
    let height = read_req_u32_at(entries, "height")?;
    let left = read_req_i32_at(entries, "left")?;
    let top = read_req_i32_at(entries, "top")?;
    let width = read_req_u32_at(entries, "width")?;
    Some(ImageRegion { height, left, top, width })
}

pub open spec fn opt_region_tree(v: Option<ImageRegion>) -> Option<Tree> {
    match v {
        Some(x) => Some(region_tree(x)),
        None => None,
    }
}

fn encode_opt_region(v: Option<ImageRegion>) -> (r: Option<Json>)
    ensures
        opt_view(r) == opt_region_tree(v),
{
    match v {
        Some(x) => Some(encode_region(x)),
        None => None,
    }
}

pub open spec fn coordinates_keys() -> Seq<&'static str> {
    seq!["x", "y"]
}

pub open spec fn coordinates_tree(v: Coordinates) -> Tree {
    Tree::Object(with(with(Seq::empty(), "x"@, Some(signed(v.x))), "y"@, Some(signed(v.y))))
}

pub open spec fn coordinates_of(tree: Tree) -> Option<Coordinates> {
    match tree {
        Tree::Object(entries) => {
            let x = req_i32_at(entries, "x"@);
            let y = req_i32_at(entries, "y"@);
            if keys_in(entries, coordinates_keys()) && x is Some && y is Some {
                Some(Coordinates { x: x->0, y: y->0 })
            } else {
                None
            }
        },
        _ => None,
    }
}

/// Each field is found under its key.
proof fn coordinates_entries(v0: Option<Tree>, v1: Option<Tree>)
    ensures
        ({
            let entries = with(with(Seq::empty(), "x"@, v0), "y"@, v1);
            &&& keys_in(entries, coordinates_keys())
            &&& lookup(entries, "x"@) == v0
            &&& lookup(entries, "y"@) == v1
        }),
{
    broadcast use group_fields;

    reveal_strlit("x");
    reveal_strlit("y");
    assert("x"@.len() == 1);
    assert("y"@.len() == 1);
    assert("x"@[0] != "y"@[0]);
    assert(coordinates_keys()[0]@ == "x"@);
    assert(coordinates_keys()[1]@ == "y"@);
}

proof fn coordinates_round_trip(v: Coordinates)
    ensures
        coordinates_of(coordinates_tree(v)) == Some(v),
{
    let entries = coordinates_tree(v)->Object_0;
    coordinates_entries(Some(signed(v.x)), Some(signed(v.y)));
    assert(req_i32_at(entries, "x"@) == Some(v.x));
    assert(req_i32_at(entries, "y"@) == Some(v.y));
}

pub fn encode_coordinates(v: Coordinates) -> (r: Json)
    ensures
        r@ == coordinates_tree(v),
{
    broadcast use object_tree;

    let mut entries = no_fields();
    add_field(&mut entries, "x", Some(encode_i32(v.x)));
    add_field(&mut entries, "y", Some(encode_i32(v.y)));
    Json::Object(entries)
}

pub fn decode_coordinates(value: &Json) -> (r: Option<Coordinates>)
    ensures
        r == coordinates_of(value@),
{
    broadcast use object_tree;

    let entries = match value {
        Json::Object(entries) => entries,
        _ => {
            return None;
        },
    };
    let keys = ["x", "y"];
    assert(keys@ =~= coordinates_keys());
    if !keys_among(entries, &keys) {
        return None;
    }
    let x = read_req_i32_at(entries, "x")?;
    let y = read_req_i32_at(entries, "y")?;
    Some(Coordinates { x, y })
}

pub open spec fn opt_coordinates_tree(v: Option<Coordinates>) -> Option<Tree> {
    match v {
        Some(x) => Some(coordinates_tree(x)),
        None => None,
    }
}

fn encode_opt_coordinates(v: Option<Coordinates>) -> (r: Option<Json>)
    ensures
        opt_view(r) == opt_coordinates_tree(v),
{
    match v {
        Some(x) => Some(encode_coordinates(x)),
        None => None,
    }
}

pub open spec fn duration_keys() -> Seq<&'static str> {
    seq!["millis"]
}

pub open spec fn duration_tree(v: DurationSpec) -> Tree {
    Tree::Object(with(Seq::empty(), "millis"@, Some(unsigned(v.millis))))
}

pub open spec fn duration_of(tree: Tree) -> Option<DurationSpec> {
    match tree {
        Tree::Object(entries) => {
            let millis = req_u64_at(entries, "millis"@);
            if keys_in(entries, duration_keys()) && millis is Some {
                Some(DurationSpec { millis: millis->0 })
            } else {
                None
            }
        },
        _ => None,
    }
}

/// Each field is found under its key.
proof fn duration_entries(v0: Option<Tree>)
    ensures
        ({
            let entries = with(Seq::empty(), "millis"@, v0);
            &&& keys_in(entries, duration_keys())
            &&& lookup(entries, "millis"@) == v0
        }),
{
    broadcast use group_fields;

    reveal_strlit("millis");
    assert("millis"@.len() == 6);
    assert(duration_keys()[0]@ == "millis"@);
}

pub(crate) proof fn duration_round_trip(v: DurationSpec)
    ensures
        duration_of(duration_tree(v)) == Some(v),
{
    let entries = duration_tree(v)->Object_0;
    duration_entries(Some(unsigned(v.millis)));
    assert(req_u64_at(entries, "millis"@) == Some(v.millis));
}

pub fn encode_duration(v: DurationSpec) -> (r: Json)
    ensures
        r@ == duration_tree(v),
{
    broadcast use object_tree;

    let mut entries = no_fields();
    add_field(&mut entries, "millis", Some(encode_u64(v.millis)));
    Json::Object(entries)
}

pub fn decode_duration(value: &Json) -> (r: Option<DurationSpec>)
    ensures
        r == duration_of(value@),
{
    broadcast use object_tree;

    let entries = match value {
        Json::Object(entries) => entries,
        _ => {
            return None;
        },
    };
    let keys = ["millis"];
    assert(keys@ =~= duration_keys());
    if !keys_among(entries, &keys) {
        return None;
    }
    let millis = read_req_u64_at(entries, "millis")?;
    Some(DurationSpec { millis })
}

pub open spec fn opt_duration_tree(v: Option<DurationSpec>) -> Option<Tree> {
    match v {
        Some(x) => Some(duration_tree(x)),
        None => None,
    }
}

pub(crate) fn encode_opt_duration(v: Option<DurationSpec>) -> (r: Option<Json>)
    ensures
        opt_view(r) == opt_duration_tree(v),
{
    match v {
        Some(x) => Some(encode_duration(x)),
        None => None,
    }
}

pub open spec fn opt_duration_at(
    entries: Seq<(Seq<char>, Tree)>,
    key: Seq<char>,
) -> Option<Option<DurationSpec>> {
    optional(entries, key, |t: Tree| duration_of(t))
}

pub(crate) fn read_opt_duration_at(
    entries: &Vec<(String, Json)>,
    key: &str,
) -> (r: Option<Option<DurationSpec>>)
    ensures
        match r {
            Some(x) => opt_duration_at(entry_trees(entries@), key@) == Some(x),
            None => opt_duration_at(entry_trees(entries@), key@) is None,
        },
{
    match find_entry(entries, key) {
        None => Some(None),
        Some(Json::Null) => Some(None),
        Some(value) => match decode_duration(value) {
            Some(x) => Some(Some(x)),
            None => None,
        },
    }
}

pub open spec fn accessibility_keys() -> Seq<&'static str> {
    seq!["controlType", "id", "name", "path"]
}

pub open spec fn accessibility_tree(v: AccessibilityTargetView) -> Tree {
    let entries: Seq<(Seq<char>, Tree)> = Seq::empty();
    let entries = with(entries, "controlType"@, opt_text_tree(v.control_type));
    let entries = with(entries, "id"@, opt_text_tree(v.id));
    let entries = with(entries, "name"@, opt_text_tree(v.name));
    let entries = with(entries, "path"@, opt_u32s_tree(v.path));
    Tree::Object(entries)
}

pub open spec fn accessibility_of(tree: Tree) -> Option<AccessibilityTargetView> {
    match tree {
        Tree::Object(entries) => {
            let control_type = opt_text_at(entries, "controlType"@);
            let id = opt_text_at(entries, "id"@);
            let name = opt_text_at(entries, "name"@);
            let path = opt_u32s_at(entries, "path"@);
            if keys_in(entries, accessibility_keys()) && control_type is Some && id is Some
                && name is Some && path is Some {
                Some(
                    AccessibilityTargetView {
                        control_type: control_type->0,
                        id: id->0,
                        name: name->0,
                        path: path->0,
                    },
                )
            } else {
                None
            }
        },
        _ => None,
    }
}

/// Each field is found under its key.
proof fn accessibility_entries(
    v0: Option<Tree>,
    v1: Option<Tree>,
    v2: Option<Tree>,
    v3: Option<Tree>,
)
    ensures
        ({
            let entries: Seq<(Seq<char>, Tree)> = Seq::empty();
            let entries = with(entries, "controlType"@, v0);
            let entries = with(entries, "id"@, v1);
            let entries = with(entries, "name"@, v2);
            let entries = with(entries, "path"@, v3);
            &&& keys_in(entries, accessibility_keys())
            &&& lookup(entries, "controlType"@) == v0
            &&& lookup(entries, "id"@) == v1
            &&& lookup(entries, "name"@) == v2
            &&& lookup(entries, "path"@) == v3
        }),
{
    broadcast use group_fields;

    reveal_strlit("controlType");
    reveal_strlit("id");
    reveal_strlit("name");
    reveal_strlit("path");
    assert("controlType"@.len() == 11);
    assert("id"@.len() == 2);
    assert("name"@.len() == 4);
    assert("path"@.len() == 4);
    assert("name"@[0] != "path"@[0]);
    assert(accessibility_keys()[0]@ == "controlType"@);
    assert(accessibility_keys()[1]@ == "id"@);
    assert(accessibility_keys()[2]@ == "name"@);
    assert(accessibility_keys()[3]@ == "path"@);
}

proof fn accessibility_round_trip(v: AccessibilityTargetView)
    ensures
        accessibility_of(accessibility_tree(v)) == Some(v),
{
    let entries = accessibility_tree(v)->Object_0;
    accessibility_entries(
        opt_text_tree(v.control_type),
        opt_text_tree(v.id),
        opt_text_tree(v.name),
        opt_u32s_tree(v.path),
    );
    assert(opt_text_at(entries, "controlType"@) == Some(v.control_type));
    assert(opt_text_at(entries, "id"@) == Some(v.id));
    assert(opt_text_at(entries, "name"@) == Some(v.name));
    if v.path is Some {
        u32s_round_trip(v.path->0);
    }
    assert(opt_u32s_at(entries, "path"@) == Some(v.path));
}

pub fn encode_accessibility(v: &AccessibilityTarget) -> (r: Json)
    ensures
        r@ == accessibility_tree(v@),
{
    broadcast use object_tree;

    let mut entries = no_fields();
    add_field(&mut entries, "controlType", encode_opt_text(&v.control_type));
    add_field(&mut entries, "id", encode_opt_text(&v.id));
    add_field(&mut entries, "name", encode_opt_text(&v.name));
    add_field(&mut entries, "path", encode_opt_u32s(&v.path));
    Json::Object(entries)
}

pub fn decode_accessibility(value: &Json) -> (r: Option<AccessibilityTarget>)
    ensures
        opt_view(r) == accessibility_of(value@),
{
    broadcast use object_tree;

    let entries = match value {
        Json::Object(entries) => entries,
        _ => {
            return None;
        },
    };
    let keys = ["controlType", "id", "name", "path"];
    assert(keys@ =~= accessibility_keys());
    if !keys_among(entries, &keys) {
        return None;
    }
    let control_type = read_opt_text_at(entries, "controlType")?;
    let id = read_opt_text_at(entries, "id")?;
    let name = read_opt_text_at(entries, "name")?;
    let path = read_opt_u32s_at(entries, "path")?;
    Some(AccessibilityTarget { control_type, id, name, path })
}

pub open spec fn opt_accessibility_tree(v: Option<AccessibilityTargetView>) -> Option<Tree> {
    match v {
        Some(x) => Some(accessibility_tree(x)),
        None => None,
    }
}

fn encode_opt_accessibility(v: &Option<AccessibilityTarget>) -> (r: Option<Json>)
    ensures
        opt_view(r) == opt_accessibility_tree(opt_view(*v)),
{
    match v {
        Some(x) => Some(encode_accessibility(x)),
        None => None,
    }
}

pub open spec fn opt_region_at(
    entries: Seq<(Seq<char>, Tree)>,
    key: Seq<char>,
) -> Option<Option<ImageRegion>> {
    optional(entries, key, |t: Tree| region_of(t))
}

fn read_opt_region_at(entries: &Vec<(String, Json)>, key: &str) -> (r: Option<Option<ImageRegion>>)
    ensures
        match r {
            Some(x) => opt_region_at(entry_trees(entries@), key@) == Some(x),
            None => opt_region_at(entry_trees(entries@), key@) is None,
        },
{
    match find_entry(entries, key) {
        None => Some(None),
        Some(Json::Null) => Some(None),
        Some(value) => match decode_region(value) {
            Some(x) => Some(Some(x)),
            None => None,
        },
    }
}

pub open spec fn image_keys() -> Seq<&'static str> {
    seq!["confidence", "path", "region"]
}

pub open spec fn image_tree(v: ImageTargetView) -> Tree {
    let entries: Seq<(Seq<char>, Tree)> = Seq::empty();
    let entries = with(entries, "confidence"@, opt_u8_tree(v.confidence));
    let entries = with(entries, "path"@, Some(Tree::Text(v.path)));
    let entries = with(entries, "region"@, opt_region_tree(v.region));
    Tree::Object(entries)
}

pub open spec fn image_of(tree: Tree) -> Option<ImageTargetView> {
    match tree {
        Tree::Object(entries) => {
            let confidence = opt_u8_at(entries, "confidence"@);
            let path = req_text_at(entries, "path"@);
            let region = opt_region_at(entries, "region"@);
            if keys_in(entries, image_keys()) && confidence is Some && path is Some
                && region is Some {
                Some(
                    ImageTargetView { confidence: confidence->0, path: path->0, region: region->0 },
                )
            } else {
                None
            }
        },
        _ => None,
    }
}

/// Each field is found under its key.
proof fn image_entries(v0: Option<Tree>, v1: Option<Tree>, v2: Option<Tree>)
    ensures
        ({
            let entries: Seq<(Seq<char>, Tree)> = Seq::empty();
            let entries = with(entries, "confidence"@, v0);
            let entries = with(entries, "path"@, v1);
            let entries = with(entries, "region"@, v2);
            &&& keys_in(entries, image_keys())
            &&& lookup(entries, "confidence"@) == v0
            &&& lookup(entries, "path"@) == v1
            &&& lookup(entries, "region"@) == v2
        }),
{
    broadcast use group_fields;

    reveal_strlit("confidence");
    reveal_strlit("path");
    reveal_strlit("region");
    assert("confidence"@.len() == 10);
    assert("path"@.len() == 4);
    assert("region"@.len() == 6);
    assert(image_keys()[0]@ == "confidence"@);
    assert(image_keys()[1]@ == "path"@);
    assert(image_keys()[2]@ == "region"@);
}

proof fn image_round_trip(v: ImageTargetView)
    ensures
        image_of(image_tree(v)) == Some(v),
{
    let entries = image_tree(v)->Object_0;
    image_entries(opt_u8_tree(v.confidence), Some(Tree::Text(v.path)), opt_region_tree(v.region));
    assert(opt_u8_at(entries, "confidence"@) == Some(v.confidence));
    assert(req_text_at(entries, "path"@) == Some(v.path));
    if v.region is Some {
        region_round_trip(v.region->0);
    }
    assert(opt_region_at(entries, "region"@) == Some(v.region));
}

pub fn encode_image(v: &ImageTarget) -> (r: Json)
    ensures
        r@ == image_tree(v@),
{
    broadcast use object_tree;

    let mut entries = no_fields();
    add_field(&mut entries, "confidence", encode_opt_u8(v.confidence));
    add_field(&mut entries, "path", Some(encode_text(v.path.as_str())));
    add_field(&mut entries, "region", encode_opt_region(v.region));
    Json::Object(entries)
}

pub fn decode_image(value: &Json) -> (r: Option<ImageTarget>)
    ensures
        opt_view(r) == image_of(value@),
{
    broadcast use object_tree;

    let entries = match value {
        Json::Object(entries) => entries,
        _ => {
            return None;
        },
    };
    let keys = ["confidence", "path", "region"];
    assert(keys@ =~= image_keys());
    if !keys_among(entries, &keys) {
        return None;
    }
    let confidence = read_opt_u8_at(entries, "confidence")?;
    let path = read_req_text_at(entries, "path")?;
    let region = read_opt_region_at(entries, "region")?;
    Some(ImageTarget { confidence, path, region })
}

pub open spec fn opt_image_tree(v: Option<ImageTargetView>) -> Option<Tree> {
    match v {
        Some(x) => Some(image_tree(x)),
        None => None,
    }
}

fn encode_opt_image(v: &Option<ImageTarget>) -> (r: Option<Json>)
    ensures
        opt_view(r) == opt_image_tree(opt_view(*v)),
{
    match v {
        Some(x) => Some(encode_image(x)),
        None => None,
    }
}

pub open spec fn selector_keys() -> Seq<&'static str> {
    seq!["accessibilityQuery", "commandHint", "processName", "windowTitle"]
}

pub open spec fn selector_tree(v: PlatformSelectorView) -> Tree {
    let entries: Seq<(Seq<char>, Tree)> = Seq::empty();
    let entries = with(entries, "accessibilityQuery"@, opt_text_tree(v.accessibility_query));
    let entries = with(entries, "commandHint"@, opt_text_tree(v.command_hint));
    let entries = with(entries, "processName"@, opt_text_tree(v.process_name));
    let entries = with(entries, "windowTitle"@, opt_text_tree(v.window_title));
    Tree::Object(entries)
}

pub open spec fn selector_of(tree: Tree) -> Option<PlatformSelectorView> {
    match tree {
        Tree::Object(entries) => {
            let accessibility_query = opt_text_at(entries, "accessibilityQuery"@);
            let command_hint = opt_text_at(entries, "commandHint"@);
            let process_name = opt_text_at(entries, "processName"@);
            let window_title = opt_text_at(entries, "windowTitle"@);
            if keys_in(entries, selector_keys()) && accessibility_query is Some
                && command_hint is Some && process_name is Some && window_title is Some {
                Some(
                    PlatformSelectorView {
                        accessibility_query: accessibility_query->0,
                        command_hint: command_hint->0,
                        process_name: process_name->0,
                        window_title: window_title->0,
                    },
                )
            } else {
                None
            }
        },
        _ => None,
    }
}

/// Each field is found under its key.
proof fn selector_entries(v0: Option<Tree>, v1: Option<Tree>, v2: Option<Tree>, v3: Option<Tree>)
    ensures
        ({
            let entries: Seq<(Seq<char>, Tree)> = Seq::empty();
            let entries = with(entries, "accessibilityQuery"@, v0);
            let entries = with(entries, "commandHint"@, v1);
            let entries = with(entries, "processName"@, v2);
            let entries = with(entries, "windowTitle"@, v3);
            &&& keys_in(entries, selector_keys())
            &&& lookup(entries, "accessibilityQuery"@) == v0
            &&& lookup(entries, "commandHint"@) == v1
            &&& lookup(entries, "processName"@) == v2
            &&& lookup(entries, "windowTitle"@) == v3
        }),
{
    broadcast use group_fields;

    reveal_strlit("accessibilityQuery");
    reveal_strlit("commandHint");
    reveal_strlit("processName");
    reveal_strlit("windowTitle");
    assert("accessibilityQuery"@.len() == 18);
    assert("commandHint"@.len() == 11);
    assert("processName"@.len() == 11);
    assert("windowTitle"@.len() == 11);
    assert("commandHint"@[0] != "processName"@[0]);
    assert("commandHint"@[0] != "windowTitle"@[0]);
    assert("processName"@[0] != "windowTitle"@[0]);
    assert(selector_keys()[0]@ == "accessibilityQuery"@);
    assert(selector_keys()[1]@ == "commandHint"@);
    assert(selector_keys()[2]@ == "processName"@);
    assert(selector_keys()[3]@ == "windowTitle"@);
}

proof fn selector_round_trip(v: PlatformSelectorView)
    ensures
        selector_of(selector_tree(v)) == Some(v),
{
    let entries = selector_tree(v)->Object_0;
    selector_entries(
        opt_text_tree(v.accessibility_query),
        opt_text_tree(v.command_hint),
        opt_text_tree(v.process_name),
        opt_text_tree(v.window_title),
    );
    assert(opt_text_at(entries, "accessibilityQuery"@) == Some(v.accessibility_query));
    assert(opt_text_at(entries, "commandHint"@) == Some(v.command_hint));
    assert(opt_text_at(entries, "processName"@) == Some(v.process_name));
    assert(opt_text_at(entries, "windowTitle"@) == Some(v.window_title));
}

pub fn encode_selector(v: &PlatformSelector) -> (r: Json)
    ensures
        r@ == selector_tree(v@),
{
    broadcast use object_tree;

    let mut entries = no_fields();
    add_field(&mut entries, "accessibilityQuery", encode_opt_text(&v.accessibility_query));
    add_field(&mut entries, "commandHint", encode_opt_text(&v.command_hint));
    add_field(&mut entries, "processName", encode_opt_text(&v.process_name));
    add_field(&mut entries, "windowTitle", encode_opt_text(&v.window_title));
    Json::Object(entries)
}

pub fn decode_selector(value: &Json) -> (r: Option<PlatformSelector>)
    ensures
        opt_view(r) == selector_of(value@),
{
    broadcast use object_tree;

    let entries = match value {
        Json::Object(entries) => entries,
        _ => {
            return None;
        },
    };
    let keys = ["accessibilityQuery", "commandHint", "processName", "windowTitle"];
    assert(keys@ =~= selector_keys());
    if !keys_among(entries, &keys) {
        return None;
    }
    let accessibility_query = read_opt_text_at(entries, "accessibilityQuery")?;
    let command_hint = read_opt_text_at(entries, "commandHint")?;
    let process_name = read_opt_text_at(entries, "processName")?;
    let window_title = read_opt_text_at(entries, "windowTitle")?;
    Some(PlatformSelector { accessibility_query, command_hint, process_name, window_title })
}

pub open spec fn opt_selector_tree(v: Option<PlatformSelectorView>) -> Option<Tree> {
    match v {
        Some(x) => Some(selector_tree(x)),
        None => None,
    }
}

fn encode_opt_selector(v: &Option<PlatformSelector>) -> (r: Option<Json>)
    ensures
        opt_view(r) == opt_selector_tree(opt_view(*v)),
{
    match v {
        Some(x) => Some(encode_selector(x)),
        None => None,
    }
}

/// How the selector of a platform is read: a missing one is none, and a null cannot be read.
pub open spec fn member_selector(entries: Seq<(Seq<char>, Tree)>, key: Seq<char>) -> Option<
    Option<PlatformSelectorView>,
> {
    match lookup(entries, key) {
        None => Some(None),
        Some(tree) => match selector_of(tree) {
            Some(x) => Some(Some(x)),
            None => None,
        },
    }
}

fn read_member_selector(entries: &Vec<(String, Json)>, key: &str) -> (r: Option<
    Option<PlatformSelector>,
>)
    ensures
        match r {
            Some(x) => member_selector(entry_trees(entries@), key@) == Some(opt_view(x)),
            None => member_selector(entry_trees(entries@), key@) is None,
        },
{
    match find_entry(entries, key) {
        None => Some(None),
        Some(value) => match decode_selector(value) {
            Some(x) => Some(Some(x)),
            None => None,
        },
    }
}

pub open spec fn selectors_keys() -> Seq<&'static str> {
    seq!["linux", "mac-os", "windows"]
}

pub open spec fn selectors_tree(v: PlatformSelectorsView) -> Tree {
    Tree::Object(
        with(
            with(
                with(Seq::empty(), "linux"@, opt_selector_tree(v.linux)),
                "mac-os"@,
                opt_selector_tree(v.mac_os),
            ),
            "windows"@,
            opt_selector_tree(v.windows),
        ),
    )
}

pub open spec fn selectors_of(tree: Tree) -> Option<PlatformSelectorsView> {
    match tree {
        Tree::Object(entries) => {
            let linux = member_selector(entries, "linux"@);
            let mac_os = member_selector(entries, "mac-os"@);
            let windows = member_selector(entries, "windows"@);
            if keys_in(entries, selectors_keys()) && linux is Some && mac_os is Some
                && windows is Some {
                Some(
                    PlatformSelectorsView {
                        windows: windows->0,
                        mac_os: mac_os->0,
                        linux: linux->0,
                    },
                )
            } else {
                None
            }
        },
        _ => None,
    }
}

proof fn selectors_round_trip(v: PlatformSelectorsView)
    ensures
        selectors_of(selectors_tree(v)) == Some(v),
{
    broadcast use group_fields;

    reveal_strlit("linux");
    reveal_strlit("mac-os");
    reveal_strlit("windows");
    assert("linux"@.len() == 5);
    assert("mac-os"@.len() == 6);
    assert("windows"@.len() == 7);
    assert(selectors_keys()[0]@ == "linux"@);
    assert(selectors_keys()[1]@ == "mac-os"@);
    assert(selectors_keys()[2]@ == "windows"@);
    if v.linux is Some {
        selector_round_trip(v.linux->0);
    }
    if v.mac_os is Some {
        selector_round_trip(v.mac_os->0);
    }
    if v.windows is Some {
        selector_round_trip(v.windows->0);
    }
}

pub open spec fn selectors_field(v: PlatformSelectorsView) -> Option<Tree> {
    if v.windows is None && v.mac_os is None && v.linux is None {
        None
    } else {
        Some(selectors_tree(v))
    }
}

fn encode_selectors_field(v: &PlatformSelectors) -> (r: Option<Json>)
    ensures
        opt_view(r) == selectors_field(v@),
{
    broadcast use object_tree;

    if v.is_empty() {
        return None;
    }
    let mut entries = no_fields();
    add_field(&mut entries, "linux", encode_opt_selector(&v.linux));
    add_field(&mut entries, "mac-os", encode_opt_selector(&v.mac_os));
    add_field(&mut entries, "windows", encode_opt_selector(&v.windows));
    Some(Json::Object(entries))
}

fn decode_selectors(value: &Json) -> (r: Option<PlatformSelectors>)
    ensures
        opt_view(r) == selectors_of(value@),
{
    broadcast use object_tree;

    let entries = match value {
        Json::Object(entries) => entries,
        _ => {
            return None;
        },
    };
    let keys = ["linux", "mac-os", "windows"];
    assert(keys@ =~= selectors_keys());
    if !keys_among(entries, &keys) {
        return None;
    }
    let linux = read_member_selector(entries, "linux")?;
    let mac_os = read_member_selector(entries, "mac-os")?;
    let windows = read_member_selector(entries, "windows")?;
    Some(PlatformSelectors { windows, mac_os, linux })
}

pub open spec fn opt_accessibility_at(
    entries: Seq<(Seq<char>, Tree)>,
    key: Seq<char>,
) -> Option<Option<AccessibilityTargetView>> {
    optional(entries, key, |t: Tree| accessibility_of(t))
}

fn read_opt_accessibility_at(
    entries: &Vec<(String, Json)>,
    key: &str,
) -> (r: Option<Option<AccessibilityTarget>>)
    ensures
        match r {
            Some(x) => opt_accessibility_at(entry_trees(entries@), key@) == Some(opt_view(x)),
            None => opt_accessibility_at(entry_trees(entries@), key@) is None,
        },
{
    match find_entry(entries, key) {
        None => Some(None),
        Some(Json::Null) => Some(None),
        Some(value) => match decode_accessibility(value) {
            Some(x) => Some(Some(x)),
            None => None,
        },
    }
}

pub open spec fn opt_coordinates_at(
    entries: Seq<(Seq<char>, Tree)>,
    key: Seq<char>,
) -> Option<Option<Coordinates>> {
    optional(entries, key, |t: Tree| coordinates_of(t))
}

fn read_opt_coordinates_at(
    entries: &Vec<(String, Json)>,
    key: &str,
) -> (r: Option<Option<Coordinates>>)
    ensures
        match r {
            Some(x) => opt_coordinates_at(entry_trees(entries@), key@) == Some(x),
            None => opt_coordinates_at(entry_trees(entries@), key@) is None,
        },
{
    match find_entry(entries, key) {
        None => Some(None),
        Some(Json::Null) => Some(None),
        Some(value) => match decode_coordinates(value) {
            Some(x) => Some(Some(x)),
            None => None,
        },
    }
}

pub open spec fn opt_image_at(
    entries: Seq<(Seq<char>, Tree)>,
    key: Seq<char>,
) -> Option<Option<ImageTargetView>> {
    optional(entries, key, |t: Tree| image_of(t))
}

fn read_opt_image_at(entries: &Vec<(String, Json)>, key: &str) -> (r: Option<Option<ImageTarget>>)
    ensures
        match r {
            Some(x) => opt_image_at(entry_trees(entries@), key@) == Some(opt_view(x)),
            None => opt_image_at(entry_trees(entries@), key@) is None,
        },
{
    match find_entry(entries, key) {
        None => Some(None),
        Some(Json::Null) => Some(None),
        Some(value) => match decode_image(value) {
            Some(x) => Some(Some(x)),
            None => None,
        },
    }
}

pub open spec fn def_selectors_at(
    entries: Seq<(Seq<char>, Tree)>,
    key: Seq<char>,
) -> Option<PlatformSelectorsView> {
    defaulted(entries, key, |t: Tree| selectors_of(t), empty_selectors())
}

fn read_def_selectors_at(entries: &Vec<(String, Json)>, key: &str) -> (r: Option<PlatformSelectors>)
    ensures
        match r {
            Some(x) => def_selectors_at(entry_trees(entries@), key@) == Some(x@),
            None => def_selectors_at(entry_trees(entries@), key@) is None,
        },
{
    match find_entry(entries, key) {
        None => {
            Some(PlatformSelectors::new())
        },
        Some(value) => decode_selectors(value),
    }
}

pub open spec fn target_keys() -> Seq<&'static str> {
    seq![
        "accessibility",
        "appName",
        "coordinates",
        "filePath",
        "image",
        "platformSelectors",
        "processName",
        "titleContains",
        "url",
        "windowTitle",
    ]
}

#[verifier::opaque]
pub open spec fn target_tree(v: TargetView) -> Tree {
    let entries: Seq<(Seq<char>, Tree)> = Seq::empty();
    let entries = with(entries, "accessibility"@, opt_accessibility_tree(v.accessibility));
    let entries = with(entries, "appName"@, opt_text_tree(v.app_name));
    let entries = with(entries, "coordinates"@, opt_coordinates_tree(v.coordinates));
    let entries = with(entries, "filePath"@, opt_text_tree(v.file_path));
    let entries = with(entries, "image"@, opt_image_tree(v.image));
    let entries = with(entries, "platformSelectors"@, selectors_field(v.platform_selectors));
    let entries = with(entries, "processName"@, opt_text_tree(v.process_name));
    let entries = with(entries, "titleContains"@, opt_text_tree(v.title_contains));
    let entries = with(entries, "url"@, opt_text_tree(v.url));
    let entries = with(entries, "windowTitle"@, opt_text_tree(v.window_title));
    Tree::Object(entries)
}

#[verifier::opaque]
pub open spec fn target_of(tree: Tree) -> Option<TargetView> {
    match tree {
        Tree::Object(entries) => {
            let accessibility = opt_accessibility_at(entries, "accessibility"@);
            let app_name = opt_text_at(entries, "appName"@);
            let coordinates = opt_coordinates_at(entries, "coordinates"@);
            let file_path = opt_text_at(entries, "filePath"@);
            let image = opt_image_at(entries, "image"@);
            let platform_selectors = def_selectors_at(entries, "platformSelectors"@);
            let process_name = opt_text_at(entries, "processName"@);
            let title_contains = opt_text_at(entries, "titleContains"@);
            let url = opt_text_at(entries, "url"@);
            let window_title = opt_text_at(entries, "windowTitle"@);
            if keys_in(entries, target_keys()) && accessibility is Some && app_name is Some
                && coordinates is Some && file_path is Some && image is Some
                && platform_selectors is Some && process_name is Some && title_contains is Some
                && url is Some && window_title is Some {
                Some(
                    TargetView {
                        accessibility: accessibility->0,
                        app_name: app_name->0,
                        coordinates: coordinates->0,
                        file_path: file_path->0,
                        image: image->0,
                        platform_selectors: platform_selectors->0,
                        process_name: process_name->0,
                        title_contains: title_contains->0,
                        url: url->0,
                        window_title: window_title->0,
                    },
                )
            } else {
                None
            }
        },
        _ => None,
    }
}

/// Each field is found under its key.
proof fn target_entries(
    v0: Option<Tree>,
    v1: Option<Tree>,
    v2: Option<Tree>,
    v3: Option<Tree>,
    v4: Option<Tree>,
    v5: Option<Tree>,
    v6: Option<Tree>,
    v7: Option<Tree>,
    v8: Option<Tree>,
    v9: Option<Tree>,
)
    ensures
        ({
            let entries: Seq<(Seq<char>, Tree)> = Seq::empty();
            let entries = with(entries, "accessibility"@, v0);
            let entries = with(entries, "appName"@, v1);
            let entries = with(entries, "coordinates"@, v2);
            let entries = with(entries, "filePath"@, v3);
            let entries = with(entries, "image"@, v4);
            let entries = with(entries, "platformSelectors"@, v5);
            let entries = with(entries, "processName"@, v6);
            let entries = with(entries, "titleContains"@, v7);
            let entries = with(entries, "url"@, v8);
            let entries = with(entries, "windowTitle"@, v9);
            &&& keys_in(entries, target_keys())
            &&& lookup(entries, "accessibility"@) == v0
            &&& lookup(entries, "appName"@) == v1
            &&& lookup(entries, "coordinates"@) == v2
            &&& lookup(entries, "filePath"@) == v3
            &&& lookup(entries, "image"@) == v4
            &&& lookup(entries, "platformSelectors"@) == v5
            &&& lookup(entries, "processName"@) == v6
            &&& lookup(entries, "titleContains"@) == v7
            &&& lookup(entries, "url"@) == v8
            &&& lookup(entries, "windowTitle"@) == v9
        }),
{
    broadcast use group_fields;

    reveal_strlit("accessibility");
    reveal_strlit("appName");
    reveal_strlit("coordinates");
    reveal_strlit("filePath");
    reveal_strlit("image");
    reveal_strlit("platformSelectors");
    reveal_strlit("processName");
    reveal_strlit("titleContains");
    reveal_strlit("url");
    reveal_strlit("windowTitle");
    assert("accessibility"@.len() == 13);
    assert("appName"@.len() == 7);
    assert("coordinates"@.len() == 11);
    assert("filePath"@.len() == 8);
    assert("image"@.len() == 5);
    assert("platformSelectors"@.len() == 17);
    assert("processName"@.len() == 11);
    assert("titleContains"@.len() == 13);
    assert("url"@.len() == 3);
    assert("windowTitle"@.len() == 11);
    assert("accessibility"@[0] != "titleContains"@[0]);
    assert("coordinates"@[0] != "processName"@[0]);
    assert("coordinates"@[0] != "windowTitle"@[0]);
    assert("processName"@[0] != "windowTitle"@[0]);
    assert(target_keys()[0]@ == "accessibility"@);
    assert(target_keys()[1]@ == "appName"@);
    assert(target_keys()[2]@ == "coordinates"@);
    assert(target_keys()[3]@ == "filePath"@);
    assert(target_keys()[4]@ == "image"@);
    assert(target_keys()[5]@ == "platformSelectors"@);
    assert(target_keys()[6]@ == "processName"@);
    assert(target_keys()[7]@ == "titleContains"@);
    assert(target_keys()[8]@ == "url"@);
    assert(target_keys()[9]@ == "windowTitle"@);
}

pub(crate) proof fn target_round_trip(v: TargetView)
    ensures
        target_of(target_tree(v)) == Some(v),
{
    reveal(target_tree);
    reveal(target_of);
    let entries = target_tree(v)->Object_0;
    target_entries(
        opt_accessibility_tree(v.accessibility),
        opt_text_tree(v.app_name),
        opt_coordinates_tree(v.coordinates),
        opt_text_tree(v.file_path),
        opt_image_tree(v.image),
        selectors_field(v.platform_selectors),
        opt_text_tree(v.process_name),
        opt_text_tree(v.title_contains),
        opt_text_tree(v.url),
        opt_text_tree(v.window_title),
    );
    if v.accessibility is Some {
        accessibility_round_trip(v.accessibility->0);
    }
    assert(opt_accessibility_at(entries, "accessibility"@) == Some(v.accessibility));
    assert(opt_text_at(entries, "appName"@) == Some(v.app_name));
    if v.coordinates is Some {
        coordinates_round_trip(v.coordinates->0);
    }
    assert(opt_coordinates_at(entries, "coordinates"@) == Some(v.coordinates));
    assert(opt_text_at(entries, "filePath"@) == Some(v.file_path));
    if v.image is Some {
        image_round_trip(v.image->0);
    }
    assert(opt_image_at(entries, "image"@) == Some(v.image));
    selectors_round_trip(v.platform_selectors);
    assert(def_selectors_at(entries, "platformSelectors"@) == Some(v.platform_selectors));
    assert(opt_text_at(entries, "processName"@) == Some(v.process_name));
    assert(opt_text_at(entries, "titleContains"@) == Some(v.title_contains));
    assert(opt_text_at(entries, "url"@) == Some(v.url));
    assert(opt_text_at(entries, "windowTitle"@) == Some(v.window_title));
}

pub fn encode_target(v: &Target) -> (r: Json)
    ensures
        r@ == target_tree(v@),
{
    broadcast use object_tree;

    proof {
        reveal(target_tree);
    }
    let mut entries = no_fields();
    add_field(&mut entries, "accessibility", encode_opt_accessibility(&v.accessibility));
    add_field(&mut entries, "appName", encode_opt_text(&v.app_name));
    add_field(&mut entries, "coordinates", encode_opt_coordinates(v.coordinates));
    add_field(&mut entries, "filePath", encode_opt_text(&v.file_path));
    add_field(&mut entries, "image", encode_opt_image(&v.image));
    add_field(&mut entries, "platformSelectors", encode_selectors_field(&v.platform_selectors));
    add_field(&mut entries, "processName", encode_opt_text(&v.process_name));
    add_field(&mut entries, "titleContains", encode_opt_text(&v.title_contains));
    add_field(&mut entries, "url", encode_opt_text(&v.url));
    add_field(&mut entries, "windowTitle", encode_opt_text(&v.window_title));
    Json::Object(entries)
}

pub fn decode_target(value: &Json) -> (r: Option<Target>)
    ensures
        opt_view(r) == target_of(value@),
{
    broadcast use object_tree;

    proof {
        reveal(target_of);
    }
    let entries = match value {
        Json::Object(entries) => entries,
        _ => {
            return None;
        },
    };
    let keys = [
        "accessibility",
        "appName",
        "coordinates",
        "filePath",
        "image",
        "platformSelectors",
        "processName",
        "titleContains",
        "url",
        "windowTitle",
    ];
    assert(keys@ =~= target_keys());
    if !keys_among(entries, &keys) {
        return None;
    }
    let accessibility = read_opt_accessibility_at(entries, "accessibility")?;
    let app_name = read_opt_text_at(entries, "appName")?;
    let coordinates = read_opt_coordinates_at(entries, "coordinates")?;
    let file_path = read_opt_text_at(entries, "filePath")?;
    let image = read_opt_image_at(entries, "image")?;
    let platform_selectors = read_def_selectors_at(entries, "platformSelectors")?;
    let process_name = read_opt_text_at(entries, "processName")?;
    let title_contains = read_opt_text_at(entries, "titleContains")?;
    let url = read_opt_text_at(entries, "url")?;
    let window_title = read_opt_text_at(entries, "windowTitle")?;
    Some(
        Target {
            accessibility,
            app_name,
            coordinates,
            file_path,
            image,
            platform_selectors,
            process_name,
            title_contains,
            url,
            window_title,
        },
    )
}

/// A target is written as an object.
pub(crate) proof fn target_is_object(t: TargetView)
    ensures
        target_tree(t) is Object,
{
    reveal(target_tree);
}

pub open spec fn opt_target_tree(v: Option<TargetView>) -> Option<Tree> {
    match v {
        Some(x) => Some(target_tree(x)),
        None => None,
    }
}

pub(crate) fn encode_opt_target(v: &Option<Target>) -> (r: Option<Json>)
    ensures
        opt_view(r) == opt_target_tree(opt_view(*v)),
{
    match v {
        Some(x) => Some(encode_target(x)),
        None => None,
    }
}

pub open spec fn req_duration_at(
    entries: Seq<(Seq<char>, Tree)>,
    key: Seq<char>,
) -> Option<DurationSpec> {
    required(entries, key, |t: Tree| duration_of(t))
}

pub(crate) fn read_req_duration_at(
    entries: &Vec<(String, Json)>,
    key: &str,
) -> (r: Option<DurationSpec>)
    ensures
        match r {
            Some(x) => req_duration_at(entry_trees(entries@), key@) == Some(x),
            None => req_duration_at(entry_trees(entries@), key@) is None,
        },
{
    match find_entry(entries, key) {
        None => None,
        Some(value) => decode_duration(value),
    }
}

pub open spec fn req_target_at(
    entries: Seq<(Seq<char>, Tree)>,
    key: Seq<char>,
) -> Option<TargetView> {
    required(entries, key, |t: Tree| target_of(t))
}

pub(crate) fn read_req_target_at(entries: &Vec<(String, Json)>, key: &str) -> (r: Option<Target>)
    ensures
        match r {
            Some(x) => req_target_at(entry_trees(entries@), key@) == Some(x@),
            None => req_target_at(entry_trees(entries@), key@) is None,
        },
{
    match find_entry(entries, key) {
        None => None,
        Some(value) => decode_target(value),
    }
}

pub open spec fn opt_target_at(
    entries: Seq<(Seq<char>, Tree)>,
    key: Seq<char>,
) -> Option<Option<TargetView>> {
    optional(entries, key, |t: Tree| target_of(t))
}

pub(crate) fn read_opt_target_at(
    entries: &Vec<(String, Json)>,
    key: &str,
) -> (r: Option<Option<Target>>)
    ensures
        match r {
            Some(x) => opt_target_at(entry_trees(entries@), key@) == Some(opt_view(x)),
            None => opt_target_at(entry_trees(entries@), key@) is None,
        },
{
    match find_entry(entries, key) {
        None => Some(None),
        Some(Json::Null) => Some(None),
        Some(value) => match decode_target(value) {
            Some(x) => Some(Some(x)),
            None => None,
        },
    }
}

} // verus!
