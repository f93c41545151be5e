//! The JSON Schema of definitions: what a schema made from types alone leaves out.
use vstd::prelude::*;
use crate::collections::lookup;
use crate::definition::CURRENT_SCHEMA_VERSION;
use crate::fields::{encode_text, encode_u64, unsigned};
use crate::text::{owned, same_text};
use crate::value::{entry_trees, find_entry, object_tree, Json, Tree};

verus! {

/// `entries` with `key` bound to `value`, in the place of what it was bound to, or at the end.
pub open spec fn placed(
    entries: Seq<(Seq<char>, Tree)>,
    key: Seq<char>,
    value: Tree,
) -> Seq<(Seq<char>, Tree)>
    decreases entries.len(),
{
    if entries.len() == 0 {
        seq![(key, value)]
    } else if entries[0].0 == key {
        seq![(key, value)] + entries.drop_first()
    } else {
        seq![entries[0]] + placed(entries.drop_first(), key, value)
    }
}

proof fn placed_lookup(
    entries: Seq<(Seq<char>, Tree)>,
    key: Seq<char>,
    value: Tree,
    other: Seq<char>,
)
    ensures
        lookup(placed(entries, key, value), other) == if other == key {
            Some(value)
        } else {
            lookup(entries, other)
        },
    decreases entries.len(),
{
    let after = placed(entries, key, value);
    if entries.len() == 0 {
        assert(after.drop_first() =~= Seq::empty());
        assert(lookup(after.drop_first(), other) is None);
    } else if entries[0].0 == key {
        assert(after.drop_first() =~= entries.drop_first());
    } else {
        placed_lookup(entries.drop_first(), key, value, other);
        assert(after.drop_first() =~= placed(entries.drop_first(), key, value));
    }
}

/// The fields of an object; nothing else has any.
pub open spec fn fields_of(tree: Tree) -> Seq<(Seq<char>, Tree)> {
    match tree {
        Tree::Object(entries) => entries,
        _ => Seq::empty(),
    }
}

/// What stands at a path of keys.
pub open spec fn at(tree: Tree, path: Seq<Seq<char>>) -> Option<Tree>
    decreases path.len(),
{
    if path.len() == 0 {
        Some(tree)
    } else {
        match lookup(fields_of(tree), path[0]) {
            Some(child) => at(child, path.skip(1)),
            None => None,
        }
    }
}

/// What stands in an object under a key: null where nothing does.
pub open spec fn child_of(tree: Tree, key: Seq<char>) -> Tree {
    match lookup(fields_of(tree), key) {
        Some(child) => child,
        None => Tree::Null,
    }
}

/// Whether something can be put at a path: nothing on the way is other than an object or null.
pub open spec fn open_at(tree: Tree, path: Seq<Seq<char>>) -> bool
    decreases path.len(),
{
    path.len() == 0 || ((tree is Object || tree is Null) && open_at(
        child_of(tree, path[0]),
        path.skip(1),
    ))
}

/// The tree with a value at a path. Objects that are missing on the way are made.
pub open spec fn with_at(tree: Tree, path: Seq<Seq<char>>, value: Tree) -> Tree
    decreases path.len(),
{
    if path.len() == 0 {
        value
    } else {
        Tree::Object(
            placed(
                fields_of(tree),
                path[0],
                with_at(child_of(tree, path[0]), path.skip(1), value),
            ),
        )
    }
}

/// What was put at a path is found there.
pub proof fn put_is_found(tree: Tree, path: Seq<Seq<char>>, value: Tree)
    ensures
        at(with_at(tree, path, value), path) == Some(value),
    decreases path.len(),
{
    if path.len() > 0 {
        let child = child_of(tree, path[0]);
        put_is_found(child, path.skip(1), value);
        placed_lookup(
            fields_of(tree),
            path[0],
            with_at(child, path.skip(1), value),
            path[0],
        );
    }
}

/// Putting something at a path leaves alone what stands at another path of the same length.
pub proof fn other_paths_stay(
    tree: Tree,
    path: Seq<Seq<char>>,
    value: Tree,
    other: Seq<Seq<char>>,
)
    requires
        path.len() == other.len(),
        path != other,
    ensures
        at(with_at(tree, path, value), other) == at(tree, other),
        open_at(tree, other) ==> open_at(with_at(tree, path, value), other),
    decreases path.len(),
{
    if path.len() == 0 {
        assert(path =~= other);
    } else {
        let child = child_of(tree, path[0]);
        placed_lookup(
            fields_of(tree),
            path[0],
            with_at(child, path.skip(1), value),
            other[0],
        );
        if path[0] == other[0] {
            if path.skip(1) == other.skip(1) {
                assert(path =~= seq![path[0]] + path.skip(1));
                assert(other =~= seq![other[0]] + other.skip(1));
            }
            other_paths_stay(child, path.skip(1), value, other.skip(1));
            if lookup(fields_of(tree), path[0]) is None {
                assert(other.skip(1).len() > 0) by {
                    if other.skip(1).len() == 0 {
                        assert(path.skip(1) =~= other.skip(1));
                    }
                }
                assert(at(Tree::Null, other.skip(1)) is None);
            }
        }
    }
}

/// What the words of a path stand for.
pub open spec fn words(path: Seq<&str>) -> Seq<Seq<char>> {
    path.map_values(|w: &str| w@)
}

fn place(entries: &Vec<(String, Json)>, key: &str, value: Json) -> (r: Vec<(String, Json)>)
    ensures
        entry_trees(r@) == placed(entry_trees(entries@), key@, value@),
{
    let ghost all = entry_trees(entries@);
    let ghost want = value@;
    let mut out: Vec<(String, Json)> = Vec::new();
    let mut i: usize = 0;
    assert(all.skip(0) =~= all);
    assert(entry_trees(out@) =~= Seq::empty());
    assert(Seq::empty() + placed(all, key@, want) =~= placed(all, key@, want));
    while i < entries.len() && !same_text(entries[i].0.as_str(), key)
        invariant
            i <= entries@.len(),
            all == entry_trees(entries@),
            entry_trees(out@) + placed(all.skip(i as int), key@, want) == placed(all, key@, want),
        decreases entries@.len() - i,
    {
        let ghost before = entry_trees(out@);
        let e = (entries[i].0.clone(), entries[i].1.copy());
        let ghost added = (e.0@, e.1@);
        out.push(e);
        proof {
            assert(entry_trees(out@) =~= before.push(added));
            assert(all.skip(i as int)[0] == added);
            assert(all.skip(i as int).drop_first() =~= all.skip(i + 1));
            assert(before.push(added) + placed(
                all.skip(i + 1),
                key@,
                want,
            ) =~= before + (seq![added]
                + placed(all.skip(i + 1), key@, want)));
        }
        i = i + 1;
    }
    let ghost before = entry_trees(out@);
    out.push((owned(key), value));
    assert(entry_trees(out@) =~= before.push((key@, want)));
    if i < entries.len() {
        assert(all.skip(i as int)[0].0 == key@);
        assert(all.skip(i as int).drop_first() =~= all.skip(i + 1));
        assert(before.push((key@, want)) + all.skip(i + 1) =~= before + (seq![(key@, want)]
            + all.skip(i + 1)));
        let mut j: usize = i + 1;
        while j < entries.len()
            invariant
                i < j <= entries@.len(),
                all == entry_trees(entries@),
                entry_trees(out@) + all.skip(j as int) == placed(all, key@, want),
            decreases entries@.len() - j,
        {
            let ghost so_far = entry_trees(out@);
            let e = (entries[j].0.clone(), entries[j].1.copy());
            let ghost added = (e.0@, e.1@);
            out.push(e);
            proof {
                assert(entry_trees(out@) =~= so_far.push(added));
                assert(all[j as int] == added);
                assert(so_far.push(added) + all.skip(j + 1) =~= so_far + all.skip(j as int));
            }
            j = j + 1;
        }
        assert(entry_trees(out@) + all.skip(j as int) =~= entry_trees(out@));
    } else {
        assert(all.skip(i as int) =~= Seq::empty());
        assert(before.push((key@, want)) =~= before + seq![(key@, want)]);
    }
    out
}

/// Puts a value at a path.
fn set_at(tree: &Json, path: &[&str], from: usize, value: Json) -> (r: Json)
    requires
        from <= path@.len(),
    ensures
        r@ == with_at(tree@, words(path@).skip(from as int), value@),
    decreases path@.len() - from,
{
    broadcast use object_tree;

    let ghost rest = words(path@).skip(from as int);
    if from == path.len() {
        return value;
    }
    let key = path[from];
    assert(rest[0] == key@);
    assert(rest.skip(1) =~= words(path@).skip(from + 1));
    let nothing: Vec<(String, Json)> = Vec::new();
    assert(entry_trees(nothing@) =~= Seq::empty());
    let entries: &Vec<(String, Json)> = match tree {
        Json::Object(entries) => entries,
        _ => &nothing,
    };
    assert(entry_trees(entries@) == fields_of(tree@));
    let child = match find_entry(entries, key) {
        Some(child) => set_at(child, path, from + 1, value),
        None => set_at(&Json::Null, path, from + 1, value),
    };
    Json::Object(place(entries, key, child))
}

/// What an identifier looks like.
pub open spec fn identifier_pattern() -> Seq<char> {
    "^[A-Za-z0-9][A-Za-z0-9._-]*$"@
}

/// Where a schema says something of a field of a type.
pub open spec fn field_path(name: Seq<char>, field: Seq<char>, word: Seq<char>) -> Seq<Seq<char>> {
    seq!["$defs"@, name, "properties"@, field, word]
}

/// What a definition must be besides what its types say: the version that is read, at least one
/// step, identifiers that are identifiers, and no zero where one is the least.
pub open spec fn constraints() -> Seq<(Seq<Seq<char>>, Tree)> {
    seq![
        (
            field_path("AutomationDefinition"@, "schemaVersion"@, "const"@),
            unsigned(CURRENT_SCHEMA_VERSION as u64),
        ),
        (field_path("AutomationDefinition"@, "steps"@, "minItems"@), unsigned(1)),
        (field_path("AutomationDefinition"@, "id"@, "pattern"@), Tree::Text(identifier_pattern())),
        (field_path("Step"@, "id"@, "pattern"@), Tree::Text(identifier_pattern())),
        (field_path("DurationSpec"@, "millis"@, "minimum"@), unsigned(1)),
        (field_path("ImageTarget"@, "confidence"@, "minimum"@), unsigned(1)),
        (field_path("ImageRegion"@, "width"@, "minimum"@), unsigned(1)),
        (field_path("ImageRegion"@, "height"@, "minimum"@), unsigned(1)),
    ]
}

/// A schema with the first constraints.
pub open spec fn constrained(schema: Tree, n: nat) -> Tree
    decreases n,
{
    if n == 0 {
        schema
    } else {
        with_at(
            constrained(schema, (n - 1) as nat),
            constraints()[n - 1].0,
            constraints()[n - 1].1,
        )
    }
}

/// Whether the constraints can be put into a schema.
pub open spec fn takes_constraints(schema: Tree) -> bool {
    forall|i: int|
        0 <= i < constraints().len() ==> open_at(schema, (#[trigger] constraints()[i]).0)
}

fn constrain(schema: &Json, name: &str, field: &str, word: &str, value: Json) -> (r: Json)
    ensures
        r@ == with_at(schema@, field_path(name@, field@, word@), value@),
{
    let path = ["$defs", name, "properties", field, word];
    assert(words(path@).skip(0) =~= field_path(name@, field@, word@));
    set_at(schema, &path, 0, value)
}

fn is_open_at(tree: &Json, path: &[&str], from: usize) -> (r: bool)
    requires
        from <= path@.len(),
    ensures
        r == open_at(tree@, words(path@).skip(from as int)),
    decreases path@.len() - from,
{
    broadcast use object_tree;

    let ghost rest = words(path@).skip(from as int);
    if from == path.len() {
        return true;
    }
    let key = path[from];
    assert(rest[0] == key@);
    assert(rest.skip(1) =~= words(path@).skip(from + 1));
    match tree {
        Json::Object(entries) => match find_entry(entries, key) {
            Some(child) => is_open_at(child, path, from + 1),
            None => is_open_at(&Json::Null, path, from + 1),
        },
        Json::Null => is_open_at(&Json::Null, path, from + 1),
        _ => false,
    }
}

fn takes(schema: &Json, name: &str, field: &str, word: &str) -> (r: bool)
    ensures
        r == open_at(schema@, field_path(name@, field@, word@)),
{
    let path = ["$defs", name, "properties", field, word];
    assert(words(path@).skip(0) =~= field_path(name@, field@, word@));
    is_open_at(schema, &path, 0)
}

/// Whether the constraints can be put into a schema.
pub fn schema_takes_constraints(schema: &Json) -> (r: bool)
    ensures
        r == takes_constraints(schema@),
{
    let ghost all = constraints();
    assert(all.len() == 8);
    let t0 = takes(schema, "AutomationDefinition", "schemaVersion", "const");
    let t1 = takes(schema, "AutomationDefinition", "steps", "minItems");
    let t2 = takes(schema, "AutomationDefinition", "id", "pattern");
    let t3 = takes(schema, "Step", "id", "pattern");
    let t4 = takes(schema, "DurationSpec", "millis", "minimum");
    let t5 = takes(schema, "ImageTarget", "confidence", "minimum");
    let t6 = takes(schema, "ImageRegion", "width", "minimum");
    let t7 = takes(schema, "ImageRegion", "height", "minimum");
    let r = t0 && t1 && t2 && t3 && t4 && t5 && t6 && t7;
    proof {
        if r {
            assert forall|i: int| 0 <= i < constraints().len() implies open_at(
                schema@,
                (#[trigger] constraints()[i]).0,
            ) by {
                assert(i == 0 || i == 1 || i == 2 || i == 3 || i == 4 || i == 5 || i == 6 || i == 7);
            }
        } else {
            assert(t0 == open_at(schema@, constraints()[0].0));
            assert(t1 == open_at(schema@, constraints()[1].0));
            assert(t2 == open_at(schema@, constraints()[2].0));
            assert(t3 == open_at(schema@, constraints()[3].0));
            assert(t4 == open_at(schema@, constraints()[4].0));
            assert(t5 == open_at(schema@, constraints()[5].0));
            assert(t6 == open_at(schema@, constraints()[6].0));
            assert(t7 == open_at(schema@, constraints()[7].0));
        }
    }
    r
}

/// The schema of definitions: the one that was made from the types, with the constraints that the
/// types do not show.
pub fn automation_definition_schema(generated: Json) -> (r: Json)
    requires
        takes_constraints(generated@),
    ensures
        r@ == constrained(generated@, constraints().len()),
{
    let s0 = generated;
    assert(s0@ == constrained(s0@, 0));
    let s1 = constrain(
        &s0,
        "AutomationDefinition",
        "schemaVersion",
        "const",
        encode_u64(CURRENT_SCHEMA_VERSION as u64),
    );
    assert(s1@ == constrained(s0@, 1));
    let s2 = constrain(&s1, "AutomationDefinition", "steps", "minItems", encode_u64(1));
    assert(s2@ == constrained(s0@, 2));
    let s3 = constrain(
        &s2,
        "AutomationDefinition",
        "id",
        "pattern",
        encode_text("^[A-Za-z0-9][A-Za-z0-9._-]*$"),
    );
    assert(s3@ == constrained(s0@, 3));
    let s4 = constrain(&s3, "Step", "id", "pattern", encode_text("^[A-Za-z0-9][A-Za-z0-9._-]*$"));
    assert(s4@ == constrained(s0@, 4));
    let s5 = constrain(&s4, "DurationSpec", "millis", "minimum", encode_u64(1));
    assert(s5@ == constrained(s0@, 5));
    let s6 = constrain(&s5, "ImageTarget", "confidence", "minimum", encode_u64(1));
    assert(s6@ == constrained(s0@, 6));
    let s7 = constrain(&s6, "ImageRegion", "width", "minimum", encode_u64(1));
    assert(s7@ == constrained(s0@, 7));
    let s8 = constrain(&s7, "ImageRegion", "height", "minimum", encode_u64(1));
    assert(s8@ == constrained(s0@, 8));
    s8
}

/// The constraints stand at different places.
proof fn constraints_differ(i: int, j: int)
    requires
        0 <= i < j < constraints().len(),
    ensures
        constraints()[i].0 != constraints()[j].0,
{
    reveal_strlit("AutomationDefinition");
    reveal_strlit("DurationSpec");
    reveal_strlit("ImageRegion");
    reveal_strlit("ImageTarget");
    reveal_strlit("Step");
    reveal_strlit("confidence");
    reveal_strlit("const");
    reveal_strlit("height");
    reveal_strlit("id");
    reveal_strlit("millis");
    reveal_strlit("minItems");
    reveal_strlit("minimum");
    reveal_strlit("pattern");
    reveal_strlit("schemaVersion");
    reveal_strlit("steps");
    reveal_strlit("width");
    assert("AutomationDefinition"@.len() == 20);
    assert("DurationSpec"@.len() == 12);
    assert("ImageRegion"@.len() == 11);
    assert("ImageTarget"@.len() == 11);
    assert("Step"@.len() == 4);
    assert("confidence"@.len() == 10);
    assert("const"@.len() == 5);
    assert("height"@.len() == 6);
    assert("id"@.len() == 2);
    assert("millis"@.len() == 6);
    assert("minItems"@.len() == 8);
    assert("minimum"@.len() == 7);
    assert("pattern"@.len() == 7);
    assert("schemaVersion"@.len() == 13);
    assert("steps"@.len() == 5);
    assert("width"@.len() == 5);
    assert("ImageRegion"@[5] != "ImageTarget"@[5]);
    assert("const"@[0] != "steps"@[0]);
    assert("const"@[0] != "width"@[0]);
    assert("height"@[0] != "millis"@[0]);
    assert("minimum"@[0] != "pattern"@[0]);
    assert("steps"@[0] != "width"@[0]);
    let a = constraints()[i].0;
    let b = constraints()[j].0;
    assert(a[1] != b[1] || a[3] != b[3]);
}

/// The schema states each constraint, and says of everything else of the same depth what it said
/// before.
pub proof fn schema_states_constraints(schema: Tree, n: nat, path: Seq<Seq<char>>)
    requires
        n <= constraints().len(),
        path.len() == 5,
    ensures
        forall|i: int|
            0 <= i < n ==> at(constrained(schema, n), (#[trigger] constraints()[i]).0) == Some(
                constraints()[i].1,
            ),
        (forall|i: int| 0 <= i < n ==> (#[trigger] constraints()[i]).0 != path) ==> at(
            constrained(schema, n),
            path,
        ) == at(schema, path),
    decreases n,
{
    if n > 0 {
        let before = constrained(schema, (n - 1) as nat);
        let (last, value) = constraints()[n - 1];
        schema_states_constraints(schema, (n - 1) as nat, path);
        put_is_found(before, last, value);
        assert forall|i: int| 0 <= i < n implies at(
            constrained(schema, n),
            (#[trigger] constraints()[i]).0,
        ) == Some(constraints()[i].1) by {
            if i < n - 1 {
                constraints_differ(i, n - 1);
                other_paths_stay(before, last, value, constraints()[i].0);
            }
        }
        if forall|i: int| 0 <= i < n ==> (#[trigger] constraints()[i]).0 != path {
            assert(constraints()[n - 1].0 != path);
            other_paths_stay(before, last, value, path);
        }
    }
}

} // verus!
