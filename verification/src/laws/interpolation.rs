//! What replacing references comes to.
use vstd::prelude::*;
use crate::interpolate::{
    entry_references, find_close, find_open, first_reference, interpolated, interpolated_entries,
    interpolated_items, interpolated_text, item_references, references, scalar_text,
    text_references, Failure, Lookup, Reference,
};
use crate::resolve::interpolated_setting;
use crate::text::{decimal, decimal_int};
use crate::value::{NumberView, Tree};

verus! {

/// A text in which nothing opens a reference.
pub open spec fn literal(text: Seq<char>) -> bool {
    forall|i: int| 0 <= i < text.len() - 1 ==> !(#[trigger] text[i] == '$' && text[i + 1] == '{')
}

/// What can stand between the braces of a reference.
pub open spec fn a_name(name: Seq<char>) -> bool {
    name.len() > 0 && !name.contains('}')
}

/// A reference to a variable, as it is written.
pub open spec fn mark(name: Seq<char>) -> Seq<char> {
    seq!['$', '{'] + name + seq!['}']
}

/// Pieces of text with something between each two of them: one piece more than there are things
/// between.
pub open spec fn woven(pieces: Seq<Seq<char>>, between: Seq<Seq<char>>) -> Seq<char>
    decreases between.len(),
{
    if between.len() == 0 {
        pieces[0]
    } else {
        pieces[0] + between[0] + woven(pieces.drop_first(), between.drop_first())
    }
}

/// Whether a value is shown so inside a text.
pub open spec fn shown_as(value: Tree, text: Seq<char>) -> bool {
    match value {
        Tree::Text(own) => text == own,
        Tree::Bool(true) => text == seq!['t', 'r', 'u', 'e'],
        Tree::Bool(false) => text == seq!['f', 'a', 'l', 's', 'e'],
        Tree::Number(NumberView::PosInt(n)) => text == decimal(n as nat),
        Tree::Number(NumberView::NegInt(n)) => text == decimal_int(n as int),
        Tree::Number(NumberView::Float(own)) => text == own,
        _ => false,
    }
}

proof fn opens_after(before: Seq<char>, rest: Seq<char>)
    requires
        literal(before),
    ensures
        find_open(before + seq!['$', '{'] + rest) == Some(before.len() as int),
    decreases before.len(),
{
    let text = before + seq!['$', '{'] + rest;
    assert(text.len() == before.len() + 2 + rest.len());
    if before.len() > 0 {
        let shorter = before.drop_first();
        assert forall|i: int| 0 <= i < shorter.len() - 1 implies !(#[trigger] shorter[i] == '$'
            && shorter[i + 1] == '{') by {
            assert(shorter[i] == before[i + 1]);
        }
        opens_after(shorter, rest);
        assert(text.drop_first() =~= shorter + seq!['$', '{'] + rest);
        assert(text[0] == before[0]);
        if before.len() > 1 {
            assert(text[1] == before[1]);
            assert(!(before[0] == '$' && before[1] == '{'));
        } else {
            assert(text[1] == '$');
        }
    } else {
        assert(text[0] == '$' && text[1] == '{');
    }
}

proof fn opens_nowhere(text: Seq<char>)
    requires
        literal(text),
    ensures
        find_open(text) is None,
    decreases text.len(),
{
    if text.len() >= 2 {
        let shorter = text.drop_first();
        assert forall|i: int| 0 <= i < shorter.len() - 1 implies !(#[trigger] shorter[i] == '$'
            && shorter[i + 1] == '{') by {
            assert(shorter[i] == text[i + 1]);
        }
        assert(!(text[0] == '$' && text[1] == '{'));
        opens_nowhere(shorter);
    }
}

proof fn closes_after(name: Seq<char>, rest: Seq<char>)
    requires
        !name.contains('}'),
    ensures
        find_close(name + seq!['}'] + rest) == Some(name.len() as int),
    decreases name.len(),
{
    let text = name + seq!['}'] + rest;
    if name.len() > 0 {
        let shorter = name.drop_first();
        assert(text[0] == name[0]);
        assert(name.contains(name[0]));
        assert(!shorter.contains('}')) by {
            if shorter.contains('}') {
                let i = choose|i: int| 0 <= i < shorter.len() && shorter[i] == '}';
                assert(name[i + 1] == '}');
            }
        }
        closes_after(shorter, rest);
        assert(text.drop_first() =~= shorter + seq!['}'] + rest);
    } else {
        assert(text[0] == '}');
    }
}

proof fn closes_nowhere(text: Seq<char>)
    requires
        !text.contains('}'),
    ensures
        find_close(text) is None,
    decreases text.len(),
{
    if text.len() > 0 {
        let shorter = text.drop_first();
        assert(text.contains(text[0]));
        assert(!shorter.contains('}')) by {
            if shorter.contains('}') {
                let i = choose|i: int| 0 <= i < shorter.len() && shorter[i] == '}';
                assert(text[i + 1] == '}');
            }
        }
        closes_nowhere(shorter);
    }
}

proof fn reference_found(before: Seq<char>, name: Seq<char>, behind: Seq<char>)
    requires
        literal(before),
        a_name(name),
    ensures
        first_reference(before + mark(name) + behind) == (Reference::Found {
            prefix: before,
            name,
            suffix: behind,
        }),
{
    let text = before + mark(name) + behind;
    let rest = name + seq!['}'] + behind;
    assert(text =~= before + seq!['$', '{'] + rest);
    opens_after(before, rest);
    assert(text.skip(before.len() as int + 2) =~= rest);
    closes_after(name, behind);
    assert(text.take(before.len() as int) =~= before);
    assert(rest.take(name.len() as int) =~= name);
    assert(rest.skip(name.len() as int + 1) =~= behind);
}

proof fn no_reference(text: Seq<char>)
    requires
        literal(text),
    ensures
        first_reference(text) is Absent,
{
    opens_nowhere(text);
}

proof fn shown_by(value: Tree, text: Seq<char>)
    requires
        shown_as(value, text),
    ensures
        scalar_text(value) == Ok::<Seq<char>, Failure>(text),
{
    reveal_strlit("true");
    reveal_strlit("false");
    assert("true"@ =~= seq!['t', 'r', 'u', 'e']);
    assert("false"@ =~= seq!['f', 'a', 'l', 's', 'e']);
}

/// Whether a text with these pieces and values is more than one value on its own: there is text
/// before, in or behind it.
pub open spec fn not_alone(
    before: Seq<char>,
    pieces: Seq<Seq<char>>,
    values: Seq<Seq<char>>,
) -> bool {
    ||| before.len() > 0
    ||| exists|k: int| 0 <= k < pieces.len() && (#[trigger] pieces[k]).len() > 0
    ||| exists|k: int| 0 <= k < values.len() - 1 && (#[trigger] values[k]).len() > 0
    ||| values.len() == 0
}

proof fn pieces_replaced(
    before: Seq<char>,
    pieces: Seq<Seq<char>>,
    names: Seq<Seq<char>>,
    values: Seq<Seq<char>>,
    vars: Lookup,
)
    requires
        pieces.len() == names.len() + 1,
        values.len() == names.len(),
        forall|k: int| 0 <= k < pieces.len() ==> literal(#[trigger] pieces[k]),
        forall|k: int| 0 <= k < names.len() ==> a_name(#[trigger] names[k]),
        forall|k: int|
            0 <= k < names.len() ==> vars(#[trigger] names[k]) is Ok && shown_as(
                vars(names[k])->Ok_0,
                values[k],
            ),
        not_alone(before, pieces, values),
    ensures
        interpolated_text(
            before,
            woven(pieces, names.map_values(|n: Seq<char>| mark(n))),
            vars,
        ) == Ok::<Tree, Failure>(Tree::Text(before + woven(pieces, values))),
    decreases names.len(),
{
    let marks = names.map_values(|n: Seq<char>| mark(n));
    let text = woven(pieces, marks);
    if names.len() == 0 {
        no_reference(pieces[0]);
    } else {
        let more = pieces.drop_first();
        let later = names.drop_first();
        let rest = values.drop_first();
        let behind = woven(more, marks.drop_first());
        assert(later.map_values(|n: Seq<char>| mark(n)) =~= marks.drop_first());
        assert(text == pieces[0] + mark(names[0]) + behind);
        reference_found(pieces[0], names[0], behind);
        let value = vars(names[0])->Ok_0;
        let shown = values[0];
        shown_by(value, shown);
        let sofar = before + pieces[0] + shown;
        assert forall|k: int| 0 <= k < more.len() implies literal(#[trigger] more[k]) by {
            assert(more[k] == pieces[k + 1]);
        }
        assert forall|k: int| 0 <= k < later.len() implies a_name(#[trigger] later[k]) by {
            assert(later[k] == names[k + 1]);
        }
        assert forall|k: int| 0 <= k < later.len() implies vars(#[trigger] later[k]) is Ok
            && shown_as(vars(later[k])->Ok_0, rest[k]) by {
            assert(later[k] == names[k + 1]);
            assert(rest[k] == values[k + 1]);
        }
        if behind.len() == 0 {
            behind_is_empty(more, later);
            if !(before.len() > 0) {
                if exists|k: int| 0 <= k < pieces.len() && (#[trigger] pieces[k]).len() > 0 {
                    let k = choose|k: int|
                        0 <= k < pieces.len() && (#[trigger] pieces[k]).len() > 0;
                    if k > 0 {
                        assert(more[k - 1] == pieces[k]);
                    }
                }
            }
            assert((before + pieces[0]).len() > 0);
        }
        if sofar.len() == 0 && later.len() > 0 {
            if exists|k: int| 0 <= k < pieces.len() && (#[trigger] pieces[k]).len() > 0 {
                let k = choose|k: int| 0 <= k < pieces.len() && (#[trigger] pieces[k]).len() > 0;
                assert(more[k - 1] == pieces[k]);
            } else {
                let k = choose|k: int|
                    0 <= k < values.len() - 1 && (#[trigger] values[k]).len() > 0;
                assert(rest[k - 1] == values[k]);
            }
        }
        assert(not_alone(sofar, more, rest));
        pieces_replaced(sofar, more, later, rest, vars);
        assert(before + woven(pieces, values) =~= sofar + woven(more, rest));
    }
}

proof fn behind_is_empty(pieces: Seq<Seq<char>>, names: Seq<Seq<char>>)
    requires
        pieces.len() == names.len() + 1,
        woven(pieces, names.map_values(|n: Seq<char>| mark(n))).len() == 0,
    ensures
        names.len() == 0,
        pieces[0].len() == 0,
{
}

/// A text with references becomes its literal pieces, in order, with the texts of the values of its
/// references between them. The one exception is a text that is nothing but one value.
pub proof fn references_give_way_to_values(
    pieces: Seq<Seq<char>>,
    names: Seq<Seq<char>>,
    values: Seq<Seq<char>>,
    vars: Lookup,
)
    requires
        pieces.len() == names.len() + 1,
        values.len() == names.len(),
        forall|k: int| 0 <= k < pieces.len() ==> literal(#[trigger] pieces[k]),
        forall|k: int| 0 <= k < names.len() ==> a_name(#[trigger] names[k]),
        forall|k: int|
            0 <= k < names.len() ==> vars(#[trigger] names[k]) is Ok && shown_as(
                vars(names[k])->Ok_0,
                values[k],
            ),
        not_alone(Seq::empty(), pieces, values),
    ensures
        interpolated(
            Tree::Text(woven(pieces, names.map_values(|n: Seq<char>| mark(n)))),
            vars,
        ) == Ok::<Tree, Failure>(Tree::Text(woven(pieces, values))),
        interpolated_setting(
            woven(pieces, names.map_values(|n: Seq<char>| mark(n))),
            vars,
        ) == Ok::<Seq<char>, Failure>(woven(pieces, values)),
{
    pieces_replaced(Seq::empty(), pieces, names, values, vars);
    assert(Seq::<char>::empty() + woven(pieces, values) =~= woven(pieces, values));
}

/// What stands before and behind a reference stays, and the text of its value stands between.
pub proof fn text_around_a_reference_stays(
    before: Seq<char>,
    name: Seq<char>,
    behind: Seq<char>,
    value: Seq<char>,
    vars: Lookup,
)
    requires
        literal(before),
        literal(behind),
        a_name(name),
        before.len() + behind.len() > 0,
        vars(name) is Ok,
        shown_as(vars(name)->Ok_0, value),
    ensures
        interpolated(Tree::Text(before + mark(name) + behind), vars) == Ok::<Tree, Failure>(
            Tree::Text(before + value + behind),
        ),
        interpolated_setting(before + mark(name) + behind, vars) == Ok::<Seq<char>, Failure>(
            before + value + behind,
        ),
{
    let pieces = seq![before, behind];
    let names = seq![name];
    let values = seq![value];
    let marks = names.map_values(|n: Seq<char>| mark(n));
    assert(pieces[0] == before && pieces[1] == behind);
    assert(names[0] == name && values[0] == value);
    assert(marks[0] == mark(name));
    assert(pieces.drop_first()[0] == behind);
    assert(woven(pieces.drop_first(), marks.drop_first()) == behind);
    assert(woven(pieces.drop_first(), values.drop_first()) == behind);
    assert(woven(pieces, marks) == before + mark(name) + behind);
    assert(woven(pieces, values) == before + value + behind);
    references_give_way_to_values(pieces, names, values, vars);
}

/// A text that is one reference and nothing else becomes the value, whatever its type.
pub proof fn a_reference_alone_is_its_value(name: Seq<char>, vars: Lookup)
    requires
        a_name(name),
    ensures
        interpolated(Tree::Text(mark(name)), vars) == vars(name),
        vars(name) matches Ok(Tree::Text(text)) ==> interpolated_setting(mark(name), vars) == Ok::<
            Seq<char>,
            Failure,
        >(text),
{
    let none = Seq::<char>::empty();
    assert(none + mark(name) + none =~= mark(name));
    reference_found(none, name, none);
}

/// A text without references stays as it is.
pub proof fn literal_texts_stay(text: Seq<char>, vars: Lookup)
    requires
        literal(text),
    ensures
        interpolated(Tree::Text(text), vars) == Ok::<Tree, Failure>(Tree::Text(text)),
        interpolated_setting(text, vars) == Ok::<Seq<char>, Failure>(text),
{
    no_reference(text);
    assert(Seq::<char>::empty() + text =~= text);
}

/// A reference that is opened and not closed, or that names nothing, is an error, and so is one to
/// a variable that stands for nothing. What stands behind it does not matter.
pub proof fn bad_references_fail(
    before: Seq<char>,
    name: Seq<char>,
    behind: Seq<char>,
    vars: Lookup,
)
    requires
        literal(before),
    ensures
        !behind.contains('}') ==> interpolated(
            Tree::Text(before + seq!['$', '{'] + behind),
            vars,
        ) == Err::<Tree, Failure>(Failure::MalformedInterpolation),
        interpolated(Tree::Text(before + seq!['$', '{', '}'] + behind), vars) == Err::<
            Tree,
            Failure,
        >(Failure::MalformedInterpolation),
        a_name(name) && vars(name) is Err ==> interpolated(
            Tree::Text(before + mark(name) + behind),
            vars,
        ) == Err::<Tree, Failure>(vars(name)->Err_0),
        a_name(name) && before.len() + behind.len() > 0 && (vars(name) matches Ok(value) && (value
            is Array || value is Object || value is Null)) ==> interpolated(
            Tree::Text(before + mark(name) + behind),
            vars,
        ) == Err::<Tree, Failure>(Failure::NonScalarInterpolation),
{
    opens_after(before, behind);
    let open = before + seq!['$', '{'] + behind;
    assert(open.skip(before.len() as int + 2) =~= behind);
    if !behind.contains('}') {
        closes_nowhere(behind);
    }
    let nameless = before + seq!['$', '{', '}'] + behind;
    let rest = seq!['}'] + behind;
    assert(nameless =~= before + seq!['$', '{'] + rest);
    opens_after(before, rest);
    assert(nameless.skip(before.len() as int + 2) =~= rest);
    assert(rest[0] == '}');
    if a_name(name) {
        reference_found(before, name, behind);
    }
}

/// The items of a list and the entries of an object are replaced one by one: none is lost or added,
/// all keep their places, and the keys of an object stay. Other values stay as they are.
pub proof fn values_keep_their_shape(value: Tree, vars: Lookup)
    requires
        interpolated(value, vars) is Ok,
    ensures
        match (value, interpolated(value, vars)->Ok_0) {
            (Tree::Array(items), Tree::Array(done)) => {
                &&& done.len() == items.len()
                &&& forall|i: int|
                    0 <= i < items.len() ==> interpolated(#[trigger] items[i], vars) == Ok::<
                        Tree,
                        Failure,
                    >(done[i])
            },
            (Tree::Object(entries), Tree::Object(done)) => {
                &&& done.len() == entries.len()
                &&& forall|i: int|
                    0 <= i < entries.len() ==> (#[trigger] entries[i]).0 == done[i].0
                        && interpolated(entries[i].1, vars) == Ok::<Tree, Failure>(done[i].1)
            },
            (Tree::Text(_), _) => true,
            (before, after) => before == after && !(before is Array || before is Object),
        },
{
    match value {
        Tree::Array(items) => items_keep_places(items, items.len(), vars),
        Tree::Object(entries) => entries_keep_places(entries, entries.len(), vars),
        _ => {},
    }
}

proof fn items_keep_places(items: Seq<Tree>, n: nat, vars: Lookup)
    requires
        n <= items.len(),
        interpolated_items(items, n, vars) is Ok,
    ensures
        interpolated_items(items, n, vars)->Ok_0.len() == n,
        forall|i: int|
            0 <= i < n ==> interpolated(#[trigger] items[i], vars) == Ok::<Tree, Failure>(
                interpolated_items(items, n, vars)->Ok_0[i],
            ),
    decreases n,
{
    if n > 0 {
        items_keep_places(items, (n - 1) as nat, vars);
    }
}

proof fn entries_keep_places(entries: Seq<(Seq<char>, Tree)>, n: nat, vars: Lookup)
    requires
        n <= entries.len(),
        interpolated_entries(entries, n, vars) is Ok,
    ensures
        interpolated_entries(entries, n, vars)->Ok_0.len() == n,
        forall|i: int|
            0 <= i < n ==> (#[trigger] entries[i]).0 == interpolated_entries(
                entries,
                n,
                vars,
            )->Ok_0[i].0 && interpolated(entries[i].1, vars) == Ok::<Tree, Failure>(
                interpolated_entries(entries, n, vars)->Ok_0[i].1,
            ),
    decreases n,
{
    if n > 0 {
        entries_keep_places(entries, (n - 1) as nat, vars);
    }
}

proof fn references_listed(
    pieces: Seq<Seq<char>>,
    names: Seq<Seq<char>>,
)
    requires
        pieces.len() == names.len() + 1,
        forall|k: int| 0 <= k < pieces.len() ==> literal(#[trigger] pieces[k]),
        forall|k: int| 0 <= k < names.len() ==> a_name(#[trigger] names[k]),
    ensures
        text_references(woven(pieces, names.map_values(|n: Seq<char>| mark(n)))) == Some(names),
    decreases names.len(),
{
    let marks = names.map_values(|n: Seq<char>| mark(n));
    if names.len() == 0 {
        no_reference(pieces[0]);
        assert(names =~= Seq::empty());
    } else {
        let more = pieces.drop_first();
        let later = names.drop_first();
        let behind = woven(more, marks.drop_first());
        assert(later.map_values(|n: Seq<char>| mark(n)) =~= marks.drop_first());
        reference_found(pieces[0], names[0], behind);
        assert forall|k: int| 0 <= k < more.len() implies literal(#[trigger] more[k]) by {
            assert(more[k] == pieces[k + 1]);
        }
        assert forall|k: int| 0 <= k < later.len() implies a_name(#[trigger] later[k]) by {
            assert(later[k] == names[k + 1]);
        }
        references_listed(more, later);
        assert(names =~= seq![names[0]] + later);
    }
}

/// A text refers to the variables that its references name, in order.
pub proof fn references_are_those_written(pieces: Seq<Seq<char>>, names: Seq<Seq<char>>)
    requires
        pieces.len() == names.len() + 1,
        forall|k: int| 0 <= k < pieces.len() ==> literal(#[trigger] pieces[k]),
        forall|k: int| 0 <= k < names.len() ==> a_name(#[trigger] names[k]),
    ensures
        references(Tree::Text(woven(pieces, names.map_values(|n: Seq<char>| mark(n))))) == Some(
            names,
        ),
{
    references_listed(pieces, names);
}

/// A text without references refers to nothing.
pub proof fn literal_texts_refer_to_nothing(text: Seq<char>)
    requires
        literal(text),
    ensures
        references(Tree::Text(text)) == Some(Seq::<Seq<char>>::empty()),
{
    no_reference(text);
}

/// A text that is one reference refers to that variable.
pub proof fn a_reference_alone_refers(name: Seq<char>)
    requires
        a_name(name),
    ensures
        references(Tree::Text(mark(name))) == Some(seq![name]),
{
    let none = Seq::<char>::empty();
    let pieces = seq![none, none];
    let names = seq![name];
    let marks = names.map_values(|n: Seq<char>| mark(n));
    assert(pieces[0] == none && pieces[1] == none);
    assert(marks[0] == mark(name));
    assert(pieces.drop_first()[0] == none);
    assert(woven(pieces.drop_first(), marks.drop_first()) == none);
    assert(woven(pieces, marks) =~= mark(name));
    references_listed(pieces, names);
}

/// A list and an object refer to what their items refer to.
pub proof fn values_refer_to_what_their_parts_do(value: Tree, i: int, name: Seq<char>)
    requires
        references(value) is Some,
    ensures
        value matches Tree::Array(items) ==> 0 <= i < items.len() ==> references(items[i]) is Some
            && (references(items[i])->0.contains(name) ==> references(value)->0.contains(name)),
        value matches Tree::Object(entries) ==> 0 <= i < entries.len() ==> references(entries[i].1)
            is Some && (references(entries[i].1)->0.contains(name) ==> references(
            value,
        )->0.contains(name)),
{
    match value {
        Tree::Array(items) => if 0 <= i < items.len() {
            items_refer(items, items.len(), i, name);
        },
        Tree::Object(entries) => if 0 <= i < entries.len() {
            entries_refer(entries, entries.len(), i, name);
        },
        _ => {},
    }
}

proof fn in_sum(a: Seq<Seq<char>>, b: Seq<Seq<char>>, name: Seq<char>)
    ensures
        a.contains(name) || b.contains(name) ==> (a + b).contains(name),
{
    if a.contains(name) {
        let k = choose|k: int| 0 <= k < a.len() && a[k] == name;
        assert((a + b)[k] == name);
    }
    if b.contains(name) {
        let k = choose|k: int| 0 <= k < b.len() && b[k] == name;
        assert((a + b)[a.len() + k] == name);
    }
}

proof fn items_refer(items: Seq<Tree>, n: nat, i: int, name: Seq<char>)
    requires
        0 <= i < n <= items.len(),
        item_references(items, n) is Some,
    ensures
        references(items[i]) is Some,
        references(items[i])->0.contains(name) ==> item_references(items, n)->0.contains(name),
    decreases n,
{
    let m = (n - 1) as nat;
    if i < m {
        items_refer(items, m, i, name);
    }
    in_sum(item_references(items, m)->0, references(items[n - 1])->0, name);
}

proof fn entries_refer(entries: Seq<(Seq<char>, Tree)>, n: nat, i: int, name: Seq<char>)
    requires
        0 <= i < n <= entries.len(),
        entry_references(entries, n) is Some,
    ensures
        references(entries[i].1) is Some,
        references(entries[i].1)->0.contains(name) ==> entry_references(
            entries,
            n,
        )->0.contains(name),
    decreases n,
{
    let m = (n - 1) as nat;
    if i < m {
        entries_refer(entries, m, i, name);
    }
    in_sum(entry_references(entries, m)->0, references(entries[n - 1].1)->0, name);
}

} // verus!
