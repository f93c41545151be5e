//! Numbers, and lists of numbers, as they are written on the command line.
use vstd::prelude::*;
use crate::describe::path_text;
use crate::text::{
    blank, decimal, digit, from_chars, is_blank, is_space, joined, pieces, pieces_exist, same_text,
    split, texts, to_chars, trim, trimmed,
};
use crate::views::opt_view;

verus! {

pub open spec fn is_digit(c: char) -> bool {
    0x30 <= c as int <= 0x39
}

fn digit_value(c: char) -> (r: Option<u128>)
    ensures
        r == (if is_digit(c) {
            Some((c as int - 0x30) as u128)
        } else {
            None
        }),
{
    let n: u32 = c as u32;
    if 0x30 <= n && n <= 0x39 {
        Some((n - 0x30) as u128)
    } else {
        None
    }
}

pub open spec fn all_digits(text: Seq<char>) -> bool {
    forall|i: int| 0 <= i < text.len() ==> is_digit(#[trigger] text[i])
}

/// The number that decimal digits stand for.
pub open spec fn digits_value(text: Seq<char>) -> nat
    decreases text.len(),
{
    if text.len() == 0 {
        0
    } else {
        (digits_value(text.drop_last()) * 10 + (text.last() as int - 0x30)) as nat
    }
}

/// The text after a leading plus sign.
pub open spec fn without_plus(text: Seq<char>) -> Seq<char> {
    if text.len() > 0 && text[0] == '+' {
        text.skip(1)
    } else {
        text
    }
}

/// The number that a text stands for: decimal digits, with a plus sign before them or not, up to
/// a limit.
pub open spec fn number_of(text: Seq<char>, limit: nat) -> Option<nat> {
    let body = without_plus(text);
    if body.len() > 0 && all_digits(body) && digits_value(body) <= limit {
        Some(digits_value(body))
    } else {
        None
    }
}

/// More digits make no smaller number.
proof fn digits_grow(text: Seq<char>, n: int)
    requires
        0 <= n <= text.len(),
        all_digits(text),
    ensures
        digits_value(text.take(n)) <= digits_value(text),
    decreases text.len() - n,
{
    if n < text.len() {
        digits_grow(text, n + 1);
        assert(text.take(n + 1).drop_last() =~= text.take(n));
        assert(is_digit(text[n]));
    } else {
        assert(text.take(n) =~= text);
    }
}

/// Reads a number.
pub fn parse_number(text: &str, limit: u64) -> (r: Option<u64>)
    ensures
        match r {
            Some(n) => number_of(text@, limit as nat) == Some(n as nat),
            None => number_of(text@, limit as nat) is None,
        },
{
    let chars = to_chars(text);
    let first: usize = if chars.len() > 0 && chars[0] == '+' {
        1
    } else {
        0
    };
    let ghost body = without_plus(text@);
    assert(body =~= chars@.skip(first as int));
    if first >= chars.len() {
        return None;
    }
    let mut total: u128 = 0;
    let mut i: usize = first;
    assert(body.take(0) =~= Seq::empty());
    while i < chars.len()
        invariant
            first <= i <= chars@.len(),
            body == chars@.skip(first as int),
            body == without_plus(text@),
            body.len() > 0,
            total == digits_value(body.take(i - first)),
            total <= limit,
            forall|j: int| 0 <= j < i - first ==> is_digit(#[trigger] body[j]),
        decreases chars@.len() - i,
    {
        let ghost at = i - first;
        assert(body[at] == chars@[i as int]);
        assert(body.take(at + 1).drop_last() =~= body.take(at));
        assert(body.take(at + 1).last() == body[at]);
        match digit_value(chars[i]) {
            None => {
                return None;
            },
            Some(d) => {
                total = total * 10 + d;
                if total > limit as u128 {
                    proof {
                        if all_digits(body) {
                            digits_grow(body, at + 1);
                        }
                    }
                    return None;
                }
            },
        }
        i = i + 1;
    }
    assert(body.take(i - first) =~= body);
    Some(total as u64)
}

/// Reads a number of 32 bits.
pub fn parse_u32(text: &str) -> (r: Option<u32>)
    ensures
        match r {
            Some(n) => number_of(text@, u32::MAX as nat) == Some(n as nat),
            None => number_of(text@, u32::MAX as nat) is None,
        },
{
    match parse_number(text, u32::MAX as u64) {
        Some(n) => Some(n as u32),
        None => None,
    }
}

/// Reads a size.
pub fn parse_usize(text: &str) -> (r: Option<usize>)
    ensures
        match r {
            Some(n) => number_of(text@, usize::MAX as nat) == Some(n as nat),
            None => number_of(text@, usize::MAX as nat) is None,
        },
{
    match parse_number(text, usize::MAX as u64) {
        Some(n) => Some(n as usize),
        None => None,
    }
}

pub open spec fn is_bracket(c: char) -> bool {
    c == '[' || c == ']'
}

/// The text without the square brackets at its beginning.
pub open spec fn unbracketed_start(text: Seq<char>) -> Seq<char>
    decreases text.len(),
{
    if text.len() > 0 && is_bracket(text[0]) {
        unbracketed_start(text.drop_first())
    } else {
        text
    }
}

/// The text without the square brackets at its end.
pub open spec fn unbracketed_end(text: Seq<char>) -> Seq<char>
    decreases text.len(),
{
    if text.len() > 0 && is_bracket(text.last()) {
        unbracketed_end(text.drop_last())
    } else {
        text
    }
}

fn unbracket(text: &str) -> (r: String)
    ensures
        r@ == unbracketed_end(unbracketed_start(text@)),
{
    let chars = to_chars(text);
    let total: usize = chars.len();
    let mut from: usize = 0;
    assert(chars@.skip(0) =~= chars@);
    while from < total && (chars[from] == '[' || chars[from] == ']')
        invariant
            from <= total == chars@.len(),
            unbracketed_start(text@) == unbracketed_start(chars@.skip(from as int)),
        decreases total - from,
    {
        assert(chars@.skip(from as int).drop_first() =~= chars@.skip(from + 1));
        from = from + 1;
    }
    let ghost start = chars@.skip(from as int);
    let mut to: usize = total;
    assert(chars@.subrange(from as int, total as int) =~= start);
    while to > from && (chars[to - 1] == '[' || chars[to - 1] == ']')
        invariant
            from <= to <= total == chars@.len(),
            unbracketed_end(start) == unbracketed_end(chars@.subrange(from as int, to as int)),
        decreases to,
    {
        assert(chars@.subrange(from as int, to as int).drop_last() =~= chars@.subrange(
            from as int,
            to - 1,
        ));
        to = to - 1;
    }
    from_chars(&chars, from, to)
}

/// The index that a piece of a list stands for.
pub open spec fn index_of(piece: Seq<char>) -> Option<u32> {
    match number_of(trimmed(piece), u32::MAX as nat) {
        Some(n) => Some(n as u32),
        None => None,
    }
}

/// The indexes that the first pieces stand for, where each of them stands for one.
pub open spec fn indexes_of(items: Seq<Seq<char>>) -> Option<Seq<u32>>
    decreases items.len(),
{
    if items.len() == 0 {
        Some(Seq::empty())
    } else {
        match (indexes_of(items.drop_last()), index_of(items.last())) {
            (Some(front), Some(last)) => Some(front.push(last)),
            _ => None,
        }
    }
}

/// The path that a text stands for: indexes with commas between them, in square brackets or not.
pub open spec fn path_of(text: Seq<char>) -> Option<Seq<u32>> {
    if blank(text) || trimmed(text) == "[]"@ {
        Some(Seq::empty())
    } else {
        indexes_of(pieces(unbracketed_end(unbracketed_start(text)), ','))
    }
}

/// One piece that stands for no index spoils the whole list.
proof fn indexes_fail(items: Seq<Seq<char>>, n: int)
    requires
        0 <= n <= items.len(),
        indexes_of(items.take(n)) is None,
    ensures
        indexes_of(items) is None,
    decreases items.len() - n,
{
    if n < items.len() {
        assert(items.take(n + 1).drop_last() =~= items.take(n));
        indexes_fail(items, n + 1);
    } else {
        assert(items.take(n) =~= items);
    }
}

/// Reads a path of child indexes.
pub fn parse_path_indexes(value: &str) -> (r: Option<Vec<u32>>)
    ensures
        opt_view(r) == path_of(value@),
{
    let outer = trim(value);
    if is_blank(value) || same_text(outer.as_str(), "[]") {
        let none: Vec<u32> = Vec::new();
        assert(none@ =~= Seq::empty());
        return Some(none);
    }
    let inner = unbracket(value);
    let parts = split(inner.as_str(), ',');
    let ghost all = texts(parts@);
    let mut out: Vec<u32> = Vec::new();
    let mut i: usize = 0;
    assert(all.take(0) =~= Seq::empty());
    assert(out@ =~= Seq::empty());
    while i < parts.len()
        invariant
            i <= parts@.len(),
            all == texts(parts@),
            all == pieces(unbracketed_end(unbracketed_start(value@)), ','),
            !(blank(value@) || trimmed(value@) == "[]"@),
            indexes_of(all.take(i as int)) == Some(out@),
        decreases parts@.len() - i,
    {
        let part = trim(parts[i].as_str());
        assert(all[i as int] == parts@[i as int]@);
        assert(all.take(i + 1).drop_last() =~= all.take(i as int));
        assert(all.take(i + 1).last() == all[i as int]);
        match parse_u32(part.as_str()) {
            Some(n) => out.push(n),
            None => {
                proof {
                    indexes_fail(all, i + 1);
                }
                return None;
            },
        }
        i = i + 1;
    }
    assert(all.take(i as int) =~= all);
    Some(out)
}

/// A digit is neither whitespace nor a sign nor a bracket.
proof fn digit_is_plain(n: nat)
    requires
        n < 10,
    ensures
        is_digit(digit(n)),
        digit(n) as int == 0x30 + n,
{
}

/// Decimal notation is read back.
pub proof fn decimal_is_read_back(n: nat, limit: nat)
    requires
        n <= limit,
    ensures
        number_of(decimal(n), limit) == Some(n),
{
    decimal_digits(n);
}

proof fn decimal_digits(n: nat)
    ensures
        decimal(n).len() > 0,
        all_digits(decimal(n)),
        digits_value(decimal(n)) == n,
        without_plus(decimal(n)) == decimal(n),
    decreases n,
{
    if n < 10 {
        digit_is_plain(n);
        assert(decimal(n).drop_last() =~= Seq::empty());
        assert(digits_value(decimal(n).drop_last()) == 0);
        assert(decimal(n).last() == digit(n));
        assert(is_digit(decimal(n)[0]));
    } else {
        decimal_digits(n / 10);
        digit_is_plain(n % 10);
        assert(decimal(n).drop_last() =~= decimal(n / 10));
        assert(is_digit(decimal(n)[0]));
    }
}

/// Digits have nothing to trim.
proof fn digits_stay(text: Seq<char>)
    requires
        text.len() > 0,
        is_digit(text[0]),
        is_digit(text.last()),
    ensures
        trimmed(text) == text,
        unbracketed_end(unbracketed_start(text)) == text,
{
}

/// What is joined with commas is taken apart again.
proof fn joined_pieces(items: Seq<Seq<char>>)
    requires
        items.len() > 0,
        forall|i: int, j: int|
            0 <= i < items.len() && 0 <= j < items[i].len() ==> #[trigger] items[i][j] != ',',
    ensures
        pieces(joined(items, ","@), ',') == items,
    decreases items.len(),
{
    reveal_strlit(",");
    if items.len() == 1 {
        one_piece(Seq::empty(), items[0]);
        assert(pieces(Seq::empty(), ',') == seq![Seq::<char>::empty()]);
        assert(Seq::<char>::empty() + items[0] =~= items[0]);
        assert(pieces(items[0], ',') =~= items);
    } else {
        let front = items.drop_last();
        assert forall|i: int, j: int|
            0 <= i < front.len() && 0 <= j < front[i].len() implies #[trigger] front[i][j] != ',' by {
            assert(items[i][j] != ',');
        }
        joined_pieces(front);
        let head = joined(front, ","@) + ","@;
        assert(head.drop_last() =~= joined(front, ","@));
        assert(head.last() == ',');
        one_piece(head, items.last());
        assert(pieces(head, ',') == front.push(Seq::empty()));
        assert(pieces(head, ',').last().len() == 0);
        assert(pieces(head, ',').drop_last() =~= front);
        assert(Seq::<char>::empty() + items.last() =~= items.last());
        assert(front.push(items.last()) =~= items);
    }
}

/// A text without a separator goes on with the last piece.
proof fn one_piece(head: Seq<char>, tail: Seq<char>)
    requires
        forall|j: int| 0 <= j < tail.len() ==> #[trigger] tail[j] != ',',
    ensures
        pieces(head + tail, ',') == pieces(head, ',').drop_last().push(
            pieces(head, ',').last() + tail,
        ),
    decreases tail.len(),
{
    pieces_exist(head, ',');
    let front = pieces(head, ',');
    if tail.len() == 0 {
        assert(head + tail =~= head);
        assert(front.last() + tail =~= front.last());
        assert(front.drop_last().push(front.last()) =~= front);
    } else {
        let shorter = tail.drop_last();
        assert forall|j: int| 0 <= j < shorter.len() implies #[trigger] shorter[j] != ',' by {
            assert(tail[j] != ',');
        }
        one_piece(head, shorter);
        assert((head + tail).drop_last() =~= head + shorter);
        assert((head + tail).last() == tail.last());
        let mid = pieces(head + shorter, ',');
        assert(mid.drop_last() =~= front.drop_last());
        assert(mid.last().push(tail.last()) =~= front.last() + tail);
    }
}

/// The ends of numbers that are joined with commas.
proof fn joined_ends(items: Seq<Seq<char>>)
    requires
        items.len() > 0,
        forall|i: int| 0 <= i < items.len() ==> (#[trigger] items[i]).len() > 0 && all_digits(items[i]),
    ensures
        joined(items, ","@).len() > 0,
        is_digit(joined(items, ","@)[0]),
        is_digit(joined(items, ","@).last()),
    decreases items.len(),
{
    if items.len() == 1 {
        assert(all_digits(items[0]));
    } else {
        let front = items.drop_last();
        assert forall|i: int| 0 <= i < front.len() implies (#[trigger] front[i]).len() > 0
            && all_digits(front[i]) by {
            assert(front[i] == items[i]);
        }
        joined_ends(front);
        assert(all_digits(items[items.len() - 1]));
        assert(joined(items, ","@)[0] == joined(front, ","@)[0]);
        assert(joined(items, ","@).last() == items.last().last());
    }
}

/// The indexes of decimal notations.
proof fn decimal_indexes(path: Seq<u32>)
    ensures
        indexes_of(path.map_values(|n: u32| decimal(n as nat))) == Some(path),
    decreases path.len(),
{
    let items = path.map_values(|n: u32| decimal(n as nat));
    if path.len() == 0 {
        assert(path =~= Seq::empty());
    } else {
        decimal_indexes(path.drop_last());
        assert(items.drop_last() =~= path.drop_last().map_values(|n: u32| decimal(n as nat)));
        let n = path.last() as nat;
        assert(items.last() == decimal(n));
        decimal_digits(n);
        digits_stay(decimal(n));
        decimal_is_read_back(n, u32::MAX as nat);
        assert(path.drop_last().push(path.last()) =~= path);
    }
}

/// A path is read back from the notation in which paths are shown.
pub proof fn shown_path_is_read_back(path: Seq<u32>)
    ensures
        path_of(path_text(path)) == Some(path),
{
    let items = path.map_values(|n: u32| decimal(n as nat));
    let inner = joined(items, ","@);
    let text = path_text(path);
    reveal_strlit("[");
    reveal_strlit("]");
    reveal_strlit("[]");
    assert(text[0] == '[');
    assert(text.last() == ']');
    assert(!is_space('['));
    assert(!is_space(']'));
    assert(trimmed(text) == text);
    assert(!blank(text));
    if path.len() == 0 {
        assert(inner =~= Seq::empty());
        assert(text =~= "[]"@);
        assert(path =~= Seq::empty());
    } else {
        assert forall|i: int| 0 <= i < items.len() implies (#[trigger] items[i]).len() > 0
            && all_digits(items[i]) by {
            decimal_digits(path[i] as nat);
        }
        assert forall|i: int, j: int|
            0 <= i < items.len() && 0 <= j < items[i].len() implies #[trigger] items[i][j] != ',' by {
            assert(all_digits(items[i]));
            assert(is_digit(items[i][j]));
        }
        joined_ends(items);
        joined_pieces(items);
        decimal_indexes(path);
        assert(text.len() > 2);
        assert(text.drop_first() =~= inner + "]"@);
        assert(unbracketed_start(text) == unbracketed_start(text.drop_first()));
        assert(text.drop_first()[0] == inner[0]);
        assert(unbracketed_start(text) == inner + "]"@);
        assert((inner + "]"@).drop_last() =~= inner);
        assert((inner + "]"@).last() == ']');
        assert(unbracketed_end(inner + "]"@) == unbracketed_end(inner));
        assert(unbracketed_end(inner) == inner);
    }
}

} // verus!
