//! What the operations on texts come to.
use vstd::prelude::*;
use crate::text::{
    before, contains_text, decimal, decimal_int, is_space_char, joined, occurs_at, pieces,
    pieces_exist, replaced, trimmed, trimmed_end, trimmed_start, without_prefix,
};
use crate::windows::titles::{normalize_window_title, normalized, separates, words};

verus! {

/// A character that shows as blank space.
pub open spec fn white(c: char) -> bool {
    let n = c as u32;
    ||| c == ' ' || c == '\t' || c == '\n' || c == '\r'
    ||| n == 11 || n == 12 || n == 133 || n == 160 || n == 5760
    ||| 8192 <= n <= 8202
    ||| n == 8232 || n == 8233 || n == 8239 || n == 8287 || n == 12288
}

/// A character that shows nothing.
pub open spec fn unseen(c: char) -> bool {
    c as u32 == 8203 || c as u32 == 8204 || c as u32 == 8205 || c as u32 == 65279
}

/// Whitespace is what shows as blank space.
pub proof fn spaces_are_white(c: char, r: bool)
    requires
        call_ensures(is_space_char, (c,), r),
    ensures
        r <==> white(c),
{
}

pub proof fn blank_is_known(c: char)
    ensures
        crate::text::is_space(c) <==> white(c),
        separates(c) <==> white(c) || unseen(c),
{
}

proof fn blanks_are_known()
    ensures
        forall|c: char| #[trigger] crate::text::is_space(c) <==> white(c),
        forall|c: char| #[trigger] separates(c) <==> white(c) || unseen(c),
{
    assert forall|c: char| #[trigger] crate::text::is_space(c) <==> white(c) by {
        blank_is_known(c);
    }
    assert forall|c: char| #[trigger] separates(c) <==> white(c) || unseen(c) by {
        blank_is_known(c);
    }
}

proof fn start_trimmed(text: Seq<char>)
    ensures
        ({
            let rest = trimmed_start(text);
            let n = text.len() - rest.len();
            &&& 0 <= n
            &&& text == text.take(n) + rest
            &&& forall|i: int| 0 <= i < n ==> white(#[trigger] text[i])
            &&& rest.len() > 0 ==> !white(rest[0])
        }),
    decreases text.len(),
{
    blanks_are_known();
    if text.len() > 0 && crate::text::is_space(text[0]) {
        let tail = text.drop_first();
        start_trimmed(tail);
        let rest = trimmed_start(text);
        let n = text.len() - rest.len();
        assert(text =~= text.take(n) + rest) by {
            assert(tail == tail.take(n - 1) + rest);
            assert forall|i: int| n <= i < text.len() implies text[i] == rest[i - n] by {
                assert(tail[i - 1] == (tail.take(n - 1) + rest)[i - 1]);
            }
        }
        assert forall|i: int| 0 <= i < n implies white(#[trigger] text[i]) by {
            if i > 0 {
                assert(tail[i - 1] == text[i]);
            }
        }
    } else {
        assert(text =~= text.take(0) + text);
    }
}

proof fn end_trimmed(text: Seq<char>)
    ensures
        ({
            let rest = trimmed_end(text);
            let n = rest.len() as int;
            &&& n <= text.len()
            &&& rest == text.take(n)
            &&& forall|i: int| n <= i < text.len() ==> white(#[trigger] text[i])
            &&& rest.len() > 0 ==> !white(rest.last())
        }),
    decreases text.len(),
{
    blanks_are_known();
    if text.len() > 0 && crate::text::is_space(text.last()) {
        let front = text.drop_last();
        end_trimmed(front);
        let n = trimmed_end(front).len() as int;
        assert(front.take(n) =~= text.take(n));
        assert forall|i: int| n <= i < text.len() implies white(#[trigger] text[i]) by {
            if i < front.len() {
                assert(front[i] == text[i]);
            }
        }
    } else {
        assert(text =~= text.take(text.len() as int));
    }
}

/// A text is what is left of it once it is trimmed, with nothing but whitespace around; and what is
/// left neither begins nor ends with whitespace.
pub proof fn trimming_takes_the_whitespace_around(
    text: Seq<char>,
) -> (parts: (Seq<char>, Seq<char>))
    ensures
        text == parts.0 + trimmed(text) + parts.1,
        forall|i: int| 0 <= i < parts.0.len() ==> white(#[trigger] parts.0[i]),
        forall|i: int| 0 <= i < parts.1.len() ==> white(#[trigger] parts.1[i]),
        trimmed(text).len() > 0 ==> !white(trimmed(text)[0]) && !white(trimmed(text).last()),
{
    start_trimmed(text);
    let rest = trimmed_start(text);
    end_trimmed(rest);
    let left = text.take(text.len() - rest.len());
    let right = rest.skip(trimmed(text).len() as int);
    assert(rest =~= trimmed(text) + right);
    assert(text =~= left + trimmed(text) + right);
    assert forall|i: int| 0 <= i < right.len() implies white(#[trigger] right[i]) by {
        assert(right[i] == rest[trimmed(text).len() + i]);
    }
    (left, right)
}

proof fn joined_more(items: Seq<Seq<char>>, last: Seq<char>, separator: Seq<char>)
    requires
        items.len() > 0,
    ensures
        joined(items.push(last), separator) == joined(items, separator) + separator + last,
{
    assert(items.push(last).drop_last() =~= items);
}

/// The pieces of a text, with the separator between each two, are the text again.
pub proof fn joining_undoes_splitting(text: Seq<char>, separator: char)
    ensures
        joined(pieces(text, separator), seq![separator]) == text,
        forall|i: int|
            0 <= i < pieces(text, separator).len() ==> !(#[trigger] pieces(
                text,
                separator,
            )[i]).contains(separator),
    decreases text.len(),
{
    let all = pieces(text, separator);
    pieces_exist(text, separator);
    if text.len() == 0 {
        assert(joined(all, seq![separator]) =~= text);
    } else {
        let front = pieces(text.drop_last(), separator);
        pieces_exist(text.drop_last(), separator);
        joining_undoes_splitting(text.drop_last(), separator);
        assert(text =~= text.drop_last().push(text.last()));
        if text.last() == separator {
            joined_more(front, Seq::empty(), seq![separator]);
            assert(joined(all, seq![separator]) =~= text);
        } else {
            let grown = front.last().push(text.last());
            assert(!grown.contains(separator)) by {
                if grown.contains(separator) {
                    let k = choose|k: int| 0 <= k < grown.len() && grown[k] == separator;
                    assert(front.last()[k] == separator);
                }
            }
            if front.len() == 1 {
                assert(all =~= seq![grown]);
                assert(joined(all, seq![separator]) =~= text);
            } else {
                joined_more(front.drop_last(), grown, seq![separator]);
                joined_more(front.drop_last(), front.last(), seq![separator]);
                assert(front.drop_last().push(front.last()) =~= front);
                let most = joined(front.drop_last(), seq![separator]) + seq![separator];
                assert(most + grown =~= (most + front.last()).push(text.last()));
            }
        }
    }
}

/// Texts that do not hold the separator are the pieces of what they are joined to.
pub proof fn splitting_undoes_joining(items: Seq<Seq<char>>, separator: char)
    requires
        items.len() > 0,
        forall|i: int| 0 <= i < items.len() ==> !(#[trigger] items[i]).contains(separator),
    ensures
        pieces(joined(items, seq![separator]), separator) == items,
    decreases items.len(),
{
    let last = items.last();
    if items.len() == 1 {
        piece_grows(Seq::empty(), last, separator);
        assert(Seq::<char>::empty() + last =~= last);
        assert(items =~= seq![last]);
        assert(seq![Seq::<char>::empty()].drop_last().push(Seq::<char>::empty() + last) =~= seq![
            last,
        ]);
    } else {
        let front = items.drop_last();
        splitting_undoes_joining(front, separator);
        let text = joined(front, seq![separator]);
        let open = text + seq![separator];
        assert(open.drop_last() =~= text);
        assert(pieces(open, separator) == front.push(Seq::empty()));
        piece_grows(open, last, separator);
        assert(front.push(Seq::<char>::empty()).drop_last() =~= front);
        assert(Seq::<char>::empty() + last =~= last);
        assert(items =~= front.push(last));
        assert(joined(items, seq![separator]) == open + last);
    }
}

proof fn piece_grows(text: Seq<char>, more: Seq<char>, separator: char)
    requires
        !more.contains(separator),
    ensures
        ({
            let front = pieces(text, separator);
            &&& front.len() > 0
            &&& pieces(text + more, separator) == front.drop_last().push(front.last() + more)
        }),
    decreases more.len(),
{
    pieces_exist(text, separator);
    let front = pieces(text, separator);
    if more.len() == 0 {
        assert(text + more =~= text);
        assert(front.last() + more =~= front.last());
        assert(front =~= front.drop_last().push(front.last()));
    } else {
        let less = more.drop_last();
        assert(!less.contains(separator)) by {
            if less.contains(separator) {
                let k = choose|k: int| 0 <= k < less.len() && less[k] == separator;
                assert(more[k] == separator);
            }
        }
        assert(more[more.len() - 1] == more.last());
        assert(more.contains(more.last()));
        piece_grows(text, less, separator);
        assert((text + more).drop_last() =~= text + less);
        assert((text + more).last() == more.last());
        let sofar = front.drop_last().push(front.last() + less);
        assert(sofar.drop_last() =~= front.drop_last());
        assert((front.last() + less).push(more.last()) =~= front.last() + more);
    }
}

/// Replacing a character is to join the pieces between its places by what replaces it.
pub proof fn replacing_joins_the_pieces(text: Seq<char>, c: char, by: Seq<char>)
    ensures
        replaced(text, c, by) == joined(pieces(text, c), by),
    decreases text.len(),
{
    let all = pieces(text, c);
    pieces_exist(text, c);
    if text.len() > 0 {
        let front = pieces(text.drop_last(), c);
        pieces_exist(text.drop_last(), c);
        replacing_joins_the_pieces(text.drop_last(), c, by);
        if text.last() == c {
            joined_more(front, Seq::empty(), by);
            assert(joined(all, by) =~= replaced(text, c, by));
        } else {
            let grown = front.last().push(text.last());
            if front.len() == 1 {
                assert(all =~= seq![grown]);
                assert(joined(all, by) =~= replaced(text, c, by));
            } else {
                joined_more(front.drop_last(), grown, by);
                joined_more(front.drop_last(), front.last(), by);
                assert(front.drop_last().push(front.last()) =~= front);
                assert(joined(all, by) =~= replaced(text, c, by));
            }
        }
    }
}

/// A text holds a part exactly where it is that part with something before and behind it.
pub proof fn parts_have_something_around(
    text: Seq<char>,
    part: Seq<char>,
    left: Seq<char>,
    right: Seq<char>,
)
    ensures
        contains_text(left + part + right, part),
        contains_text(text, part) ==> exists|at: int|
            0 <= at <= text.len() - part.len() && text == #[trigger] text.take(at) + part
                + text.skip(at + part.len()),
        contains_text(text, part) ==> part.len() <= text.len(),
{
    assert((left + part + right).subrange(left.len() as int, (left.len() + part.len()) as int)
        =~= part);
    assert(occurs_at(left + part + right, part, left.len() as int));
    if contains_text(text, part) {
        let at = choose|at: int| #[trigger] occurs_at(text, part, at);
        assert(text =~= text.take(at) + part + text.skip(at + part.len()));
    }
}

/// A prefix is taken off once, and a text that does not begin with it stays.
pub proof fn prefixes_come_off(text: Seq<char>, part: Seq<char>, rest: Seq<char>)
    ensures
        without_prefix(part + rest, part) == rest,
        text.len() < part.len() || text.take(part.len() as int) != part ==> without_prefix(
            text,
            part,
        ) == text,
{
    assert((part + rest).subrange(0, part.len() as int) =~= part);
    assert((part + rest).skip(part.len() as int) =~= rest);
    if text.len() >= part.len() {
        assert(text.subrange(0, part.len() as int) =~= text.take(part.len() as int));
    }
}

/// Texts are ordered by the first character in which they differ, and a text comes before one that
/// goes on where it ends.
pub proof fn texts_are_ordered_by_their_first_difference(
    same: Seq<char>,
    a: char,
    b: char,
    left: Seq<char>,
    right: Seq<char>,
)
    ensures
        (a as int) < (b as int) ==> before(same + seq![a] + left, same + seq![b] + right),
        (a as int) < (b as int) ==> !before(same + seq![b] + left, same + seq![a] + right),
        before(same, same + seq![b] + right),
        !before(same + seq![b] + right, same),
    decreases same.len(),
{
    if same.len() > 0 {
        let less = same.drop_first();
        texts_are_ordered_by_their_first_difference(less, a, b, left, right);
        assert((same + seq![a] + left).drop_first() =~= less + seq![a] + left);
        assert((same + seq![b] + right).drop_first() =~= less + seq![b] + right);
        assert((same + seq![b] + left).drop_first() =~= less + seq![b] + left);
        assert((same + seq![a] + right).drop_first() =~= less + seq![a] + right);
    } else {
        assert((same + seq![a] + left)[0] == a);
        assert((same + seq![b] + right)[0] == b);
        assert((same + seq![b] + left)[0] == b);
        assert((same + seq![a] + right)[0] == a);
    }
}

/// What a row of digits is worth.
pub open spec fn worth(digits: Seq<char>) -> int
    decreases digits.len(),
{
    if digits.len() == 0 {
        0
    } else {
        10 * worth(digits.drop_last()) + (digits.last() as int - '0' as int)
    }
}

/// Numbers are written in digits that are worth the number, with no zero in front of others.
pub proof fn digits_are_worth_the_number(n: nat)
    ensures
        worth(decimal(n)) == n,
        decimal(n).len() > 0,
        forall|i: int| 0 <= i < decimal(n).len() ==> '0' <= #[trigger] decimal(n)[i] <= '9',
        n > 0 ==> decimal(n)[0] != '0',
        n == 0 ==> decimal(n) == seq!['0'],
        n > 0 ==> decimal_int(-n) == seq!['-'] + decimal(n),
        decimal_int(n as int) == decimal(n),
    decreases n,
{
    if n < 10 {
        assert(decimal(n).drop_last() =~= Seq::empty());
        assert(worth(Seq::empty()) == 0);
        assert(decimal(n).last() as int == 48 + n);
    } else {
        digits_are_worth_the_number(n / 10);
        assert(decimal(n).drop_last() =~= decimal(n / 10));
        assert(decimal(n).last() as int == 48 + n % 10);
        assert(decimal(n)[0] == decimal(n / 10)[0]);
    }
}

/// What stands between the words of a title.
pub open spec fn gap(text: Seq<char>) -> bool {
    forall|i: int| 0 <= i < text.len() ==> white(#[trigger] text[i]) || unseen(text[i])
}

/// A word of a title.
pub open spec fn a_word(text: Seq<char>) -> bool {
    text.len() > 0 && forall|i: int|
        0 <= i < text.len() ==> !(white(#[trigger] text[i]) || unseen(text[i]))
}

/// Words with something behind each.
pub open spec fn spaced(items: Seq<Seq<char>>, gaps: Seq<Seq<char>>) -> Seq<char>
    decreases items.len(),
{
    if items.len() == 0 {
        Seq::empty()
    } else {
        spaced(items.drop_last(), gaps.drop_last()) + items.last() + gaps.last()
    }
}

proof fn gaps_add_nothing(text: Seq<char>, more: Seq<char>)
    requires
        gap(more),
    ensures
        words(text + more) == words(text),
    decreases more.len(),
{
    blanks_are_known();
    if more.len() == 0 {
        assert(text + more =~= text);
    } else {
        let less = more.drop_last();
        assert forall|i: int| 0 <= i < less.len() implies white(#[trigger] less[i]) || unseen(
            less[i],
        ) by {
            assert(less[i] == more[i]);
        }
        gaps_add_nothing(text, less);
        assert((text + more).drop_last() =~= text + less);
        assert((text + more).last() == more[more.len() - 1]);
        assert(separates((text + more).last()));
    }
}

proof fn words_add_one(text: Seq<char>, more: Seq<char>)
    requires
        a_word(more),
        text.len() > 0 ==> white(text.last()) || unseen(text.last()),
    ensures
        words(text + more) == words(text).push(more),
    decreases more.len(),
{
    blanks_are_known();
    let less = more.drop_last();
    let last = more[more.len() - 1];
    assert((text + more).drop_last() =~= text + less);
    assert((text + more).last() == last);
    assert(!separates(last));
    if less.len() == 0 {
        assert(text + less =~= text);
        assert(more =~= seq![last]);
    } else {
        assert forall|i: int| 0 <= i < less.len() implies !(white(#[trigger] less[i]) || unseen(
            less[i],
        )) by {
            assert(less[i] == more[i]);
        }
        words_add_one(text, less);
        assert((text + less).last() == less[less.len() - 1]);
        assert(!separates((text + less).last()));
        assert(words(text).push(less).drop_last() =~= words(text));
        assert(less.push(last) =~= more);
    }
}

proof fn words_of_spaced(lead: Seq<char>, items: Seq<Seq<char>>, gaps: Seq<Seq<char>>)
    requires
        gap(lead),
        items.len() == gaps.len(),
        forall|i: int| 0 <= i < items.len() ==> a_word(#[trigger] items[i]),
        forall|i: int| 0 <= i < gaps.len() ==> gap(#[trigger] gaps[i]),
        forall|i: int| 0 <= i < gaps.len() - 1 ==> (#[trigger] gaps[i]).len() > 0,
    ensures
        words(lead + spaced(items, gaps)) == items,
    decreases items.len(),
{
    if items.len() == 0 {
        gaps_add_nothing(Seq::empty(), lead);
        assert(Seq::<char>::empty() + lead =~= lead);
        assert(lead + spaced(items, gaps) =~= lead);
        assert(items =~= Seq::empty());
    } else {
        let less = items.drop_last();
        let fewer = gaps.drop_last();
        assert forall|i: int| 0 <= i < less.len() implies a_word(#[trigger] less[i]) by {
            assert(less[i] == items[i]);
        }
        assert forall|i: int| 0 <= i < fewer.len() implies gap(#[trigger] fewer[i]) by {
            assert(fewer[i] == gaps[i]);
        }
        assert forall|i: int| 0 <= i < fewer.len() - 1 implies (#[trigger] fewer[i]).len()
            > 0 by {
            assert(fewer[i] == gaps[i]);
        }
        words_of_spaced(lead, less, fewer);
        let text = lead + spaced(less, fewer);
        let word = items[items.len() - 1];
        let behind = gaps[gaps.len() - 1];
        assert(a_word(word) && gap(behind));
        if less.len() > 0 {
            let end = gaps[gaps.len() - 2];
            assert(gap(end) && end.len() > 0);
            assert(fewer.last() == end);
            assert(text.last() == end[end.len() - 1]);
        } else if text.len() > 0 {
            assert(text =~= lead);
            assert(text.last() == lead[lead.len() - 1]);
        }
        words_add_one(text, word);
        gaps_add_nothing(text + word, behind);
        assert(lead + spaced(items, gaps) =~= text + word + behind);
        assert(items =~= less.push(word));
    }
}

/// A title is told by its words: with one space between each two of them, and none at the ends,
/// whatever blank or unseen characters stood there.
pub proof fn titles_are_told_by_their_words(
    title: &str,
    lead: Seq<char>,
    items: Seq<Seq<char>>,
    gaps: Seq<Seq<char>>,
    told: String,
)
    requires
        call_ensures(normalize_window_title, (title,), told),
        title@ == lead + spaced(items, gaps),
        gap(lead),
        items.len() == gaps.len(),
        forall|i: int| 0 <= i < items.len() ==> a_word(#[trigger] items[i]),
        forall|i: int| 0 <= i < gaps.len() ==> gap(#[trigger] gaps[i]),
        forall|i: int| 0 <= i < gaps.len() - 1 ==> (#[trigger] gaps[i]).len() > 0,
    ensures
        told@ == joined(items, seq![' ']),
        told@ == normalized(title@),
{
    words_of_spaced(lead, items, gaps);
    reveal_strlit(" ");
    assert(" "@ =~= seq![' ']);
}

/// Joining texts puts the separator between each two of them, and nowhere else.
pub proof fn joining_puts_separators_between(
    items: Seq<Seq<char>>,
    last: Seq<char>,
    separator: Seq<char>,
)
    ensures
        joined(Seq::empty(), separator) == Seq::<char>::empty(),
        joined(seq![last], separator) == last,
        items.len() > 0 ==> joined(items.push(last), separator) == joined(items, separator)
            + separator + last,
{
    if items.len() > 0 {
        joined_more(items, last, separator);
    }
}

} // verus!
