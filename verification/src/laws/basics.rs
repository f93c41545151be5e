//! What the operations on texts, times and maps give.
use vstd::prelude::*;
use crate::collections::{lookup, TextMap};
use crate::laws::search::case_is_that_of_letters;
use crate::laws::texts::{
    joining_undoes_splitting, splitting_undoes_joining, trimming_takes_the_whitespace_around, white,
    worth,
};
use crate::laws::validity::written;
use crate::laws::windows::same_letters;
use crate::text::{
    contains, eq_ignore_ascii_case, format_i64, format_u64, is_before, is_blank, join, joined,
    replace_char, split, starts_with, strip_prefix, texts, trim,
};
use crate::time::Duration;

verus! {

/// Trimming a text gives what is between the whitespace at its ends.
pub proof fn trimming_gives_what_is_between(
    text: &str,
    r: String,
) -> (parts: (Seq<char>, Seq<char>))
    requires
        call_ensures(trim, (text,), r),
    ensures
        text@ == parts.0 + r@ + parts.1,
        forall|i: int| 0 <= i < parts.0.len() ==> white(#[trigger] parts.0[i]),
        forall|i: int| 0 <= i < parts.1.len() ==> white(#[trigger] parts.1[i]),
        r@.len() > 0 ==> !white(r@[0]) && !white(r@.last()),
{
    trimming_takes_the_whitespace_around(text@)
}

/// Splitting a text gives pieces without the separator; joined by the separator they are the text,
/// and joined by something else they are the text with the separator replaced.
pub proof fn splitting_gives_the_pieces(
    text: &str,
    separator: char,
    by: &str,
    r: Vec<String>,
    i: int,
    replaced: String,
)
    requires
        call_ensures(split, (text, separator), r),
        call_ensures(replace_char, (text, separator, by), replaced),
    ensures
        r@.len() > 0,
        0 <= i < r@.len() ==> !r@[i]@.contains(separator),
        joined(texts(r@), seq![separator]) == text@,
        joined(texts(r@), by@) == replaced@,
{
    joining_undoes_splitting(text@, separator);
    crate::laws::texts::replacing_joins_the_pieces(text@, separator, by@);
    if 0 <= i < r@.len() {
        assert(texts(r@)[i] == r@[i]@);
    }
}

/// Joining texts gives one that is split into them again, where none of them holds the separator.
pub proof fn joining_gives_what_is_split_again(
    items: &Vec<String>,
    separator: &str,
    c: char,
    r: String,
    again: Vec<String>,
    whole: &str,
)
    requires
        call_ensures(join, (items, separator), r),
        separator@ == seq![c],
        whole@ == r@,
        call_ensures(split, (whole, c), again),
        items@.len() > 0,
        forall|i: int| 0 <= i < items@.len() ==> !(#[trigger] items@[i])@.contains(c),
    ensures
        texts(again@) == texts(items@),
{
    let all = texts(items@);
    assert forall|i: int| 0 <= i < all.len() implies !(#[trigger] all[i]).contains(c) by {
        assert(all[i] == items@[i]@);
    }
    splitting_undoes_joining(all, c);
}

/// A text holds what stands between two others in it, begins with what comes first, and loses that
/// once where it is taken off.
pub proof fn parts_are_found(
    text: &str,
    part: &str,
    left: Seq<char>,
    right: Seq<char>,
    held: bool,
    begun: bool,
    rest: String,
)
    requires
        call_ensures(contains, (text, part), held),
        call_ensures(starts_with, (text, part), begun),
        call_ensures(strip_prefix, (text, part), rest),
    ensures
        text@ == left + part@ + right ==> held,
        held ==> exists|at: int|
            0 <= at <= text@.len() - part@.len() && text@ == #[trigger] text@.take(at) + part@
                + text@.skip(at + part@.len()),
        text@ == part@ + right ==> begun && rest@ == right,
        begun ==> text@ == part@ + rest@,
        !begun ==> rest@ == text@,
        begun ==> held,
{
    crate::laws::texts::parts_have_something_around(text@, part@, left, right);
    crate::laws::texts::prefixes_come_off(text@, part@, right);
    if text@ == part@ + right {
        assert(text@.subrange(0, part@.len() as int) =~= part@);
    }
    if begun {
        assert(text@ =~= part@ + text@.skip(part@.len() as int));
        crate::laws::texts::parts_have_something_around(text@, part@, Seq::empty(), rest@);
        assert(Seq::<char>::empty() + part@ + rest@ =~= text@);
    }
}

/// Texts are compared letter by letter, whatever the case; a text is blank where nothing is written
/// in it.
pub proof fn texts_are_compared(a: &str, b: &str, same: bool, blank: bool)
    requires
        call_ensures(eq_ignore_ascii_case, (a, b), same),
        call_ensures(is_blank, (a,), blank),
    ensures
        same <==> same_letters(a@, b@),
        blank <==> !written(a@),
{
    case_is_that_of_letters(a@, b@);
    crate::laws::validity::blanks_are_not_written(a@);
}

/// One text comes before another, or the other before it, or they are the same.
pub proof fn texts_have_an_order(a: &str, b: &str, below: bool, above: bool)
    requires
        call_ensures(is_before, (a, b), below),
        call_ensures(is_before, (b, a), above),
    ensures
        below || above || a@ == b@,
        a@ == b@ ==> !below && !above,
        !(below && above),
{
    crate::text::before_total(a@, b@);
    crate::text::before_irreflexive(a@);
    if below && above {
        crate::text::before_transitive(a@, b@, a@);
    }
}

/// Numbers are written in digits that are worth them, with a sign where they are negative.
pub proof fn numbers_are_written_in_digits(n: u64, m: i64, shown: String, signed: String)
    requires
        call_ensures(format_u64, (n,), shown),
        call_ensures(format_i64, (m,), signed),
    ensures
        worth(shown@) == n,
        m >= 0 ==> worth(signed@) == m,
        m < 0 ==> signed@.len() > 0 && signed@[0] == '-' && worth(signed@.skip(1)) == -m,
{
    crate::laws::texts::digits_are_worth_the_number(n as nat);
    if m >= 0 {
        crate::laws::texts::digits_are_worth_the_number(m as nat);
    } else {
        crate::laws::texts::digits_are_worth_the_number((-m) as nat);
        assert(signed@.skip(1) =~= crate::text::decimal((-m) as nat));
    }
}

/// Lengths of time are counted in nanoseconds.
pub proof fn times_are_counted(
    a: Duration,
    b: Duration,
    millis: u64,
    secs: u64,
    left: Duration,
    long: Duration,
    short: Duration,
    from_millis: Duration,
    from_secs: Duration,
    whole: u128,
)
    requires
        call_ensures(Duration::saturating_sub, (a, b), left),
        call_ensures(Duration::longer, (a, b), long),
        call_ensures(Duration::shorter, (a, b), short),
        call_ensures(Duration::from_millis, (millis,), from_millis),
        call_ensures(Duration::from_secs, (secs,), from_secs),
        call_ensures(Duration::as_millis, (&a,), whole),
    ensures
        a.nanos >= b.nanos ==> left.nanos + b.nanos == a.nanos,
        a.nanos < b.nanos ==> left.nanos == 0,
        long.nanos >= a.nanos && long.nanos >= b.nanos && (long == a || long == b),
        short.nanos <= a.nanos && short.nanos <= b.nanos && (short == a || short == b),
        from_millis.nanos == millis * 1_000_000,
        from_secs.nanos == secs * 1_000_000_000,
        whole * 1_000_000 <= a.nanos < (whole + 1) * 1_000_000,
{
}

/// A map gives what was last bound to a key, and what it gives for another key stays.
pub proof fn maps_give_what_was_bound<V>(
    map: TextMap<V>,
    after: TextMap<V>,
    key: String,
    value: V,
    other: &str,
    got: Option<&V>,
)
    requires
        after@ == crate::collections::put(map@, key@, value),
        crate::collections::ascending(map@),
        call_ensures(TextMap::<V>::get, (&after, other), got),
    ensures
        other@ == key@ ==> got is Some && *got->0 == value,
        other@ != key@ && lookup(map@, other@) is Some ==> got is Some && *got->0 == lookup(
            map@,
            other@,
        )->0,
        other@ != key@ && lookup(map@, other@) is None ==> got is None,
{
    crate::collections::put_lookup(map@, key@, value, other@);
}

} // verus!
