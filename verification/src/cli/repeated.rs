//! Finding a key that an object of a JSON text names twice.
use vstd::prelude::*;
use crate::text::{from_chars, same_text, texts, to_chars};
use crate::value::{json_of_text, parse_json, Json, Tree};

verus! {

/// How long a text in quotes is that begins here, from where on `at` characters belong to it: up to
/// the next quote that no backslash precedes.
pub open spec fn quoted_length(text: Seq<char>, at: int) -> int
    decreases text.len() + 2 - at,
{
    if at >= text.len() {
        text.len() as int
    } else if text[at] == '"' {
        at + 1
    } else if text[at] == '\\' {
        quoted_length(text, at + 2)
    } else {
        quoted_length(text, at + 1)
    }
}

/// Whether a colon comes next, after blanks.
pub open spec fn colon_next(text: Seq<char>) -> bool
    decreases text.len(),
{
    text.len() > 0 && (text[0] == ':' || (json_blank(text[0]) && colon_next(text.drop_first())))
}

/// The blanks of JSON.
pub open spec fn json_blank(c: char) -> bool {
    c == ' ' || c == '\t' || c == '\n' || c == '\r'
}

/// The key that a text in quotes denotes.
pub open spec fn key_of(quoted: Seq<char>) -> Seq<char> {
    match json_of_text(quoted) {
        Ok(Tree::Text(key)) => key,
        _ => quoted,
    }
}

/// Whether an object names a key twice in what is left of a JSON text. `open` holds the keys so far
/// of each object that has begun and not ended, the innermost last.
pub open spec fn names_twice(text: Seq<char>, open: Seq<Seq<Seq<char>>>) -> bool
    decreases text.len(),
{
    if text.len() == 0 {
        false
    } else if text[0] == '{' {
        names_twice(text.drop_first(), open.push(Seq::empty()))
    } else if text[0] == '}' {
        names_twice(
            text.drop_first(),
            if open.len() > 0 {
                open.drop_last()
            } else {
                open
            },
        )
    } else if text[0] == '"' {
        let n = quoted_length(text, 1);
        let key = key_of(text.take(n));
        let rest = text.skip(n);
        if !(0 < n <= text.len()) {
            false
        } else if open.len() > 0 && colon_next(rest) {
            open.last().contains(key) || names_twice(
                rest,
                open.drop_last().push(open.last().push(key)),
            )
        } else {
            names_twice(rest, open)
        }
    } else {
        names_twice(text.drop_first(), open)
    }
}

proof fn quoted_fits(text: Seq<char>, at: int)
    requires
        0 <= at,
        text.len() > 0,
    ensures
        0 < quoted_length(text, at) <= text.len(),
        at < text.len() ==> at < quoted_length(text, at),
    decreases text.len() + 2 - at,
{
    if at < text.len() && text[at] != '"' {
        if text[at] == '\\' {
            quoted_fits(text, at + 2);
        } else {
            quoted_fits(text, at + 1);
        }
    }
}

/// A text in quotes is as long in what is left of a text as it is in the text.
proof fn quoted_in_rest(text: Seq<char>, from: int, at: int)
    requires
        0 <= from <= at,
    ensures
        from <= text.len() ==> quoted_length(text.skip(from), at - from) == quoted_length(text, at)
            - from,
    decreases text.len() + 2 - at,
{
    if from <= text.len() && at < text.len() && text[at] != '"' {
        if text[at] == '\\' {
            quoted_in_rest(text, from, at + 2);
        } else {
            quoted_in_rest(text, from, at + 1);
        }
    }
}

fn quoted_end(chars: &Vec<char>, from: usize) -> (r: usize)
    requires
        from < chars@.len(),
    ensures
        from < r <= chars@.len(),
        r - from == quoted_length(chars@.skip(from as int), 1),
{
    let total: usize = chars.len();
    let mut at: usize = from + 1;
    proof {
        quoted_fits(chars@.skip(from as int), 1);
        quoted_in_rest(chars@, from as int, from + 1);
    }
    while at < total && chars[at] != '"'
        invariant
            from < at <= total,
            total == chars@.len(),
            quoted_length(chars@, at as int) == quoted_length(chars@, from + 1),
        decreases total - at,
    {
        if chars[at] == '\\' {
            proof {
                assert(quoted_length(chars@, at as int) == quoted_length(chars@, at + 2));
                assert(quoted_length(chars@, total as int) == total);
                assert(at + 2 >= total ==> quoted_length(chars@, at + 2) == total);
            }
            at = if total - at <= 2 {
                total
            } else {
                at + 2
            };
        } else {
            at = at + 1;
        }
    }
    if at < total {
        at + 1
    } else {
        total
    }
}

fn colon_follows(chars: &Vec<char>, from: usize) -> (r: bool)
    requires
        from <= chars@.len(),
    ensures
        r == colon_next(chars@.skip(from as int)),
{
    let mut at: usize = from;
    while at < chars.len()
        invariant
            from <= at <= chars@.len(),
            colon_next(chars@.skip(from as int)) == colon_next(chars@.skip(at as int)),
        decreases chars@.len() - at,
    {
        let c = chars[at];
        assert(chars@.skip(at as int)[0] == c);
        assert(chars@.skip(at as int).drop_first() =~= chars@.skip(at + 1));
        if c == ':' {
            return true;
        }
        if !(c == ' ' || c == '\t' || c == '\n' || c == '\r') {
            return false;
        }
        at = at + 1;
    }
    false
}

fn read_key(quoted: String) -> (r: String)
    ensures
        r@ == key_of(quoted@),
{
    match parse_json(quoted.as_str()) {
        Ok(Json::String(key)) => key,
        _ => quoted,
    }
}

fn holds(keys: &Vec<String>, key: &str) -> (r: bool)
    ensures
        r == texts(keys@).contains(key@),
{
    let mut i: usize = 0;
    while i < keys.len()
        invariant
            i <= keys@.len(),
            forall|j: int| 0 <= j < i ==> (#[trigger] texts(keys@)[j]) != key@,
        decreases keys@.len() - i,
    {
        if same_text(keys[i].as_str(), key) {
            assert(texts(keys@)[i as int] == key@);
            return true;
        }
        i = i + 1;
    }
    false
}

/// The keys of each list.
pub open spec fn key_lists(open: Seq<Vec<String>>) -> Seq<Seq<Seq<char>>> {
    open.map_values(|keys: Vec<String>| texts(keys@))
}

/// Whether an object of a JSON text names a key twice.
pub fn repeats_a_key(text: &str) -> (r: bool)
    ensures
        r == names_twice(text@, Seq::empty()),
{
    let chars = to_chars(text);
    let total: usize = chars.len();
    let mut open: Vec<Vec<String>> = Vec::new();
    let mut i: usize = 0;
    proof {
        assert(chars@.skip(0) =~= chars@);
        assert(key_lists(open@) =~= Seq::empty());
    }
    while i < total
        invariant
            i <= total == chars@.len(),
            chars@ == text@,
            names_twice(text@, Seq::empty()) == names_twice(
                chars@.skip(i as int),
                key_lists(open@),
            ),
        decreases total - i,
    {
        let ghost rest = chars@.skip(i as int);
        let ghost lists = key_lists(open@);
        let c = chars[i];
        proof {
            assert(rest[0] == c);
            assert(rest.drop_first() =~= chars@.skip(i + 1));
        }
        if c == '{' {
            let none: Vec<String> = Vec::new();
            assert(texts(none@) =~= Seq::empty());
            open.push(none);
            assert(key_lists(open@) =~= lists.push(Seq::empty()));
            i = i + 1;
        } else if c == '}' {
            if open.len() > 0 {
                let _ = open.pop();
                assert(key_lists(open@) =~= lists.drop_last());
            }
            i = i + 1;
        } else if c == '"' {
            let end = quoted_end(&chars, i);
            proof {
                assert(rest.take(end - i) =~= chars@.subrange(i as int, end as int));
                assert(rest.skip(end - i) =~= chars@.skip(end as int));
            }
            if open.len() > 0 && colon_follows(&chars, end) {
                let key = read_key(from_chars(&chars, i, end));
                if let Some(mut keys) = open.pop() {
                    let ghost before = texts(keys@);
                    let ghost added = key@;
                    assert(lists.last() == before);
                    if holds(&keys, key.as_str()) {
                        return true;
                    }
                    keys.push(key);
                    proof {
                        assert(texts(keys@) =~= before.push(added));
                        assert(key_lists(open@) =~= lists.drop_last());
                    }
                    open.push(keys);
                    assert(key_lists(open@) =~= lists.drop_last().push(before.push(added)));
                }
            }
            i = end;
        } else {
            i = i + 1;
        }
    }
    assert(chars@.skip(i as int).len() == 0);
    false
}

} // verus!
