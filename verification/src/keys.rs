//! Key chords: a key and the modifiers held while it is pressed.
use vstd::prelude::*;
use crate::adapter::{plain_error, AdapterErrorView};
use crate::run::RunErrorKind;
use crate::text::{pieces, same_text, split, texts, to_chars, trim, trimmed};

verus! {

pub open spec fn unsupported_key() -> AdapterErrorView {
    plain_error(RunErrorKind::Unsupported, "key chord contains an unsupported key"@)
}

pub open spec fn unsupported_modifier() -> AdapterErrorView {
    plain_error(RunErrorKind::Unsupported, "key chord contains an unsupported modifier"@)
}

/// The names in a chord, without the spaces around them.
pub open spec fn chord_parts(keys: Seq<char>) -> Seq<Seq<char>> {
    pieces(keys, '+').map_values(|p: Seq<char>| trimmed(p))
}

/// The names in a chord, without the spaces around them. There is at least one.
pub fn split_chord(keys: &str) -> (r: Vec<String>)
    ensures
        texts(r@) == chord_parts(keys@),
        r@.len() > 0,
{
    let raw = split(keys, '+');
    let mut parts: Vec<String> = Vec::new();
    let mut i: usize = 0;
    while i < raw.len()
        invariant
            i <= raw@.len(),
            parts@.len() == i,
            forall|j: int| 0 <= j < i ==> (#[trigger] parts@[j])@ == trimmed(raw@[j]@),
        decreases raw@.len() - i,
    {
        parts.push(trim(raw[i].as_str()));
        i = i + 1;
    }
    assert(texts(parts@) =~= texts(raw@).map_values(|p: Seq<char>| trimmed(p)));
    parts
}

/// The keys with a name, and their codes.
pub open spec fn code_in(table: Seq<(&'static str, u16)>, key: Seq<char>) -> Option<u16>
    decreases table.len(),
{
    if table.len() == 0 {
        None
    } else if table[0].0@ == key {
        Some(table[0].1)
    } else {
        code_in(table.drop_first(), key)
    }
}

/// Looks a key up by its name.
pub fn lookup_code(table: &[(&'static str, u16)], key: &str) -> (r: Option<u16>)
    ensures
        r == code_in(table@, key@),
{
    let mut i: usize = 0;
    assert(table@.skip(0) =~= table@);
    while i < table.len()
        invariant
            i <= table@.len(),
            code_in(table@, key@) == code_in(table@.skip(i as int), key@),
        decreases table@.len() - i,
    {
        assert(table@.skip(i as int)[0] == table@[i as int]);
        assert(table@.skip(i as int).drop_first() =~= table@.skip(i + 1));
        if same_text(table[i].0, key) {
            return Some(table[i].1);
        }
        i = i + 1;
    }
    None
}

/// A key going down or up.
#[derive(Debug, Clone, Copy, PartialEq, Eq, Structural)]
pub struct KeyEvent {
    pub code: u16,
    pub up: bool,
}

/// The code units of UTF-16 that stand for a character: one, or two where it lies beyond the first
/// 65536.
pub open spec fn char_units(c: char) -> Seq<u16> {
    let n = c as int;
    if n < 0x10000 {
        seq![n as u16]
    } else {
        seq![(0xD800 + (n - 0x10000) / 0x400) as u16, (0xDC00 + (n - 0x10000) % 0x400) as u16]
    }
}

/// The code units of UTF-16 that stand for a text.
pub open spec fn text_units(text: Seq<char>) -> Seq<u16>
    decreases text.len(),
{
    if text.len() == 0 {
        Seq::empty()
    } else {
        text_units(text.drop_last()) + char_units(text.last())
    }
}

fn push_units(units: &mut Vec<u16>, c: char)
    ensures
        final(units)@ == old(units)@ + char_units(c),
{
    let n: u32 = c as u32;
    if n < 0x10000 {
        units.push(n as u16);
        assert(units@ =~= old(units)@ + char_units(c));
    } else {
        let over: u32 = n - 0x10000;
        units.push((0xD800 + over / 0x400) as u16);
        units.push((0xDC00 + over % 0x400) as u16);
        assert(units@ =~= old(units)@ + char_units(c));
    }
}

/// The code units of UTF-16 that stand for a text.
pub fn utf16_units(text: &str) -> (r: Vec<u16>)
    ensures
        r@ == text_units(text@),
{
    let chars = to_chars(text);
    let mut units: Vec<u16> = Vec::new();
    let mut i: usize = 0;
    assert(chars@.take(0) =~= Seq::empty());
    assert(units@ =~= Seq::empty());
    while i < chars.len()
        invariant
            i <= chars@.len(),
            units@ == text_units(chars@.take(i as int)),
        decreases chars@.len() - i,
    {
        assert(chars@.take(i + 1).drop_last() =~= chars@.take(i as int));
        push_units(&mut units, chars[i]);
        i = i + 1;
    }
    assert(chars@.take(i as int) =~= chars@);
    units
}

/// Typing a text: for each code unit, that it goes down and that it goes up.
pub open spec fn typed(units: Seq<u16>) -> Seq<KeyEvent>
    decreases units.len(),
{
    if units.len() == 0 {
        Seq::empty()
    } else {
        typed(units.drop_last()).push(KeyEvent { code: units.last(), up: false }).push(
            KeyEvent { code: units.last(), up: true },
        )
    }
}

/// What is sent to type a text.
pub fn text_events(text: &str) -> (r: Vec<KeyEvent>)
    ensures
        r@ == typed(text_units(text@)),
{
    let units = utf16_units(text);
    let mut out: Vec<KeyEvent> = Vec::new();
    let mut i: usize = 0;
    assert(units@.take(0) =~= Seq::empty());
    assert(out@ =~= Seq::empty());
    while i < units.len()
        invariant
            i <= units@.len(),
            out@ == typed(units@.take(i as int)),
        decreases units@.len() - i,
    {
        assert(units@.take(i + 1).drop_last() =~= units@.take(i as int));
        out.push(KeyEvent { code: units[i], up: false });
        out.push(KeyEvent { code: units[i], up: true });
        i = i + 1;
    }
    assert(units@.take(i as int) =~= units@);
    out
}

/// Nothing that goes down when a text is typed stays down: what stands at an odd place lifts what
/// the place before it pressed.
pub proof fn typing_is_balanced(units: Seq<u16>)
    ensures
        typed(units).len() == 2 * units.len(),
        forall|i: int|
            0 <= i < units.len() ==> #[trigger] typed(units)[2 * i] == (KeyEvent {
                code: units[i],
                up: false,
            }) && typed(units)[2 * i + 1] == (KeyEvent { code: units[i], up: true }),
    decreases units.len(),
{
    if units.len() > 0 {
        typing_is_balanced(units.drop_last());
        let front = typed(units.drop_last());
        assert forall|i: int| 0 <= i < units.len() implies #[trigger] typed(units)[2 * i] == (
        KeyEvent { code: units[i], up: false }) && typed(units)[2 * i + 1] == (KeyEvent {
            code: units[i],
            up: true,
        }) by {
            if i < units.len() - 1 {
                assert(front[2 * i] == typed(units)[2 * i]);
                assert(front[2 * i + 1] == typed(units)[2 * i + 1]);
                assert(units.drop_last()[i] == units[i]);
            }
        }
    }
}

} // verus!
