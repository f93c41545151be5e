//! Key chords on Windows, by virtual key codes.
use vstd::prelude::*;
use crate::adapter::{AdapterError, AdapterErrorView};
use crate::keys::{
    chord_parts, code_in, lookup_code, split_chord, unsupported_key, unsupported_modifier, KeyEvent,
};
use crate::text::{texts, to_chars};
use crate::validate::{alphanumeric, is_alphanumeric};

verus! {

/// The keys with a name.
pub open spec fn named_keys() -> Seq<(&'static str, u16)> {
    seq![
        ("Enter", 0x0Du16),
        ("Escape", 0x1Bu16),
        ("Tab", 0x09u16),
        ("Space", 0x20u16),
        ("Backspace", 0x08u16),
        ("Delete", 0x2Eu16),
        ("Home", 0x24u16),
        ("End", 0x23u16),
        ("ArrowUp", 0x26u16),
        ("ArrowDown", 0x28u16),
        ("ArrowLeft", 0x25u16),
        ("ArrowRight", 0x27u16),
    ]
}

/// The modifiers.
pub open spec fn modifier_keys() -> Seq<(&'static str, u16)> {
    seq![
        ("CmdOrControl", 0x11u16),
        ("Control", 0x11u16),
        ("Ctrl", 0x11u16),
        ("Shift", 0x10u16),
        ("Alt", 0x12u16),
        ("Meta", 0x5Bu16),
        ("Win", 0x5Bu16),
    ]
}

/// The code of a letter or digit: that of the letter in upper case.
pub open spec fn character_code(c: char) -> u16 {
    if 'a' <= c <= 'z' {
        (c as u32 - 32) as u16
    } else {
        c as u16
    }
}

/// The code of a key: one with a name, or a letter or digit.
pub open spec fn key_code(key: Seq<char>) -> Option<u16> {
    match code_in(named_keys(), key) {
        Some(code) => Some(code),
        None => if key.len() == 1 && alphanumeric(key[0]) {
            Some(character_code(key[0]))
        } else {
            None
        },
    }
}

fn code_of_character(c: char) -> (r: u16)
    requires
        alphanumeric(c),
    ensures
        r == character_code(c),
{
    let n: u32 = c as u32;
    if 'a' <= c && c <= 'z' {
        (n - 32) as u16
    } else {
        n as u16
    }
}

/// The virtual key code of a key.
pub fn parse_virtual_key(key: &str) -> (r: Result<u16, AdapterError>)
    ensures
        match r {
            Ok(code) => key_code(key@) == Some(code),
            Err(e) => key_code(key@) is None && e@ == unsupported_key(),
        },
{
    let table = [
        ("Enter", 0x0Du16),
        ("Escape", 0x1Bu16),
        ("Tab", 0x09u16),
        ("Space", 0x20u16),
        ("Backspace", 0x08u16),
        ("Delete", 0x2Eu16),
        ("Home", 0x24u16),
        ("End", 0x23u16),
        ("ArrowUp", 0x26u16),
        ("ArrowDown", 0x28u16),
        ("ArrowLeft", 0x25u16),
        ("ArrowRight", 0x27u16),
    ];
    assert(table@ =~= named_keys());
    if let Some(code) = lookup_code(&table, key) {
        return Ok(code);
    }
    let chars = to_chars(key);
    if chars.len() == 1 && is_alphanumeric(chars[0]) {
        return Ok(code_of_character(chars[0]));
    }
    Err(AdapterError::unsupported("key chord contains an unsupported key".to_owned()))
}

/// The codes of the first `n` modifiers, where all of them are modifiers.
pub open spec fn modifier_codes(parts: Seq<Seq<char>>, n: nat) -> Option<Seq<u16>>
    decreases n,
{
    if n == 0 || n > parts.len() {
        Some(Seq::empty())
    } else {
        match (modifier_codes(parts, (n - 1) as nat), code_in(modifier_keys(), parts[n - 1])) {
            (Some(front), Some(code)) => Some(front.push(code)),
            _ => None,
        }
    }
}

pub open spec fn downs(codes: Seq<u16>) -> Seq<KeyEvent> {
    codes.map_values(|code: u16| KeyEvent { code, up: false })
}

pub open spec fn ups(codes: Seq<u16>) -> Seq<KeyEvent> {
    codes.reverse().map_values(|code: u16| KeyEvent { code, up: true })
}

/// The events of a chord: the modifiers go down in order, the key goes down and up, and the
/// modifiers go up in the opposite order.
pub open spec fn chord_events(codes: Seq<u16>, key: u16) -> Seq<KeyEvent> {
    downs(codes) + seq![KeyEvent { code: key, up: false }, KeyEvent { code: key, up: true }] + ups(
        codes,
    )
}

/// What a chord comes to. The last name is the key, and the others are modifiers.
pub open spec fn chord(keys: Seq<char>) -> Result<Seq<KeyEvent>, AdapterErrorView> {
    let parts = chord_parts(keys);
    match key_code(parts.last()) {
        None => Err(unsupported_key()),
        Some(key) => match modifier_codes(parts, (parts.len() - 1) as nat) {
            None => Err(unsupported_modifier()),
            Some(codes) => Ok(chord_events(codes, key)),
        },
    }
}

/// Every key that a chord presses is let go again.
pub proof fn chord_is_balanced(codes: Seq<u16>, key: u16, i: int)
    requires
        0 <= i <= codes.len(),
    ensures
        chord_events(codes, key).len() == 2 * codes.len() + 2,
        ({
            let events = chord_events(codes, key);
            let n = events.len();
            &&& !events[i].up
            &&& events[n - 1 - i].up
            &&& events[i].code == events[n - 1 - i].code
        }),
{
    let events = chord_events(codes, key);
    let n = events.len();
    if i < codes.len() {
        assert(events[i] == downs(codes)[i]);
        assert(events[n - 1 - i] == ups(codes)[codes.len() - 1 - i]);
        assert(codes.reverse()[codes.len() - 1 - i] == codes[i]);
    }
}

fn read_modifiers(parts: &Vec<String>, n: usize) -> (r: Option<Vec<u16>>)
    requires
        n <= parts@.len(),
    ensures
        match r {
            Some(codes) => modifier_codes(texts(parts@), n as nat) == Some(codes@),
            None => modifier_codes(texts(parts@), n as nat) is None,
        },
{
    let table = [
        ("CmdOrControl", 0x11u16),
        ("Control", 0x11u16),
        ("Ctrl", 0x11u16),
        ("Shift", 0x10u16),
        ("Alt", 0x12u16),
        ("Meta", 0x5Bu16),
        ("Win", 0x5Bu16),
    ];
    assert(table@ =~= modifier_keys());
    let mut codes: Vec<u16> = Vec::new();
    let mut i: usize = 0;
    while i < n
        invariant
            i <= n <= parts@.len(),
            table@ == modifier_keys(),
            modifier_codes(texts(parts@), i as nat) == Some(codes@),
        decreases n - i,
    {
        match lookup_code(&table, parts[i].as_str()) {
            Some(code) => {
                codes.push(code);
            },
            None => {
                proof {
                    modifiers_stop(texts(parts@), (i + 1) as nat, n as nat);
                }
                return None;
            },
        }
        i = i + 1;
    }
    Some(codes)
}

proof fn modifiers_stop(parts: Seq<Seq<char>>, n: nat, m: nat)
    requires
        n <= m <= parts.len(),
        modifier_codes(parts, n) is None,
    ensures
        modifier_codes(parts, m) is None,
    decreases m,
{
    if n < m {
        modifiers_stop(parts, n, (m - 1) as nat);
    }
}

/// The key events of a chord.
pub fn key_chord(keys: &str) -> (r: Result<Vec<KeyEvent>, AdapterError>)
    ensures
        match r {
            Ok(events) => chord(keys@) == Ok::<Seq<KeyEvent>, AdapterErrorView>(events@),
            Err(e) => chord(keys@) == Err::<Seq<KeyEvent>, AdapterErrorView>(e@),
        },
{
    let parts = split_chord(keys);
    let last: usize = parts.len() - 1;
    assert(texts(parts@).last() == parts@[last as int]@);
    let key = match parse_virtual_key(parts[last].as_str()) {
        Ok(key) => key,
        Err(e) => {
            return Err(e);
        },
    };
    let codes = match read_modifiers(&parts, last) {
        Some(codes) => codes,
        None => {
            return Err(
                AdapterError::unsupported("key chord contains an unsupported modifier".to_owned()),
            );
        },
    };
    let mut events: Vec<KeyEvent> = Vec::new();
    let mut i: usize = 0;
    while i < codes.len()
        invariant
            i <= codes@.len(),
            events@ == downs(codes@).take(i as int),
        decreases codes@.len() - i,
    {
        events.push(KeyEvent { code: codes[i], up: false });
        assert(downs(codes@).take(i + 1) =~= downs(codes@).take(i as int).push(
            downs(codes@)[i as int],
        ));
        i = i + 1;
    }
    assert(downs(codes@).take(i as int) =~= downs(codes@));
    events.push(KeyEvent { code: key, up: false });
    events.push(KeyEvent { code: key, up: true });
    let ghost head = downs(codes@) + seq![
        KeyEvent { code: key, up: false },
        KeyEvent { code: key, up: true },
    ];
    assert(events@ =~= head);
    let mut k: usize = codes.len();
    assert(head + ups(codes@).take(0) =~= head);
    while k > 0
        invariant
            k <= codes@.len(),
            events@ == head + ups(codes@).take(codes@.len() - k),
        decreases k,
    {
        k = k - 1;
        events.push(KeyEvent { code: codes[k], up: true });
        proof {
            let done = codes@.len() - k;
            assert(ups(codes@)[done - 1] == KeyEvent { code: codes@[k as int], up: true });
            assert(ups(codes@).take(done) =~= ups(codes@).take(done - 1).push(ups(codes@)[done - 1]));
            assert(head + ups(codes@).take(done) =~= (head + ups(codes@).take(done - 1)).push(
                ups(codes@)[done - 1],
            ));
        }
    }
    assert(ups(codes@).take(codes@.len() as int) =~= ups(codes@));
    Ok(events)
}

/// How far a scroll pattern is moved.
#[derive(Debug, Clone, Copy, PartialEq, Eq, Structural)]
pub enum ScrollAmount {
    SmallDecrement,
    NoAmount,
    SmallIncrement,
}

/// The direction of a scroll.
pub open spec fn amount_of(delta: i32) -> ScrollAmount {
    if delta < 0 {
        ScrollAmount::SmallDecrement
    } else if delta == 0 {
        ScrollAmount::NoAmount
    } else {
        ScrollAmount::SmallIncrement
    }
}

pub fn scroll_amount(delta: i32) -> (r: ScrollAmount)
    ensures
        r == amount_of(delta),
{
    if delta < 0 {
        ScrollAmount::SmallDecrement
    } else if delta == 0 {
        ScrollAmount::NoAmount
    } else {
        ScrollAmount::SmallIncrement
    }
}

} // verus!
