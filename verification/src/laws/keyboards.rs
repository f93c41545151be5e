//! What keys and chords come to.
use vstd::prelude::*;
use crate::adapter::AdapterError;
use crate::keys::{char_units, chord_parts, code_in, text_events, text_units, typed, KeyEvent};
use crate::laws::texts::splitting_undoes_joining;
use crate::macos::keys::KeyPress;
use crate::text::{joined, trimmed};
use crate::windows::keys::{scroll_amount, ScrollAmount};

verus! {

/// The codes of the named keys on Windows.
pub open spec fn windows_key(name: Seq<char>) -> Option<u16> {
    if name == "Enter"@ {
        Some(13)
    } else if name == "Escape"@ {
        Some(27)
    } else if name == "Tab"@ {
        Some(9)
    } else if name == "Space"@ {
        Some(32)
    } else if name == "Backspace"@ {
        Some(8)
    } else if name == "Delete"@ {
        Some(46)
    } else if name == "Home"@ {
        Some(36)
    } else if name == "End"@ {
        Some(35)
    } else if name == "ArrowUp"@ {
        Some(38)
    } else if name == "ArrowDown"@ {
        Some(40)
    } else if name == "ArrowLeft"@ {
        Some(37)
    } else if name == "ArrowRight"@ {
        Some(39)
    } else {
        None
    }
}

/// The codes of the modifiers on Windows.
pub open spec fn windows_modifier(name: Seq<char>) -> Option<u16> {
    if name == "CmdOrControl"@ {
        Some(17)
    } else if name == "Control"@ {
        Some(17)
    } else if name == "Ctrl"@ {
        Some(17)
    } else if name == "Shift"@ {
        Some(16)
    } else if name == "Alt"@ {
        Some(18)
    } else if name == "Meta"@ {
        Some(91)
    } else if name == "Win"@ {
        Some(91)
    } else {
        None
    }
}

/// The codes of the named keys on macOS.
pub open spec fn macos_key(name: Seq<char>) -> Option<u16> {
    if name == "Enter"@ {
        Some(36)
    } else if name == "Tab"@ {
        Some(48)
    } else if name == "Space"@ {
        Some(49)
    } else if name == "Backspace"@ {
        Some(51)
    } else if name == "Escape"@ {
        Some(53)
    } else if name == "Delete"@ {
        Some(117)
    } else if name == "Home"@ {
        Some(115)
    } else if name == "End"@ {
        Some(119)
    } else if name == "ArrowLeft"@ {
        Some(123)
    } else if name == "ArrowRight"@ {
        Some(124)
    } else if name == "ArrowDown"@ {
        Some(125)
    } else if name == "ArrowUp"@ {
        Some(126)
    } else {
        None
    }
}

proof fn windows_keys_are_known(name: Seq<char>)
    ensures
        code_in(crate::windows::keys::named_keys(), name) == windows_key(name),
{
    reveal_with_fuel(code_in, 13);
    let all = crate::windows::keys::named_keys();
    assert(all.skip(0)[0].0@ == "Enter"@);
    assert(all.skip(0).drop_first() =~= all.skip(1));
    assert(all.skip(1)[0].0@ == "Escape"@);
    assert(all.skip(1).drop_first() =~= all.skip(2));
    assert(all.skip(2)[0].0@ == "Tab"@);
    assert(all.skip(2).drop_first() =~= all.skip(3));
    assert(all.skip(3)[0].0@ == "Space"@);
    assert(all.skip(3).drop_first() =~= all.skip(4));
    assert(all.skip(4)[0].0@ == "Backspace"@);
    assert(all.skip(4).drop_first() =~= all.skip(5));
    assert(all.skip(5)[0].0@ == "Delete"@);
    assert(all.skip(5).drop_first() =~= all.skip(6));
    assert(all.skip(6)[0].0@ == "Home"@);
    assert(all.skip(6).drop_first() =~= all.skip(7));
    assert(all.skip(7)[0].0@ == "End"@);
    assert(all.skip(7).drop_first() =~= all.skip(8));
    assert(all.skip(8)[0].0@ == "ArrowUp"@);
    assert(all.skip(8).drop_first() =~= all.skip(9));
    assert(all.skip(9)[0].0@ == "ArrowDown"@);
    assert(all.skip(9).drop_first() =~= all.skip(10));
    assert(all.skip(10)[0].0@ == "ArrowLeft"@);
    assert(all.skip(10).drop_first() =~= all.skip(11));
    assert(all.skip(11)[0].0@ == "ArrowRight"@);
    assert(all.skip(11).drop_first() =~= all.skip(12));
    assert(all.skip(0) =~= all);
    assert(all.skip(12).len() == 0);
}

proof fn windows_modifiers_are_known(name: Seq<char>)
    ensures
        code_in(crate::windows::keys::modifier_keys(), name) == windows_modifier(name),
{
    reveal_with_fuel(code_in, 8);
    let all = crate::windows::keys::modifier_keys();
    assert(all.skip(0)[0].0@ == "CmdOrControl"@);
    assert(all.skip(0).drop_first() =~= all.skip(1));
    assert(all.skip(1)[0].0@ == "Control"@);
    assert(all.skip(1).drop_first() =~= all.skip(2));
    assert(all.skip(2)[0].0@ == "Ctrl"@);
    assert(all.skip(2).drop_first() =~= all.skip(3));
    assert(all.skip(3)[0].0@ == "Shift"@);
    assert(all.skip(3).drop_first() =~= all.skip(4));
    assert(all.skip(4)[0].0@ == "Alt"@);
    assert(all.skip(4).drop_first() =~= all.skip(5));
    assert(all.skip(5)[0].0@ == "Meta"@);
    assert(all.skip(5).drop_first() =~= all.skip(6));
    assert(all.skip(6)[0].0@ == "Win"@);
    assert(all.skip(6).drop_first() =~= all.skip(7));
    assert(all.skip(0) =~= all);
    assert(all.skip(7).len() == 0);
}

proof fn macos_keys_are_known(name: Seq<char>)
    ensures
        code_in(crate::macos::keys::named_keys(), name) == macos_key(name),
{
    reveal_with_fuel(code_in, 13);
    let all = crate::macos::keys::named_keys();
    assert(all.skip(0)[0].0@ == "Enter"@);
    assert(all.skip(0).drop_first() =~= all.skip(1));
    assert(all.skip(1)[0].0@ == "Tab"@);
    assert(all.skip(1).drop_first() =~= all.skip(2));
    assert(all.skip(2)[0].0@ == "Space"@);
    assert(all.skip(2).drop_first() =~= all.skip(3));
    assert(all.skip(3)[0].0@ == "Backspace"@);
    assert(all.skip(3).drop_first() =~= all.skip(4));
    assert(all.skip(4)[0].0@ == "Escape"@);
    assert(all.skip(4).drop_first() =~= all.skip(5));
    assert(all.skip(5)[0].0@ == "Delete"@);
    assert(all.skip(5).drop_first() =~= all.skip(6));
    assert(all.skip(6)[0].0@ == "Home"@);
    assert(all.skip(6).drop_first() =~= all.skip(7));
    assert(all.skip(7)[0].0@ == "End"@);
    assert(all.skip(7).drop_first() =~= all.skip(8));
    assert(all.skip(8)[0].0@ == "ArrowLeft"@);
    assert(all.skip(8).drop_first() =~= all.skip(9));
    assert(all.skip(9)[0].0@ == "ArrowRight"@);
    assert(all.skip(9).drop_first() =~= all.skip(10));
    assert(all.skip(10)[0].0@ == "ArrowDown"@);
    assert(all.skip(10).drop_first() =~= all.skip(11));
    assert(all.skip(11)[0].0@ == "ArrowUp"@);
    assert(all.skip(11).drop_first() =~= all.skip(12));
    assert(all.skip(0) =~= all);
    assert(all.skip(12).len() == 0);
}

/// The names of keys are longer than a character.
proof fn names_are_long()
    ensures
        "Enter"@.len() > 1,
        "Escape"@.len() > 1,
        "Tab"@.len() > 1,
        "Space"@.len() > 1,
        "Backspace"@.len() > 1,
        "Delete"@.len() > 1,
        "Home"@.len() > 1,
        "End"@.len() > 1,
        "ArrowUp"@.len() > 1,
        "ArrowDown"@.len() > 1,
        "ArrowLeft"@.len() > 1,
        "ArrowRight"@.len() > 1,
{
    reveal_strlit("Enter");
    reveal_strlit("Escape");
    reveal_strlit("Tab");
    reveal_strlit("Space");
    reveal_strlit("Backspace");
    reveal_strlit("Delete");
    reveal_strlit("Home");
    reveal_strlit("End");
    reveal_strlit("ArrowUp");
    reveal_strlit("ArrowDown");
    reveal_strlit("ArrowLeft");
    reveal_strlit("ArrowRight");
}

/// A key is found on Windows by its name, or is a letter or a digit. Both cases of a letter are one
/// key, whose code is that of the letter in upper case.
pub proof fn windows_keys_have_their_codes(key: &str, r: Result<u16, AdapterError>)
    requires
        call_ensures(crate::windows::keys::parse_virtual_key, (key,), r),
    ensures
        windows_key(key@) is Some ==> r is Ok && r->Ok_0 == windows_key(key@)->0,
        key@.len() == 1 && ('A' <= key@[0] <= 'Z' || '0' <= key@[0] <= '9') ==> r is Ok && r->Ok_0
            == key@[0] as u32,
        key@.len() == 1 && 'a' <= key@[0] <= 'z' ==> r is Ok && r->Ok_0 == key@[0] as u32 - 32,
        windows_key(key@) is None && key@.len() != 1 ==> r is Err,
{
    windows_keys_are_known(key@);
    names_are_long();
}

/// The codes of letters, digits and signs on macOS.
pub open spec fn macos_character(c: char) -> Option<u16> {
    if c == 'a' {
        Some(0)
    } else if c == 's' {
        Some(1)
    } else if c == 'd' {
        Some(2)
    } else if c == 'f' {
        Some(3)
    } else if c == 'h' {
        Some(4)
    } else if c == 'g' {
        Some(5)
    } else if c == 'z' {
        Some(6)
    } else if c == 'x' {
        Some(7)
    } else if c == 'c' {
        Some(8)
    } else if c == 'v' {
        Some(9)
    } else if c == 'b' {
        Some(11)
    } else if c == 'q' {
        Some(12)
    } else if c == 'w' {
        Some(13)
    } else if c == 'e' {
        Some(14)
    } else if c == 'r' {
        Some(15)
    } else if c == 'y' {
        Some(16)
    } else if c == 't' {
        Some(17)
    } else if c == '1' {
        Some(18)
    } else if c == '2' {
        Some(19)
    } else if c == '3' {
        Some(20)
    } else if c == '4' {
        Some(21)
    } else if c == '6' {
        Some(22)
    } else if c == '5' {
        Some(23)
    } else if c == '=' {
        Some(24)
    } else if c == '9' {
        Some(25)
    } else if c == '7' {
        Some(26)
    } else if c == '-' {
        Some(27)
    } else if c == '8' {
        Some(28)
    } else if c == '0' {
        Some(29)
    } else if c == ']' {
        Some(30)
    } else if c == 'o' {
        Some(31)
    } else if c == 'u' {
        Some(32)
    } else if c == '[' {
        Some(33)
    } else if c == 'i' {
        Some(34)
    } else if c == 'p' {
        Some(35)
    } else if c == 'l' {
        Some(37)
    } else if c == 'j' {
        Some(38)
    } else if c == '\'' {
        Some(39)
    } else if c == 'k' {
        Some(40)
    } else if c == ';' {
        Some(41)
    } else if c == '\\' {
        Some(42)
    } else if c == ',' {
        Some(43)
    } else if c == '/' {
        Some(44)
    } else if c == 'n' {
        Some(45)
    } else if c == 'm' {
        Some(46)
    } else if c == '.' {
        Some(47)
    } else {
        None
    }
}

/// A key is found on macOS by its name or by its character; both cases of a letter are one key.
pub proof fn macos_keys_have_their_codes(key: &str, r: Result<u16, AdapterError>)
    requires
        call_ensures(crate::macos::keys::parse_virtual_key, (key,), r),
    ensures
        macos_key(key@) is Some ==> r is Ok && r->Ok_0 == macos_key(key@)->0,
        key@.len() == 1 && !('A' <= key@[0] <= 'Z') ==> match macos_character(key@[0]) {
            Some(code) => r is Ok && r->Ok_0 == code,
            None => r is Err,
        },
        key@.len() == 1 && 'A' <= key@[0] <= 'Z' ==> match macos_character(
            (key@[0] as u32 + 32) as char,
        ) {
            Some(code) => r is Ok && r->Ok_0 == code,
            None => r is Err,
        },
        macos_key(key@) is None && key@.len() != 1 ==> r is Err,
{
    macos_keys_are_known(key@);
    names_are_long();
}

/// A name in a chord: it holds no `+`, and has no whitespace around it.
pub open spec fn chord_name(name: Seq<char>) -> bool {
    !name.contains('+') && trimmed(name) == name
}

proof fn chords_are_split(names: Seq<Seq<char>>)
    requires
        names.len() > 0,
        forall|i: int| 0 <= i < names.len() ==> chord_name(#[trigger] names[i]),
    ensures
        chord_parts(joined(names, seq!['+'])) == names,
{
    assert forall|i: int| 0 <= i < names.len() implies !(#[trigger] names[i]).contains('+') by {
        assert(chord_name(names[i]));
    }
    splitting_undoes_joining(names, '+');
    assert forall|i: int| 0 <= i < names.len() implies trimmed(#[trigger] names[i])
        == names[i] by {
        assert(chord_name(names[i]));
    }
    assert(chord_parts(joined(names, seq!['+'])) =~= names);
}

proof fn modifiers_in_order(parts: Seq<Seq<char>>, n: nat)
    requires
        n <= parts.len(),
    ensures
        match crate::windows::keys::modifier_codes(parts, n) {
            Some(codes) => codes.len() == n && forall|i: int|
                0 <= i < n ==> windows_modifier(parts[i]) == Some(#[trigger] codes[i]),
            None => exists|i: int| 0 <= i < n && windows_modifier(#[trigger] parts[i]) is None,
        },
    decreases n,
{
    if n > 0 {
        let m = (n - 1) as nat;
        modifiers_in_order(parts, m);
        windows_modifiers_are_known(parts[n - 1]);
        match crate::windows::keys::modifier_codes(parts, m) {
            None => {
                let i = choose|i: int|
                    0 <= i < m && windows_modifier(#[trigger] parts[i]) is None;
                assert(windows_modifier(parts[i]) is None);
            },
            Some(front) => {},
        }
    }
}

/// A chord on Windows: its modifiers go down in the order in which they are named, the key goes
/// down and up, and the modifiers go up in the opposite order. A chord with a name that is not
/// known is refused.
pub proof fn windows_chords_press_what_they_name(
    keys: &str,
    names: Seq<Seq<char>>,
    r: Result<Vec<KeyEvent>, AdapterError>,
)
    requires
        call_ensures(crate::windows::keys::key_chord, (keys,), r),
        names.len() > 0,
        forall|i: int| 0 <= i < names.len() ==> chord_name(#[trigger] names[i]),
        keys@ == joined(names, seq!['+']),
    ensures
        ({
            let k = names.len() - 1;
            let key = names[k];
            let known = forall|i: int| 0 <= i < k ==> windows_modifier(#[trigger] names[i]) is Some;
            &&& known && windows_key(key) is Some ==> r is Ok
            &&& !known ==> r is Err
            &&& windows_key(key) is None && key.len() != 1 ==> r is Err
            &&& r is Ok ==> {
                let events = r->Ok_0@;
                &&& events.len() == 2 * names.len()
                &&& forall|i: int|
                    0 <= i < k ==> windows_modifier(#[trigger] names[i]) == Some(events[i].code)
                        && !events[i].up && windows_modifier(names[i]) == Some(
                        events[events.len() - 1 - i].code,
                    ) && events[events.len() - 1 - i].up
                &&& !events[k].up && events[k + 1].up && events[k].code == events[k + 1].code
                &&& windows_key(key) is Some ==> Some(events[k].code) == windows_key(key)
            }
        }),
{
    chords_are_split(names);
    let k = (names.len() - 1) as nat;
    let key = names[k as int];
    assert(names.last() == key);
    windows_keys_are_known(key);
    modifiers_in_order(names, k);
    if r is Ok {
        let codes = crate::windows::keys::modifier_codes(names, k)->0;
        let events = r->Ok_0@;
        let code = crate::windows::keys::key_code(key)->0;
        assert(events == crate::windows::keys::chord_events(codes, code));
        assert forall|i: int| 0 <= i < k implies windows_modifier(#[trigger] names[i]) == Some(
            events[i].code,
        ) && !events[i].up && windows_modifier(names[i]) == Some(
            events[events.len() - 1 - i].code,
        ) && events[events.len() - 1 - i].up by {
            assert(windows_modifier(names[i]) == Some(codes[i]));
            assert(events[i] == KeyEvent { code: codes[i], up: false });
            assert(events[events.len() - 1 - i] == KeyEvent { code: codes[i], up: true });
        }
        assert(events[k as int] == KeyEvent { code, up: false });
        assert(events[k as int + 1] == KeyEvent { code, up: true });
    }
}

/// What a name in a chord says is held.
pub enum Held {
    Command,
    Control,
    Shift,
    Alternate,
    Nothing,
}

/// The modifier that a name is one of.
pub open spec fn held(name: Seq<char>) -> Held {
    if name == "CmdOrControl"@ || name == "Command"@ || name == "Cmd"@ || name == "Meta"@ {
        Held::Command
    } else if name == "Control"@ || name == "Ctrl"@ {
        Held::Control
    } else if name == "Shift"@ {
        Held::Shift
    } else if name == "Alt"@ || name == "Option"@ {
        Held::Alternate
    } else {
        Held::Nothing
    }
}

/// Whether one of the first names is one of a modifier.
pub open spec fn holds(names: Seq<Seq<char>>, n: int, what: Held) -> bool {
    exists|i: int| 0 <= i < n && held(#[trigger] names[i]) == what
}

proof fn one_more(names: Seq<Seq<char>>, n: int, what: Held)
    requires
        0 < n <= names.len(),
    ensures
        holds(names, n, what) == (holds(names, n - 1, what) || held(names[n - 1]) == what),
{
    if holds(names, n, what) {
        let i = choose|i: int| 0 <= i < n && held(#[trigger] names[i]) == what;
        assert(held(names[i]) == what);
        if i < n - 1 {
            assert(holds(names, n - 1, what));
        }
    }
    if holds(names, n - 1, what) {
        let i = choose|i: int| 0 <= i < n - 1 && held(#[trigger] names[i]) == what;
        assert(held(names[i]) == what);
        assert(holds(names, n, what));
    }
}

proof fn held_by_name(parts: Seq<Seq<char>>, n: nat)
    requires
        n <= parts.len(),
    ensures
        match crate::macos::keys::modifiers_of(parts, n) {
            Some(m) => {
                &&& m.command == holds(parts, n as int, Held::Command)
                &&& m.control == holds(parts, n as int, Held::Control)
                &&& m.shift == holds(parts, n as int, Held::Shift)
                &&& m.alternate == holds(parts, n as int, Held::Alternate)
                &&& !holds(parts, n as int, Held::Nothing)
            },
            None => holds(parts, n as int, Held::Nothing),
        },
    decreases n,
{
    if n > 0 {
        held_by_name(parts, (n - 1) as nat);
        one_more(parts, n as int, Held::Command);
        one_more(parts, n as int, Held::Control);
        one_more(parts, n as int, Held::Shift);
        one_more(parts, n as int, Held::Alternate);
        one_more(parts, n as int, Held::Nothing);
    }
}

/// A chord on macOS is its key, pressed with the flags of the modifiers that it names, each once. A
/// chord with a name that is not known is refused.
pub proof fn macos_chords_press_what_they_name(
    keys: &str,
    names: Seq<Seq<char>>,
    r: Result<KeyPress, AdapterError>,
)
    requires
        call_ensures(crate::macos::keys::key_chord, (keys,), r),
        names.len() > 0,
        forall|i: int| 0 <= i < names.len() ==> chord_name(#[trigger] names[i]),
        keys@ == joined(names, seq!['+']),
    ensures
        ({
            let k = names.len() - 1;
            let command = holds(names, k, Held::Command);
            let control = holds(names, k, Held::Control);
            let shift = holds(names, k, Held::Shift);
            let alternate = holds(names, k, Held::Alternate);
            let known = !holds(names, k, Held::Nothing);
            &&& !known ==> r is Err
            &&& known && macos_key(names[k]) is Some ==> r is Ok && r->Ok_0.code
                == macos_key(names[k])->0
            &&& r is Ok ==> r->Ok_0.flags == (if command {
                1048576int
            } else {
                0
            }) + (if alternate {
                524288int
            } else {
                0
            }) + (if control {
                262144int
            } else {
                0
            }) + (if shift {
                131072int
            } else {
                0
            })
        }),
{
    chords_are_split(names);
    let k = (names.len() - 1) as nat;
    assert(names.last() == names[k as int]);
    macos_keys_are_known(names[k as int]);
    held_by_name(names, k);
}

/// A text is typed unit by unit: each goes down and up before the next.
pub proof fn texts_are_typed_in_order(text: &str, events: Vec<KeyEvent>, i: int)
    requires
        call_ensures(text_events, (text,), events),
    ensures
        events@.len() == 2 * text_units(text@).len(),
        0 <= i < text_units(text@).len() ==> events@[2 * i] == (KeyEvent {
            code: text_units(text@)[i],
            up: false,
        }) && events@[2 * i + 1] == (KeyEvent { code: text_units(text@)[i], up: true }),
{
    typed_in_order(text_units(text@), i);
}

proof fn typed_in_order(units: Seq<u16>, i: int)
    ensures
        typed(units).len() == 2 * units.len(),
        0 <= i < units.len() ==> typed(units)[2 * i] == (KeyEvent { code: units[i], up: false })
            && typed(units)[2 * i + 1] == (KeyEvent { code: units[i], up: true }),
    decreases units.len(),
{
    if units.len() > 0 {
        typed_in_order(units.drop_last(), i);
    }
}

/// The units of a character are worth the character: it is its own unit, or its place beyond the
/// first 65536 is told by two units of ten bits each.
pub proof fn units_are_worth_the_character(c: char, more: Seq<char>)
    ensures
        text_units(seq![c] + more) == text_units(seq![c]) + text_units(more),
        ({
            let n = c as int;
            let units = text_units(seq![c]);
            if n < 65536 {
                units.len() == 1 && units[0] == n
            } else {
                units.len() == 2 && 55296 <= units[0] <= 56319 && 56320 <= units[1] <= 57343
                    && 65536 + 1024 * (units[0] - 55296) + (units[1] - 56320) == n
            }
        }),
    decreases more.len(),
{
    assert(seq![c].drop_last() =~= Seq::empty());
    assert(seq![c].last() == c);
    assert(text_units(Seq::empty()) =~= Seq::empty());
    assert(Seq::<u16>::empty() + char_units(c) =~= char_units(c));
    assert(text_units(seq![c]) =~= char_units(c));
    let n = c as int;
    assert(n <= 0x10FFFF);
    if n >= 65536 {
        let q = (n - 65536) / 1024;
        let m = (n - 65536) % 1024;
        assert(0 <= q <= 1023 && 0 <= m <= 1023 && n - 65536 == 1024 * q + m);
        assert(char_units(c)[0] == 0xD800 + q);
        assert(char_units(c)[1] == 0xDC00 + m);
    }
    if more.len() == 0 {
        assert(seq![c] + more =~= seq![c]);
        assert(text_units(seq![c]) + text_units(more) =~= text_units(seq![c]));
    } else {
        units_are_worth_the_character(c, more.drop_last());
        assert((seq![c] + more).drop_last() =~= seq![c] + more.drop_last());
        assert((seq![c] + more).last() == more.last());
        assert(text_units(seq![c] + more) =~= text_units(seq![c]) + text_units(more));
    }
}

/// A scroll goes the way of its number, and not at all where that is zero.
pub proof fn scrolls_go_the_way_they_say(delta: i32, amount: ScrollAmount, lines: i32)
    requires
        call_ensures(scroll_amount, (delta,), amount),
        call_ensures(crate::macos::keys::scroll_lines, (delta,), lines),
    ensures
        amount == ScrollAmount::SmallIncrement <==> delta > 0,
        amount == ScrollAmount::SmallDecrement <==> delta < 0,
        -10 <= delta <= 10 ==> lines == delta,
        delta > 10 ==> lines == 10,
        delta < -10 ==> lines == -10,
{
}

} // verus!
