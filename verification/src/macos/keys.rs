//! Key chords on macOS, by key codes and modifier flags.
use vstd::prelude::*;
use crate::adapter::{AdapterError, AdapterErrorView};
use crate::keys::{
    chord_parts, code_in, lookup_code, split_chord, unsupported_key, unsupported_modifier,
};
use crate::text::{ascii_lower, lower_char, same_text, texts, to_chars};

verus! {

/// The keys with a name.
pub open spec fn named_keys() -> Seq<(&'static str, u16)> {
    seq![
        ("Enter", 0x24u16),
        ("Tab", 0x30u16),
        ("Space", 0x31u16),
        ("Backspace", 0x33u16),
        ("Escape", 0x35u16),
        ("Delete", 0x75u16),
        ("Home", 0x73u16),
        ("End", 0x77u16),
        ("ArrowLeft", 0x7Bu16),
        ("ArrowRight", 0x7Cu16),
        ("ArrowDown", 0x7Du16),
        ("ArrowUp", 0x7Eu16),
    ]
}

/// The code of a key that is named by its character, in lower case.
pub open spec fn character_code(c: char) -> Option<u16> {
    match c {
        'a' => Some(0x00u16),
        's' => Some(0x01u16),
        'd' => Some(0x02u16),
        'f' => Some(0x03u16),
        'h' => Some(0x04u16),
        'g' => Some(0x05u16),
        'z' => Some(0x06u16),
        'x' => Some(0x07u16),
        'c' => Some(0x08u16),
        'v' => Some(0x09u16),
        'b' => Some(0x0Bu16),
        'q' => Some(0x0Cu16),
        'w' => Some(0x0Du16),
        'e' => Some(0x0Eu16),
        'r' => Some(0x0Fu16),
        'y' => Some(0x10u16),
        't' => Some(0x11u16),
        '1' => Some(0x12u16),
        '2' => Some(0x13u16),
        '3' => Some(0x14u16),
        '4' => Some(0x15u16),
        '6' => Some(0x16u16),
        '5' => Some(0x17u16),
        '=' => Some(0x18u16),
        '9' => Some(0x19u16),
        '7' => Some(0x1Au16),
        '-' => Some(0x1Bu16),
        '8' => Some(0x1Cu16),
        '0' => Some(0x1Du16),
        ']' => Some(0x1Eu16),
        'o' => Some(0x1Fu16),
        'u' => Some(0x20u16),
        '[' => Some(0x21u16),
        'i' => Some(0x22u16),
        'p' => Some(0x23u16),
        'l' => Some(0x25u16),
        'j' => Some(0x26u16),
        '\'' => Some(0x27u16),
        'k' => Some(0x28u16),
        ';' => Some(0x29u16),
        '\\' => Some(0x2Au16),
        ',' => Some(0x2Bu16),
        '/' => Some(0x2Cu16),
        'n' => Some(0x2Du16),
        'm' => Some(0x2Eu16),
        '.' => Some(0x2Fu16),
        _ => None,
    }
}

fn code_of_character(c: char) -> (r: Option<u16>)
    ensures
        r == character_code(c),
{
    match c {
        'a' => Some(0x00),
        's' => Some(0x01),
        'd' => Some(0x02),
        'f' => Some(0x03),
        'h' => Some(0x04),
        'g' => Some(0x05),
        'z' => Some(0x06),
        'x' => Some(0x07),
        'c' => Some(0x08),
        'v' => Some(0x09),
        'b' => Some(0x0B),
        'q' => Some(0x0C),
        'w' => Some(0x0D),
        'e' => Some(0x0E),
        'r' => Some(0x0F),
        'y' => Some(0x10),
        't' => Some(0x11),
        '1' => Some(0x12),
        '2' => Some(0x13),
        '3' => Some(0x14),
        '4' => Some(0x15),
        '6' => Some(0x16),
        '5' => Some(0x17),
        '=' => Some(0x18),
        '9' => Some(0x19),
        '7' => Some(0x1A),
        '-' => Some(0x1B),
        '8' => Some(0x1C),
        '0' => Some(0x1D),
        ']' => Some(0x1E),
        'o' => Some(0x1F),
        'u' => Some(0x20),
        '[' => Some(0x21),
        'i' => Some(0x22),
        'p' => Some(0x23),
        'l' => Some(0x25),
        'j' => Some(0x26),
        '\'' => Some(0x27),
        'k' => Some(0x28),
        ';' => Some(0x29),
        '\\' => Some(0x2A),
        ',' => Some(0x2B),
        '/' => Some(0x2C),
        'n' => Some(0x2D),
        'm' => Some(0x2E),
        '.' => Some(0x2F),
        _ => None,
    }
}

/// The code of a key: one with a name, or one named by its character.
pub open spec fn key_code(key: Seq<char>) -> Option<u16> {
    match code_in(named_keys(), key) {
        Some(code) => Some(code),
        None => if key.len() == 1 {
            character_code(ascii_lower(key[0]))
        } else {
            None
        },
    }
}

/// The key code of a key.
pub fn parse_virtual_key(key: &str) -> (r: Result<u16, AdapterError>)
    ensures
        match r {
            Ok(code) => key_code(key@) == Some(code),
            Err(e) => key_code(key@) is None && e@ == unsupported_key(),
        },
{
    let table = [
        ("Enter", 0x24u16),
        ("Tab", 0x30u16),
        ("Space", 0x31u16),
        ("Backspace", 0x33u16),
        ("Escape", 0x35u16),
        ("Delete", 0x75u16),
        ("Home", 0x73u16),
        ("End", 0x77u16),
        ("ArrowLeft", 0x7Bu16),
        ("ArrowRight", 0x7Cu16),
        ("ArrowDown", 0x7Du16),
        ("ArrowUp", 0x7Eu16),
    ];
    assert(table@ =~= named_keys());
    if let Some(code) = lookup_code(&table, key) {
        return Ok(code);
    }
    let chars = to_chars(key);
    if chars.len() == 1 {
        if let Some(code) = code_of_character(lower_char(chars[0])) {
            return Ok(code);
        }
    }
    Err(AdapterError::unsupported("key chord contains an unsupported key".to_owned()))
}

/// The modifiers that are held.
#[derive(Debug, Clone, Copy, PartialEq, Eq, Structural)]
pub struct Modifiers {
    pub command: bool,
    pub control: bool,
    pub shift: bool,
    pub alternate: bool,
}

/// `held` and one more modifier, where the name is one of a modifier.
pub open spec fn with_modifier(held: Modifiers, name: Seq<char>) -> Option<Modifiers> {
    if name == "CmdOrControl"@ || name == "Command"@ || name == "Cmd"@ || name == "Meta"@ {
        Some(Modifiers { command: true, ..held })
    } else if name == "Control"@ || name == "Ctrl"@ {
        Some(Modifiers { control: true, ..held })
    } else if name == "Shift"@ {
        Some(Modifiers { shift: true, ..held })
    } else if name == "Alt"@ || name == "Option"@ {
        Some(Modifiers { alternate: true, ..held })
    } else {
        None
    }
}

fn add_modifier(held: Modifiers, name: &str) -> (r: Option<Modifiers>)
    ensures
        r == with_modifier(held, name@),
{
    if same_text(name, "CmdOrControl") || same_text(name, "Command") || same_text(name, "Cmd")
        || same_text(name, "Meta") {
        Some(Modifiers { command: true, ..held })
    } else if same_text(name, "Control") || same_text(name, "Ctrl") {
        Some(Modifiers { control: true, ..held })
    } else if same_text(name, "Shift") {
        Some(Modifiers { shift: true, ..held })
    } else if same_text(name, "Alt") || same_text(name, "Option") {
        Some(Modifiers { alternate: true, ..held })
    } else {
        None
    }
}

pub open spec fn none_held() -> Modifiers {
    Modifiers { command: false, control: false, shift: false, alternate: false }
}

/// The modifiers named by the first `n` parts, where all of them are modifiers.
pub open spec fn modifiers_of(parts: Seq<Seq<char>>, n: nat) -> Option<Modifiers>
    decreases n,
{
    if n == 0 || n > parts.len() {
        Some(none_held())
    } else {
        match modifiers_of(parts, (n - 1) as nat) {
            Some(held) => with_modifier(held, parts[n - 1]),
            None => None,
        }
    }
}

/// The flags of an event: one bit for each modifier.
pub open spec fn flags_of(m: Modifiers) -> u64 {
    ((if m.command {
        0x10_0000int
    } else {
        0
    }) + (if m.alternate {
        0x8_0000int
    } else {
        0
    }) + (if m.control {
        0x4_0000int
    } else {
        0
    }) + (if m.shift {
        0x2_0000int
    } else {
        0
    })) as u64
}

fn modifier_flags(m: Modifiers) -> (r: u64)
    ensures
        r == flags_of(m),
{
    let command: u64 = if m.command {
        0x10_0000
    } else {
        0
    };
    let alternate: u64 = if m.alternate {
        0x8_0000
    } else {
        0
    };
    let control: u64 = if m.control {
        0x4_0000
    } else {
        0
    };
    let shift: u64 = if m.shift {
        0x2_0000
    } else {
        0
    };
    command + alternate + control + shift
}

/// A key and the flags of the modifiers held with it.
#[derive(Debug, Clone, Copy, PartialEq, Eq, Structural)]
pub struct KeyPress {
    pub code: u16,
    pub flags: u64,
}

/// What a chord comes to. The last name is the key, and the others are modifiers.
pub open spec fn chord(keys: Seq<char>) -> Result<KeyPress, AdapterErrorView> {
    let parts = chord_parts(keys);
    match key_code(parts.last()) {
        None => Err(unsupported_key()),
        Some(code) => match modifiers_of(parts, (parts.len() - 1) as nat) {
            None => Err(unsupported_modifier()),
            Some(held) => Ok(KeyPress { code, flags: flags_of(held) }),
        },
    }
}

proof fn modifiers_stop(parts: Seq<Seq<char>>, n: nat, m: nat)
    requires
        n <= m <= parts.len(),
        modifiers_of(parts, n) is None,
    ensures
        modifiers_of(parts, m) is None,
    decreases m,
{
    if n < m {
        modifiers_stop(parts, n, (m - 1) as nat);
    }
}

/// The key and the flags of a chord.
pub fn key_chord(keys: &str) -> (r: Result<KeyPress, AdapterError>)
    ensures
        match r {
            Ok(press) => chord(keys@) == Ok::<KeyPress, AdapterErrorView>(press),
            Err(e) => chord(keys@) == Err::<KeyPress, AdapterErrorView>(e@),
        },
{
    let parts = split_chord(keys);
    let last: usize = parts.len() - 1;
    let ghost names = texts(parts@);
    assert(names.last() == parts@[last as int]@);
    let code = match parse_virtual_key(parts[last].as_str()) {
        Ok(code) => code,
        Err(e) => {
            return Err(e);
        },
    };
    let mut held = Modifiers { command: false, control: false, shift: false, alternate: false };
    let mut i: usize = 0;
    while i < last
        invariant
            i <= last < parts@.len(),
            last == parts@.len() - 1,
            names == texts(parts@),
            names == chord_parts(keys@),
            key_code(names.last()) == Some(code),
            modifiers_of(names, i as nat) == Some(held),
        decreases last - i,
    {
        match add_modifier(held, parts[i].as_str()) {
            Some(more) => {
                held = more;
            },
            None => {
                proof {
                    modifiers_stop(names, (i + 1) as nat, last as nat);
                }
                return Err(
                    AdapterError::unsupported(
                        "key chord contains an unsupported modifier".to_owned(),
                    ),
                );
            },
        }
        i = i + 1;
    }
    Ok(KeyPress { code, flags: modifier_flags(held) })
}

/// How many lines a scroll moves: no more than ten at once.
pub fn scroll_lines(delta: i32) -> (r: i32)
    ensures
        r == (if delta < -10 {
            -10
        } else if delta > 10 {
            10int
        } else {
            delta as int
        }),
{
    if delta < -10 {
        -10
    } else if delta > 10 {
        10
    } else {
        delta
    }
}

} // verus!
