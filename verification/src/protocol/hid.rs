//! USB HID usage tables and key mapping (Usage Page 0x07).

use vstd::prelude::*;

use crate::event::{HidUsage, Modifiers};

verus! {

/// Whether `u` is a modifier usage (`0xE0..=0xE7`).
pub open spec fn spec_is_modifier(u: u8) -> bool {
    0xE0 <= u <= 0xE7
}

/// Returns `true` if `usage` is a modifier key (LeftCtrl..RightGui,
/// `0xE0..=0xE7`); modifiers travel in the modifier byte, not the key array.
pub fn is_modifier(usage: HidUsage) -> (r: bool)
    ensures
        r == spec_is_modifier(usage.0),
{
    0xE0 <= usage.0 && usage.0 <= 0xE7
}

/// Maps a modifier HID usage (`0xE0..=0xE7`) to its CH9329 modifier bit
/// (LeftCtrl -> `0x01`, ..., RightGui -> `0x80`).
pub fn modifier_bit(usage: HidUsage) -> (r: Option<Modifiers>)
    ensures
        spec_is_modifier(usage.0) ==> r == Some(Modifiers(1u8 << ((usage.0 - 0xE0) as u8))),
        !spec_is_modifier(usage.0) ==> r is None,
{
    if is_modifier(usage) {
        Some(Modifiers(1u8 << (usage.0 - 0xE0)))
    } else {
        None
    }
}

/// The USB HID usage of a Linux evdev scancode (`KEY_*`), where one exists.
pub open spec fn spec_evdev_usage(code: u16) -> Option<u8> {
    match code {
        1 => Some(0x29u8), // Esc
        2 => Some(0x1Eu8), // 1
        3 => Some(0x1Fu8), // 2
        4 => Some(0x20u8), // 3
        5 => Some(0x21u8), // 4
        6 => Some(0x22u8), // 5
        7 => Some(0x23u8), // 6
        8 => Some(0x24u8), // 7
        9 => Some(0x25u8), // 8
        10 => Some(0x26u8), // 9
        11 => Some(0x27u8), // 0
        12 => Some(0x2Du8), // -
        13 => Some(0x2Eu8), // =
        14 => Some(0x2Au8), // Backspace
        15 => Some(0x2Bu8), // Tab
        16 => Some(0x14u8), // q
        17 => Some(0x1Au8), // w
        18 => Some(0x08u8), // e
        19 => Some(0x15u8), // r
        20 => Some(0x17u8), // t
        21 => Some(0x1Cu8), // y
        22 => Some(0x18u8), // u
        23 => Some(0x0Cu8), // i
        24 => Some(0x12u8), // o
        25 => Some(0x13u8), // p
        26 => Some(0x2Fu8), // [
        27 => Some(0x30u8), // ]
        28 => Some(0x28u8), // Enter
        29 => Some(0xE0u8), // LeftCtrl
        30 => Some(0x04u8), // a
        31 => Some(0x16u8), // s
        32 => Some(0x07u8), // d
        33 => Some(0x09u8), // f
        34 => Some(0x0Au8), // g
        35 => Some(0x0Bu8), // h
        36 => Some(0x0Du8), // j
        37 => Some(0x0Eu8), // k
        38 => Some(0x0Fu8), // l
        39 => Some(0x33u8), // ;
        40 => Some(0x34u8), // '
        41 => Some(0x35u8), // `
        42 => Some(0xE1u8), // LeftShift
        43 => Some(0x32u8), // backslash (C++ table maps KEY_BACKSLASH to Non-US 0x32)
        44 => Some(0x1Du8), // z
        45 => Some(0x1Bu8), // x
        46 => Some(0x06u8), // c
        47 => Some(0x19u8), // v
        48 => Some(0x05u8), // b
        49 => Some(0x11u8), // n
        50 => Some(0x10u8), // m
        51 => Some(0x36u8), // ,
        52 => Some(0x37u8), // .
        53 => Some(0x38u8), // /
        54 => Some(0xE5u8), // RightShift
        55 => Some(0x55u8), // KP *
        56 => Some(0xE2u8), // LeftAlt
        57 => Some(0x2Cu8), // Space
        58 => Some(0x39u8), // CapsLock
        59 => Some(0x3Au8), // F1
        60 => Some(0x3Bu8), // F2
        61 => Some(0x3Cu8), // F3
        62 => Some(0x3Du8), // F4
        63 => Some(0x3Eu8), // F5
        64 => Some(0x3Fu8), // F6
        65 => Some(0x40u8), // F7
        66 => Some(0x41u8), // F8
        67 => Some(0x42u8), // F9
        68 => Some(0x43u8), // F10
        69 => Some(0x53u8), // NumLock
        70 => Some(0x47u8), // ScrollLock
        71 => Some(0x5Fu8), // KP 7
        72 => Some(0x60u8), // KP 8
        73 => Some(0x61u8), // KP 9
        74 => Some(0x56u8), // KP -
        75 => Some(0x5Cu8), // KP 4
        76 => Some(0x5Du8), // KP 5
        77 => Some(0x5Eu8), // KP 6
        78 => Some(0x57u8), // KP +
        79 => Some(0x59u8), // KP 1
        80 => Some(0x5Au8), // KP 2
        81 => Some(0x5Bu8), // KP 3
        82 => Some(0x62u8), // KP 0
        83 => Some(0x63u8), // KP .
        86 => Some(0x64u8), // KEY_102ND: ISO extra key — intentional additive divergence
        87 => Some(0x44u8), // F11
        88 => Some(0x45u8), // F12
        96 => Some(0x58u8), // KP Enter
        97 => Some(0xE4u8), // RightCtrl
        98 => Some(0x54u8), // KP /
        99 => Some(0x46u8), // PrintScreen (SysRq)
        100 => Some(0xE6u8), // RightAlt
        102 => Some(0x4Au8), // Home
        103 => Some(0x52u8), // Up
        104 => Some(0x4Bu8), // PageUp
        105 => Some(0x50u8), // Left
        106 => Some(0x4Fu8), // Right
        107 => Some(0x4Du8), // End
        108 => Some(0x51u8), // Down
        109 => Some(0x4Eu8), // PageDown
        110 => Some(0x49u8), // Insert
        111 => Some(0x4Cu8), // Delete
        119 => Some(0x48u8), // Pause
        125 => Some(0xE3u8), // LeftMeta (Super)
        126 => Some(0xE7u8), // RightMeta
        127 => Some(0x65u8), // Menu (Application)
        _ => None,
    }
}

/// Maps a Linux evdev scancode to a USB HID usage, so the target sees the same
/// *physical* key regardless of host layout. `None` for keys without a
/// standard usage.
pub fn evdev_to_hid(code: u16) -> (r: Option<HidUsage>)
    ensures
        match spec_evdev_usage(code) {
            Some(u) => r == Some(HidUsage(u)),
            None => r is None,
        },
{
    let usage: u8 = match code {
        1 => 0x29, // Esc
        2 => 0x1E, // 1
        3 => 0x1F, // 2
        4 => 0x20, // 3
        5 => 0x21, // 4
        6 => 0x22, // 5
        7 => 0x23, // 6
        8 => 0x24, // 7
        9 => 0x25, // 8
        10 => 0x26, // 9
        11 => 0x27, // 0
        12 => 0x2D, // -
        13 => 0x2E, // =
        14 => 0x2A, // Backspace
        15 => 0x2B, // Tab
        16 => 0x14, // q
        17 => 0x1A, // w
        18 => 0x08, // e
        19 => 0x15, // r
        20 => 0x17, // t
        21 => 0x1C, // y
        22 => 0x18, // u
        23 => 0x0C, // i
        24 => 0x12, // o
        25 => 0x13, // p
        26 => 0x2F, // [
        27 => 0x30, // ]
        28 => 0x28, // Enter
        29 => 0xE0, // LeftCtrl
        30 => 0x04, // a
        31 => 0x16, // s
        32 => 0x07, // d
        33 => 0x09, // f
        34 => 0x0A, // g
        35 => 0x0B, // h
        36 => 0x0D, // j
        37 => 0x0E, // k
        38 => 0x0F, // l
        39 => 0x33, // ;
        40 => 0x34, // '
        41 => 0x35, // `
        42 => 0xE1, // LeftShift
        43 => 0x32, // backslash (C++ table maps KEY_BACKSLASH to Non-US 0x32)
        44 => 0x1D, // z
        45 => 0x1B, // x
        46 => 0x06, // c
        47 => 0x19, // v
        48 => 0x05, // b
        49 => 0x11, // n
        50 => 0x10, // m
        51 => 0x36, // ,
        52 => 0x37, // .
        53 => 0x38, // /
        54 => 0xE5, // RightShift
        55 => 0x55, // KP *
        56 => 0xE2, // LeftAlt
        57 => 0x2C, // Space
        58 => 0x39, // CapsLock
        59 => 0x3A, // F1
        60 => 0x3B, // F2
        61 => 0x3C, // F3
        62 => 0x3D, // F4
        63 => 0x3E, // F5
        64 => 0x3F, // F6
        65 => 0x40, // F7
        66 => 0x41, // F8
        67 => 0x42, // F9
        68 => 0x43, // F10
        69 => 0x53, // NumLock
        70 => 0x47, // ScrollLock
        71 => 0x5F, // KP 7
        72 => 0x60, // KP 8
        73 => 0x61, // KP 9
        74 => 0x56, // KP -
        75 => 0x5C, // KP 4
        76 => 0x5D, // KP 5
        77 => 0x5E, // KP 6
        78 => 0x57, // KP +
        79 => 0x59, // KP 1
        80 => 0x5A, // KP 2
        81 => 0x5B, // KP 3
        82 => 0x62, // KP 0
        83 => 0x63, // KP .
        86 => 0x64, // KEY_102ND: ISO extra key — intentional additive divergence
        87 => 0x44, // F11
        88 => 0x45, // F12
        96 => 0x58, // KP Enter
        97 => 0xE4, // RightCtrl
        98 => 0x54, // KP /
        99 => 0x46, // PrintScreen (SysRq)
        100 => 0xE6, // RightAlt
        102 => 0x4A, // Home
        103 => 0x52, // Up
        104 => 0x4B, // PageUp
        105 => 0x50, // Left
        106 => 0x4F, // Right
        107 => 0x4D, // End
        108 => 0x51, // Down
        109 => 0x4E, // PageDown
        110 => 0x49, // Insert
        111 => 0x4C, // Delete
        119 => 0x48, // Pause
        125 => 0xE3, // LeftMeta (Super)
        126 => 0xE7, // RightMeta
        127 => 0x65, // Menu (Application)
        _ => return None,
    };
    Some(HidUsage(usage))
}

/// The `(modifier byte, usage)` that types `c` on a US layout, where a single
/// keystroke does.
pub open spec fn spec_ascii_to_hid(c: char) -> Option<(u8, u8)> {
    let n = c as u32;
    if 'a' <= c <= 'z' {
        Some((0x00u8, (0x04 + (n - 97)) as u8))
    } else if 'A' <= c <= 'Z' {
        Some((0x02u8, (0x04 + (n - 65)) as u8))
    } else if '1' <= c <= '9' {
        Some((0x00u8, (0x1E + (n - 49)) as u8))
    } else {
        match c {
            '0' => Some((0x00u8, 0x27u8)),
            ' ' => Some((0x00u8, 0x2Cu8)),
            '\n' => Some((0x00u8, 0x28u8)),
            '\t' => Some((0x00u8, 0x2Bu8)),
            '-' => Some((0x00u8, 0x2Du8)),
            '=' => Some((0x00u8, 0x2Eu8)),
            '[' => Some((0x00u8, 0x2Fu8)),
            ']' => Some((0x00u8, 0x30u8)),
            '\\' => Some((0x00u8, 0x31u8)),
            ';' => Some((0x00u8, 0x33u8)),
            '\'' => Some((0x00u8, 0x34u8)),
            '`' => Some((0x00u8, 0x35u8)),
            ',' => Some((0x00u8, 0x36u8)),
            '.' => Some((0x00u8, 0x37u8)),
            '/' => Some((0x00u8, 0x38u8)),
            '!' => Some((0x02u8, 0x1Eu8)),
            '@' => Some((0x02u8, 0x1Fu8)),
            '#' => Some((0x02u8, 0x20u8)),
            '$' => Some((0x02u8, 0x21u8)),
            '%' => Some((0x02u8, 0x22u8)),
            '^' => Some((0x02u8, 0x23u8)),
            '&' => Some((0x02u8, 0x24u8)),
            '*' => Some((0x02u8, 0x25u8)),
            '(' => Some((0x02u8, 0x26u8)),
            ')' => Some((0x02u8, 0x27u8)),
            '_' => Some((0x02u8, 0x2Du8)),
            '+' => Some((0x02u8, 0x2Eu8)),
            '{' => Some((0x02u8, 0x2Fu8)),
            '}' => Some((0x02u8, 0x30u8)),
            '|' => Some((0x02u8, 0x31u8)),
            ':' => Some((0x02u8, 0x33u8)),
            '"' => Some((0x02u8, 0x34u8)),
            '~' => Some((0x02u8, 0x35u8)),
            '<' => Some((0x02u8, 0x36u8)),
            '>' => Some((0x02u8, 0x37u8)),
            '?' => Some((0x02u8, 0x38u8)),
            _ => None,
        }
    }
}

/// Maps a printable ASCII character to the `(modifiers, usage)` needed to
/// type it on a **US layout**. `None` for characters without a
/// single-keystroke US mapping.
pub fn ascii_to_hid(c: char) -> (r: Option<(Modifiers, HidUsage)>)
    ensures
        match spec_ascii_to_hid(c) {
            Some((m, u)) => r == Some((Modifiers(m), HidUsage(u))),
            None => r is None,
        },
{
    let n = c as u32;
    if 'a' <= c && c <= 'z' {
        return Some((Modifiers(0x00), HidUsage((0x04 + (n - 97)) as u8)));
    }
    if 'A' <= c && c <= 'Z' {
        return Some((Modifiers(0x02), HidUsage((0x04 + (n - 65)) as u8)));
    }
    if '1' <= c && c <= '9' {
        return Some((Modifiers(0x00), HidUsage((0x1E + (n - 49)) as u8)));
    }
    let (mods, usage): (u8, u8) = match c {
        '0' => (0x00, 0x27),
        ' ' => (0x00, 0x2C),
        '\n' => (0x00, 0x28),
        '\t' => (0x00, 0x2B),
        '-' => (0x00, 0x2D),
        '=' => (0x00, 0x2E),
        '[' => (0x00, 0x2F),
        ']' => (0x00, 0x30),
        '\\' => (0x00, 0x31),
        ';' => (0x00, 0x33),
        '\'' => (0x00, 0x34),
        '`' => (0x00, 0x35),
        ',' => (0x00, 0x36),
        '.' => (0x00, 0x37),
        '/' => (0x00, 0x38),
        '!' => (0x02, 0x1E),
        '@' => (0x02, 0x1F),
        '#' => (0x02, 0x20),
        '$' => (0x02, 0x21),
        '%' => (0x02, 0x22),
        '^' => (0x02, 0x23),
        '&' => (0x02, 0x24),
        '*' => (0x02, 0x25),
        '(' => (0x02, 0x26),
        ')' => (0x02, 0x27),
        '_' => (0x02, 0x2D),
        '+' => (0x02, 0x2E),
        '{' => (0x02, 0x2F),
        '}' => (0x02, 0x30),
        '|' => (0x02, 0x31),
        ':' => (0x02, 0x33),
        '"' => (0x02, 0x34),
        '~' => (0x02, 0x35),
        '<' => (0x02, 0x36),
        '>' => (0x02, 0x37),
        '?' => (0x02, 0x38),
        _ => return None,
    };
    Some((Modifiers(mods), HidUsage(usage)))
}

/// Every printable ASCII character (space through `~`), and newline and
/// tab, can be typed with a single US-layout keystroke.
pub proof fn lemma_printable_ascii_always_maps(c: char)
    requires
        (' ' <= c <= '~') || c == '\n' || c == '\t',
    ensures
        spec_ascii_to_hid(c) is Some,
{
    let n = c as u32;
    assert(32 <= n <= 126 || n == 10 || n == 9);
}

/// The characters a US-layout keyboard types with key `usage` (page 0x07),
/// without and with Shift; `None` where the key types no character.
pub open spec fn us_key_chars(usage: u8) -> Option<(char, Option<char>)> {
    if 0x04 <= usage <= 0x1D {
        Some(((usage - 0x04 + 97) as char, Some((usage - 0x04 + 65) as char)))
    } else {
        match usage {
            0x1E => Some(('1', Some('!'))),
            0x1F => Some(('2', Some('@'))),
            0x20 => Some(('3', Some('#'))),
            0x21 => Some(('4', Some('$'))),
            0x22 => Some(('5', Some('%'))),
            0x23 => Some(('6', Some('^'))),
            0x24 => Some(('7', Some('&'))),
            0x25 => Some(('8', Some('*'))),
            0x26 => Some(('9', Some('('))),
            0x27 => Some(('0', Some(')'))),
            0x28 => Some(('\n', None)),
            0x2B => Some(('\t', None)),
            0x2C => Some((' ', None)),
            0x2D => Some(('-', Some('_'))),
            0x2E => Some(('=', Some('+'))),
            0x2F => Some(('[', Some('{'))),
            0x30 => Some((']', Some('}'))),
            0x31 => Some(('\\', Some('|'))),
            0x33 => Some((';', Some(':'))),
            0x34 => Some(('\'', Some('"'))),
            0x35 => Some(('`', Some('~'))),
            0x36 => Some((',', Some('<'))),
            0x37 => Some(('.', Some('>'))),
            0x38 => Some(('/', Some('?'))),
            _ => None,
        }
    }
}

/// The character typed by pressing key `usage` with modifier byte `m`,
/// where `m` holds no modifier or only Left Shift.
pub open spec fn us_typed_char(m: u8, usage: u8) -> Option<char> {
    match us_key_chars(usage) {
        Some((plain, shifted)) => if m == 0x00 {
            Some(plain)
        } else if m == 0x02 {
            shifted
        } else {
            None
        },
        None => None,
    }
}

/// The keystroke chosen for a character types exactly that character on a
/// US layout: its modifier byte is empty or Left Shift alone, and the key
/// pressed with that modifier produces the character. So Shift is held
/// exactly for upper-case letters and shifted symbols, and no two
/// characters share a keystroke.
pub proof fn lemma_ascii_keystroke_types_the_char(c: char)
    ensures
        spec_ascii_to_hid(c) matches Some((m, u)) ==> (m == 0x00 || m == 0x02) && us_typed_char(m, u)
            == Some(c),
{
    let n = c as u32;
    if 'a' <= c <= 'z' {
        assert(((0x04 + (n - 97)) as u8 - 0x04 + 97) as char == c);
    } else if 'A' <= c <= 'Z' {
        assert(((0x04 + (n - 65)) as u8 - 0x04 + 65) as char == c);
    }
}

} // verus!
