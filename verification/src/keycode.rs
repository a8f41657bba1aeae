//! Keycode normalization.
//!
//! The wire `Message::KeyEvent.keycode` is a Linux evdev key code (see
//! `<linux/input-event-codes.h>`). Every other backend translates to and from
//! this canonical form.

use vstd::prelude::*;

verus! {

/// The evdev code of a Win32 virtual-key code, `None` for keys without one
/// (media and browser keys, IME keys and the like).
pub open spec fn spec_vk_to_evdev(vk: u32) -> Option<u16> {
    match vk {
        // Letters (VK_A = 0x41 .. VK_Z = 0x5A)
        0x41 => Some(30u16),
        0x42 => Some(48u16),
        0x43 => Some(46u16),
        0x44 => Some(32u16),
        0x45 => Some(18u16),
        0x46 => Some(33u16),
        0x47 => Some(34u16),
        0x48 => Some(35u16),
        0x49 => Some(23u16),
        0x4A => Some(36u16),
        0x4B => Some(37u16),
        0x4C => Some(38u16),
        0x4D => Some(50u16),
        0x4E => Some(49u16),
        0x4F => Some(24u16),
        0x50 => Some(25u16),
        0x51 => Some(16u16),
        0x52 => Some(19u16),
        0x53 => Some(31u16),
        0x54 => Some(20u16),
        0x55 => Some(22u16),
        0x56 => Some(47u16),
        0x57 => Some(17u16),
        0x58 => Some(45u16),
        0x59 => Some(21u16),
        0x5A => Some(44u16),
        // Top-row digits
        0x30 => Some(11u16),
        0x31 => Some(2u16),
        0x32 => Some(3u16),
        0x33 => Some(4u16),
        0x34 => Some(5u16),
        0x35 => Some(6u16),
        0x36 => Some(7u16),
        0x37 => Some(8u16),
        0x38 => Some(9u16),
        0x39 => Some(10u16),
        // Whitespace / control
        0x0D => Some(28u16),
        0x1B => Some(1u16),
        0x08 => Some(14u16),
        0x09 => Some(15u16),
        0x20 => Some(57u16),
        // Arrows
        0x25 => Some(105u16),
        0x26 => Some(103u16),
        0x27 => Some(106u16),
        0x28 => Some(108u16),
        // Modifiers (left/right specific)
        0xA0 => Some(42u16),
        0xA1 => Some(54u16),
        0xA2 => Some(29u16),
        0xA3 => Some(97u16),
        0xA4 => Some(56u16),
        0xA5 => Some(100u16),
        0x5B => Some(125u16),
        0x5C => Some(126u16),
        // Function keys
        0x70 => Some(59u16),
        0x71 => Some(60u16),
        0x72 => Some(61u16),
        0x73 => Some(62u16),
        0x74 => Some(63u16),
        0x75 => Some(64u16),
        0x76 => Some(65u16),
        0x77 => Some(66u16),
        0x78 => Some(67u16),
        0x79 => Some(68u16),
        0x7A => Some(87u16),
        0x7B => Some(88u16),
        // Editing block
        0x2D => Some(110u16),
        0x2E => Some(111u16),
        0x24 => Some(102u16),
        0x23 => Some(107u16),
        0x21 => Some(104u16),
        0x22 => Some(109u16),
        // Punctuation (US layout)
        0xBA => Some(39u16),
        0xBB => Some(13u16),
        0xBC => Some(51u16),
        0xBD => Some(12u16),
        0xBE => Some(52u16),
        0xBF => Some(53u16),
        0xC0 => Some(41u16),
        0xDB => Some(26u16),
        0xDC => Some(43u16),
        0xDD => Some(27u16),
        0xDE => Some(40u16),
        // Locks
        0x14 => Some(58u16),
        0x90 => Some(69u16),
        0x91 => Some(70u16),
        _ => None,
    }
}

/// Translate a Win32 virtual-key code to its evdev equivalent.
/// Returns `None` for unmapped keys (e.g. media/browser keys, IME).
pub fn vk_to_evdev(vk: u32) -> (code: Option<u16>)
    ensures
        code == spec_vk_to_evdev(vk),
{
    match vk {
        // Letters (VK_A = 0x41 .. VK_Z = 0x5A)
        0x41 => Some(30),  // A -> KEY_A
        0x42 => Some(48),  // B -> KEY_B
        0x43 => Some(46),  // C -> KEY_C
        0x44 => Some(32),  // D -> KEY_D
        0x45 => Some(18),  // E -> KEY_E
        0x46 => Some(33),  // F -> KEY_F
        0x47 => Some(34),  // G -> KEY_G
        0x48 => Some(35),  // H -> KEY_H
        0x49 => Some(23),  // I -> KEY_I
        0x4A => Some(36),  // J -> KEY_J
        0x4B => Some(37),  // K -> KEY_K
        0x4C => Some(38),  // L -> KEY_L
        0x4D => Some(50),  // M -> KEY_M
        0x4E => Some(49),  // N -> KEY_N
        0x4F => Some(24),  // O -> KEY_O
        0x50 => Some(25),  // P -> KEY_P
        0x51 => Some(16),  // Q -> KEY_Q
        0x52 => Some(19),  // R -> KEY_R
        0x53 => Some(31),  // S -> KEY_S
        0x54 => Some(20),  // T -> KEY_T
        0x55 => Some(22),  // U -> KEY_U
        0x56 => Some(47),  // V -> KEY_V
        0x57 => Some(17),  // W -> KEY_W
        0x58 => Some(45),  // X -> KEY_X
        0x59 => Some(21),  // Y -> KEY_Y
        0x5A => Some(44),  // Z -> KEY_Z
        // Top-row digits
        0x30 => Some(11),  // 0 -> KEY_0
        0x31 => Some(2),  // 1 -> KEY_1
        0x32 => Some(3),
        0x33 => Some(4),
        0x34 => Some(5),
        0x35 => Some(6),
        0x36 => Some(7),
        0x37 => Some(8),
        0x38 => Some(9),
        0x39 => Some(10),
        // Whitespace / control
        0x0D => Some(28),  // VK_RETURN -> KEY_ENTER
        0x1B => Some(1),  // VK_ESCAPE -> KEY_ESC
        0x08 => Some(14),  // VK_BACK -> KEY_BACKSPACE
        0x09 => Some(15),  // VK_TAB -> KEY_TAB
        0x20 => Some(57),  // VK_SPACE -> KEY_SPACE
        // Arrows
        0x25 => Some(105),  // VK_LEFT -> KEY_LEFT
        0x26 => Some(103),  // VK_UP -> KEY_UP
        0x27 => Some(106),  // VK_RIGHT -> KEY_RIGHT
        0x28 => Some(108),  // VK_DOWN -> KEY_DOWN
        // Modifiers (left/right specific)
        0xA0 => Some(42),  // VK_LSHIFT -> KEY_LEFTSHIFT
        0xA1 => Some(54),  // VK_RSHIFT -> KEY_RIGHTSHIFT
        0xA2 => Some(29),  // VK_LCONTROL -> KEY_LEFTCTRL
        0xA3 => Some(97),  // VK_RCONTROL -> KEY_RIGHTCTRL
        0xA4 => Some(56),  // VK_LMENU -> KEY_LEFTALT
        0xA5 => Some(100),  // VK_RMENU -> KEY_RIGHTALT
        0x5B => Some(125),  // VK_LWIN -> KEY_LEFTMETA
        0x5C => Some(126),  // VK_RWIN -> KEY_RIGHTMETA
        // Function keys
        0x70 => Some(59),  // F1
        0x71 => Some(60),
        0x72 => Some(61),
        0x73 => Some(62),
        0x74 => Some(63),
        0x75 => Some(64),
        0x76 => Some(65),
        0x77 => Some(66),
        0x78 => Some(67),
        0x79 => Some(68),
        0x7A => Some(87),  // F11
        0x7B => Some(88),  // F12
        // Editing block
        0x2D => Some(110),  // VK_INSERT -> KEY_INSERT
        0x2E => Some(111),  // VK_DELETE -> KEY_DELETE
        0x24 => Some(102),  // VK_HOME -> KEY_HOME
        0x23 => Some(107),  // VK_END -> KEY_END
        0x21 => Some(104),  // VK_PRIOR -> KEY_PAGEUP
        0x22 => Some(109),  // VK_NEXT -> KEY_PAGEDOWN
        // Punctuation (US layout)
        0xBA => Some(39),  // VK_OEM_1 (;:) -> KEY_SEMICOLON
        0xBB => Some(13),  // VK_OEM_PLUS (=+) -> KEY_EQUAL
        0xBC => Some(51),  // VK_OEM_COMMA -> KEY_COMMA
        0xBD => Some(12),  // VK_OEM_MINUS -> KEY_MINUS
        0xBE => Some(52),  // VK_OEM_PERIOD -> KEY_DOT
        0xBF => Some(53),  // VK_OEM_2 (/?) -> KEY_SLASH
        0xC0 => Some(41),  // VK_OEM_3 (`~) -> KEY_GRAVE
        0xDB => Some(26),  // VK_OEM_4 ([{) -> KEY_LEFTBRACE
        0xDC => Some(43),  // VK_OEM_5 (\|) -> KEY_BACKSLASH
        0xDD => Some(27),  // VK_OEM_6 (]}) -> KEY_RIGHTBRACE
        0xDE => Some(40),  // VK_OEM_7 ('") -> KEY_APOSTROPHE
        // Locks
        0x14 => Some(58),  // VK_CAPITAL -> KEY_CAPSLOCK
        0x90 => Some(69),  // VK_NUMLOCK -> KEY_NUMLOCK
        0x91 => Some(70),  // VK_SCROLL -> KEY_SCROLLLOCK
        _ => None,
    }
}

/// The virtual key that the table maps to a given evdev code; the codes
/// it never produces are sent to 0, which is no virtual key.
spec fn evdev_origin(code: u16) -> u32 {
    match code {
        1 => 0x1B,
        2 => 0x31,
        3 => 0x32,
        4 => 0x33,
        5 => 0x34,
        6 => 0x35,
        7 => 0x36,
        8 => 0x37,
        9 => 0x38,
        10 => 0x39,
        11 => 0x30,
        12 => 0xBD,
        13 => 0xBB,
        14 => 0x08,
        15 => 0x09,
        16 => 0x51,
        17 => 0x57,
        18 => 0x45,
        19 => 0x52,
        20 => 0x54,
        21 => 0x59,
        22 => 0x55,
        23 => 0x49,
        24 => 0x4F,
        25 => 0x50,
        26 => 0xDB,
        27 => 0xDD,
        28 => 0x0D,
        29 => 0xA2,
        30 => 0x41,
        31 => 0x53,
        32 => 0x44,
        33 => 0x46,
        34 => 0x47,
        35 => 0x48,
        36 => 0x4A,
        37 => 0x4B,
        38 => 0x4C,
        39 => 0xBA,
        40 => 0xDE,
        41 => 0xC0,
        42 => 0xA0,
        43 => 0xDC,
        44 => 0x5A,
        45 => 0x58,
        46 => 0x43,
        47 => 0x56,
        48 => 0x42,
        49 => 0x4E,
        50 => 0x4D,
        51 => 0xBC,
        52 => 0xBE,
        53 => 0xBF,
        54 => 0xA1,
        56 => 0xA4,
        57 => 0x20,
        58 => 0x14,
        59 => 0x70,
        60 => 0x71,
        61 => 0x72,
        62 => 0x73,
        63 => 0x74,
        64 => 0x75,
        65 => 0x76,
        66 => 0x77,
        67 => 0x78,
        68 => 0x79,
        69 => 0x90,
        70 => 0x91,
        87 => 0x7A,
        88 => 0x7B,
        97 => 0xA3,
        100 => 0xA5,
        102 => 0x24,
        103 => 0x26,
        104 => 0x21,
        105 => 0x25,
        106 => 0x27,
        107 => 0x23,
        108 => 0x28,
        109 => 0x22,
        110 => 0x2D,
        111 => 0x2E,
        125 => 0x5B,
        126 => 0x5C,
        _ => 0,
    }
}

proof fn lemma_evdev_origin(vk: u32)
    ensures
        spec_vk_to_evdev(vk) matches Some(code) ==> evdev_origin(code) == vk,
{
}

/// Distinct virtual keys never share an evdev code, so the table can be read
/// backwards without ambiguity.
pub proof fn lemma_vk_to_evdev_injective(vk1: u32, vk2: u32)
    requires
        spec_vk_to_evdev(vk1) is Some,
        spec_vk_to_evdev(vk1) == spec_vk_to_evdev(vk2),
    ensures
        vk1 == vk2,
{
    lemma_evdev_origin(vk1);
    lemma_evdev_origin(vk2);
}

/// Every code the table produces is a keyboard key code, between `KEY_ESC`
/// (1) and `KEY_MICMUTE` (248).
pub proof fn lemma_vk_to_evdev_keyboard_range(vk: u32)
    ensures
        spec_vk_to_evdev(vk) matches Some(code) ==> 1 <= code <= 248,
{
}

/// The letters of a keyboard row, left to right.
pub open spec fn letter_row(row: int) -> Seq<char> {
    if row == 0 {
        seq!['Q', 'W', 'E', 'R', 'T', 'Y', 'U', 'I', 'O', 'P']
    } else if row == 1 {
        seq!['A', 'S', 'D', 'F', 'G', 'H', 'J', 'K', 'L']
    } else {
        seq!['Z', 'X', 'C', 'V', 'B', 'N', 'M']
    }
}

/// The evdev code of the first letter of a keyboard row: `KEY_Q` (16),
/// `KEY_A` (30), `KEY_Z` (44).
pub open spec fn letter_row_start(row: int) -> int {
    if row == 0 {
        16
    } else if row == 1 {
        30
    } else {
        44
    }
}

/// A letter key's virtual key is the letter's upper-case ASCII code, and evdev
/// numbers the letters row by row across the keyboard: the letters of each
/// row get consecutive codes from the row's first letter on.
pub proof fn lemma_letters_follow_keyboard_rows(row: int, i: int)
    requires
        0 <= row < 3,
        0 <= i < letter_row(row).len(),
    ensures
        spec_vk_to_evdev(letter_row(row)[i] as u32) == Some((letter_row_start(row) + i) as u16),
{
    if row == 0 {
        assert(i == 0 || i == 1 || i == 2 || i == 3 || i == 4 || i == 5 || i == 6 || i == 7 || i == 8 || i == 9);
    } else if row == 1 {
        assert(i == 0 || i == 1 || i == 2 || i == 3 || i == 4 || i == 5 || i == 6 || i == 7 || i == 8);
    } else {
        assert(i == 0 || i == 1 || i == 2 || i == 3 || i == 4 || i == 5 || i == 6);
    }
}

/// The top-row digits: virtual keys `0x30 + d` (the ASCII digits) go to
/// `KEY_1` (2) .. `KEY_9` (10) for 1..9, and `0` goes to `KEY_0` (11), the
/// last key of the row. The function keys F1..F10 (`0x70 + i`) go to
/// `KEY_F1` (59) .. `KEY_F10` (68), and F11, F12 to 87, 88.
pub proof fn lemma_digits_and_function_keys(d: u32)
    ensures
        1 <= d <= 9 ==> spec_vk_to_evdev((0x30 + d) as u32) == Some((d + 1) as u16),
        spec_vk_to_evdev(0x30) == Some(11u16),
        d < 10 ==> spec_vk_to_evdev((0x70 + d) as u32) == Some((59 + d) as u16),
        spec_vk_to_evdev(0x7A) == Some(87u16),
        spec_vk_to_evdev(0x7B) == Some(88u16),
{
}

/// The remaining keys go to the evdev code of the same physical key, as
/// `winuser.h` and `linux/input-event-codes.h` name them.
pub proof fn lemma_named_keys()
    ensures
        // VK_RETURN -> KEY_ENTER, VK_ESCAPE -> KEY_ESC, VK_BACK -> KEY_BACKSPACE,
        // VK_TAB -> KEY_TAB, VK_SPACE -> KEY_SPACE
        spec_vk_to_evdev(0x0D) == Some(28u16),
        spec_vk_to_evdev(0x1B) == Some(1u16),
        spec_vk_to_evdev(0x08) == Some(14u16),
        spec_vk_to_evdev(0x09) == Some(15u16),
        spec_vk_to_evdev(0x20) == Some(57u16),
        // VK_LEFT/UP/RIGHT/DOWN -> KEY_LEFT/UP/RIGHT/DOWN
        spec_vk_to_evdev(0x25) == Some(105u16),
        spec_vk_to_evdev(0x26) == Some(103u16),
        spec_vk_to_evdev(0x27) == Some(106u16),
        spec_vk_to_evdev(0x28) == Some(108u16),
        // VK_LSHIFT, VK_RSHIFT, VK_LCONTROL, VK_RCONTROL, VK_LMENU, VK_RMENU,
        // VK_LWIN, VK_RWIN -> KEY_LEFTSHIFT, KEY_RIGHTSHIFT, KEY_LEFTCTRL,
        // KEY_RIGHTCTRL, KEY_LEFTALT, KEY_RIGHTALT, KEY_LEFTMETA, KEY_RIGHTMETA
        spec_vk_to_evdev(0xA0) == Some(42u16),
        spec_vk_to_evdev(0xA1) == Some(54u16),
        spec_vk_to_evdev(0xA2) == Some(29u16),
        spec_vk_to_evdev(0xA3) == Some(97u16),
        spec_vk_to_evdev(0xA4) == Some(56u16),
        spec_vk_to_evdev(0xA5) == Some(100u16),
        spec_vk_to_evdev(0x5B) == Some(125u16),
        spec_vk_to_evdev(0x5C) == Some(126u16),
        // VK_INSERT, VK_DELETE, VK_HOME, VK_END, VK_PRIOR, VK_NEXT -> KEY_INSERT,
        // KEY_DELETE, KEY_HOME, KEY_END, KEY_PAGEUP, KEY_PAGEDOWN
        spec_vk_to_evdev(0x2D) == Some(110u16),
        spec_vk_to_evdev(0x2E) == Some(111u16),
        spec_vk_to_evdev(0x24) == Some(102u16),
        spec_vk_to_evdev(0x23) == Some(107u16),
        spec_vk_to_evdev(0x21) == Some(104u16),
        spec_vk_to_evdev(0x22) == Some(109u16),
        // VK_OEM_1 (;:) -> KEY_SEMICOLON, VK_OEM_PLUS (=+) -> KEY_EQUAL,
        // VK_OEM_COMMA -> KEY_COMMA, VK_OEM_MINUS -> KEY_MINUS,
        // VK_OEM_PERIOD -> KEY_DOT, VK_OEM_2 (/?) -> KEY_SLASH,
        // VK_OEM_3 (`~) -> KEY_GRAVE, VK_OEM_4 ([{) -> KEY_LEFTBRACE,
        // VK_OEM_5 (\|) -> KEY_BACKSLASH, VK_OEM_6 (]}) -> KEY_RIGHTBRACE,
        // VK_OEM_7 ('") -> KEY_APOSTROPHE
        spec_vk_to_evdev(0xBA) == Some(39u16),
        spec_vk_to_evdev(0xBB) == Some(13u16),
        spec_vk_to_evdev(0xBC) == Some(51u16),
        spec_vk_to_evdev(0xBD) == Some(12u16),
        spec_vk_to_evdev(0xBE) == Some(52u16),
        spec_vk_to_evdev(0xBF) == Some(53u16),
        spec_vk_to_evdev(0xC0) == Some(41u16),
        spec_vk_to_evdev(0xDB) == Some(26u16),
        spec_vk_to_evdev(0xDC) == Some(43u16),
        spec_vk_to_evdev(0xDD) == Some(27u16),
        spec_vk_to_evdev(0xDE) == Some(40u16),
        // VK_CAPITAL, VK_NUMLOCK, VK_SCROLL -> KEY_CAPSLOCK, KEY_NUMLOCK,
        // KEY_SCROLLLOCK
        spec_vk_to_evdev(0x14) == Some(58u16),
        spec_vk_to_evdev(0x90) == Some(69u16),
        spec_vk_to_evdev(0x91) == Some(70u16),
{
}

/// The keys the table maps are exactly the top-row digits (`0x30..=0x39`),
/// the letters (`0x41..=0x5A`), F1..F12 (`0x70..=0x7B`), Enter, Escape,
/// Backspace, Tab, Space, the arrows, the left and right modifiers and
/// Windows keys, the editing block, the US punctuation keys and the three
/// locks; every other virtual key has no evdev code.
pub proof fn lemma_mapped_keys_are_exactly(vk: u32)
    ensures
        spec_vk_to_evdev(vk) is Some <==> {
            ||| 0x30 <= vk <= 0x39
            ||| 0x41 <= vk <= 0x5A
            ||| 0x70 <= vk <= 0x7B
            ||| vk == 0x0D || vk == 0x1B || vk == 0x08 || vk == 0x09 || vk == 0x20
            ||| 0x25 <= vk <= 0x28
            ||| 0xA0 <= vk <= 0xA5 || vk == 0x5B || vk == 0x5C
            ||| 0x21 <= vk <= 0x24 || vk == 0x2D || vk == 0x2E
            ||| 0xBA <= vk <= 0xC0 || 0xDB <= vk <= 0xDE
            ||| vk == 0x14 || vk == 0x90 || vk == 0x91
        },
{
}

} // verus!
