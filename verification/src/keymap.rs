//! ASCII to Linux keycode tables, one per keyboard layout.
//!
//! Letters and digits sit on the same physical keys in every supported
//! layout; only the symbol rows differ. Each layout other than US is the US
//! table with a short list of overrides applied on top.
use vstd::prelude::*;

use crate::text::str_eq;
use vstd::compute::RangeAll;

verus! {

/// Press the key with Shift.
pub const FLAG_UPPERCASE: i32 = i32::MIN;
/// Press the key with RightAlt (AltGr).
pub const FLAG_ALTGR: i32 = 0x4000_0000;
/// Dead key: follow it with Space.
pub const FLAG_DEADKEY: i32 = 0x2000_0000;

/// The ISO key left of Z (`< > \\` on Danish).
pub const KEY_102ND: i32 = 86;

// Linux input event codes (linux/input-event-codes.h) of the keys used here.
pub const KEY_1: i32 = 2;
pub const KEY_2: i32 = 3;
pub const KEY_3: i32 = 4;
pub const KEY_4: i32 = 5;
pub const KEY_5: i32 = 6;
pub const KEY_6: i32 = 7;
pub const KEY_7: i32 = 8;
pub const KEY_8: i32 = 9;
pub const KEY_9: i32 = 10;
pub const KEY_0: i32 = 11;
pub const KEY_MINUS: i32 = 12;
pub const KEY_EQUAL: i32 = 13;
pub const KEY_BACKSPACE: i32 = 14;
pub const KEY_TAB: i32 = 15;
pub const KEY_Q: i32 = 16;
pub const KEY_W: i32 = 17;
pub const KEY_E: i32 = 18;
pub const KEY_R: i32 = 19;
pub const KEY_T: i32 = 20;
pub const KEY_Y: i32 = 21;
pub const KEY_U: i32 = 22;
pub const KEY_I: i32 = 23;
pub const KEY_O: i32 = 24;
pub const KEY_P: i32 = 25;
pub const KEY_LEFTBRACE: i32 = 26;
pub const KEY_RIGHTBRACE: i32 = 27;
pub const KEY_ENTER: i32 = 28;
pub const KEY_LEFTCTRL: i32 = 29;
pub const KEY_A: i32 = 30;
pub const KEY_S: i32 = 31;
pub const KEY_D: i32 = 32;
pub const KEY_F: i32 = 33;
pub const KEY_G: i32 = 34;
pub const KEY_H: i32 = 35;
pub const KEY_J: i32 = 36;
pub const KEY_K: i32 = 37;
pub const KEY_L: i32 = 38;
pub const KEY_SEMICOLON: i32 = 39;
pub const KEY_APOSTROPHE: i32 = 40;
pub const KEY_GRAVE: i32 = 41;
pub const KEY_LEFTSHIFT: i32 = 42;
pub const KEY_BACKSLASH: i32 = 43;
pub const KEY_Z: i32 = 44;
pub const KEY_X: i32 = 45;
pub const KEY_C: i32 = 46;
pub const KEY_V: i32 = 47;
pub const KEY_B: i32 = 48;
pub const KEY_N: i32 = 49;
pub const KEY_M: i32 = 50;
pub const KEY_COMMA: i32 = 51;
pub const KEY_DOT: i32 = 52;
pub const KEY_SLASH: i32 = 53;
pub const KEY_RIGHTSHIFT: i32 = 54;
pub const KEY_LEFTALT: i32 = 56;
pub const KEY_SPACE: i32 = 57;
pub const KEY_RIGHTCTRL: i32 = 97;
pub const KEY_RIGHTALT: i32 = 100;
pub const KEY_LEFTMETA: i32 = 125;

/// The keys the virtual keyboard registers: the letter, digit and symbol
/// keys, 102nd, tab, enter, backspace and the modifiers.
pub open spec fn is_supported_key(code: int) -> bool {
    ||| (KEY_Q <= code <= KEY_P)
    ||| (KEY_A <= code <= KEY_L)
    ||| (KEY_Z <= code <= KEY_M)
    ||| (KEY_1 <= code <= KEY_0)
    ||| code == KEY_SPACE
    ||| code == KEY_MINUS
    ||| code == KEY_EQUAL
    ||| code == KEY_LEFTBRACE
    ||| code == KEY_RIGHTBRACE
    ||| code == KEY_SEMICOLON
    ||| code == KEY_APOSTROPHE
    ||| code == KEY_GRAVE
    ||| code == KEY_BACKSLASH
    ||| code == KEY_COMMA
    ||| code == KEY_DOT
    ||| code == KEY_SLASH
    ||| code == KEY_102ND
    ||| code == KEY_TAB
    ||| code == KEY_ENTER
    ||| code == KEY_BACKSPACE
    ||| code == KEY_LEFTCTRL
    ||| code == KEY_RIGHTCTRL
    ||| code == KEY_LEFTALT
    ||| code == KEY_RIGHTALT
    ||| code == KEY_LEFTSHIFT
    ||| code == KEY_RIGHTSHIFT
    ||| code == KEY_LEFTMETA
}

/// The US QWERTY definition of ASCII character `c`: -1 when unmapped, the
/// keycode for an unshifted character, the keycode with `FLAG_UPPERCASE`
/// for a shifted one.
pub open spec fn us_keydef(c: u8) -> i32 {
    match c {
        9u8 => KEY_TAB,  // tab
        10u8 => KEY_ENTER,  // newline
        32u8 => KEY_SPACE,  // space
        33u8 => KEY_1 | FLAG_UPPERCASE,  // '!'
        34u8 => KEY_APOSTROPHE | FLAG_UPPERCASE,  // '"'
        35u8 => KEY_3 | FLAG_UPPERCASE,  // '#'
        36u8 => KEY_4 | FLAG_UPPERCASE,  // '$'
        37u8 => KEY_5 | FLAG_UPPERCASE,  // '%'
        38u8 => KEY_7 | FLAG_UPPERCASE,  // '&'
        39u8 => KEY_APOSTROPHE,  // "'"
        40u8 => KEY_9 | FLAG_UPPERCASE,  // '('
        41u8 => KEY_0 | FLAG_UPPERCASE,  // ')'
        42u8 => KEY_8 | FLAG_UPPERCASE,  // '*'
        43u8 => KEY_EQUAL | FLAG_UPPERCASE,  // '+'
        44u8 => KEY_COMMA,  // ','
        45u8 => KEY_MINUS,  // '-'
        46u8 => KEY_DOT,  // '.'
        47u8 => KEY_SLASH,  // '/'
        48u8 => KEY_0,  // '0'
        49u8 => KEY_1,  // '1'
        50u8 => KEY_2,  // '2'
        51u8 => KEY_3,  // '3'
        52u8 => KEY_4,  // '4'
        53u8 => KEY_5,  // '5'
        54u8 => KEY_6,  // '6'
        55u8 => KEY_7,  // '7'
        56u8 => KEY_8,  // '8'
        57u8 => KEY_9,  // '9'
        58u8 => KEY_SEMICOLON | FLAG_UPPERCASE,  // ':'
        59u8 => KEY_SEMICOLON,  // ';'
        60u8 => KEY_COMMA | FLAG_UPPERCASE,  // '<'
        61u8 => KEY_EQUAL,  // '='
        62u8 => KEY_DOT | FLAG_UPPERCASE,  // '>'
        63u8 => KEY_SLASH | FLAG_UPPERCASE,  // '?'
        64u8 => KEY_2 | FLAG_UPPERCASE,  // '@'
        65u8 => KEY_A | FLAG_UPPERCASE,  // 'A'
        66u8 => KEY_B | FLAG_UPPERCASE,  // 'B'
        67u8 => KEY_C | FLAG_UPPERCASE,  // 'C'
        68u8 => KEY_D | FLAG_UPPERCASE,  // 'D'
        69u8 => KEY_E | FLAG_UPPERCASE,  // 'E'
        70u8 => KEY_F | FLAG_UPPERCASE,  // 'F'
        71u8 => KEY_G | FLAG_UPPERCASE,  // 'G'
        72u8 => KEY_H | FLAG_UPPERCASE,  // 'H'
        73u8 => KEY_I | FLAG_UPPERCASE,  // 'I'
        74u8 => KEY_J | FLAG_UPPERCASE,  // 'J'
        75u8 => KEY_K | FLAG_UPPERCASE,  // 'K'
        76u8 => KEY_L | FLAG_UPPERCASE,  // 'L'
        77u8 => KEY_M | FLAG_UPPERCASE,  // 'M'
        78u8 => KEY_N | FLAG_UPPERCASE,  // 'N'
        79u8 => KEY_O | FLAG_UPPERCASE,  // 'O'
        80u8 => KEY_P | FLAG_UPPERCASE,  // 'P'
        81u8 => KEY_Q | FLAG_UPPERCASE,  // 'Q'
        82u8 => KEY_R | FLAG_UPPERCASE,  // 'R'
        83u8 => KEY_S | FLAG_UPPERCASE,  // 'S'
        84u8 => KEY_T | FLAG_UPPERCASE,  // 'T'
        85u8 => KEY_U | FLAG_UPPERCASE,  // 'U'
        86u8 => KEY_V | FLAG_UPPERCASE,  // 'V'
        87u8 => KEY_W | FLAG_UPPERCASE,  // 'W'
        88u8 => KEY_X | FLAG_UPPERCASE,  // 'X'
        89u8 => KEY_Y | FLAG_UPPERCASE,  // 'Y'
        90u8 => KEY_Z | FLAG_UPPERCASE,  // 'Z'
        91u8 => KEY_LEFTBRACE,  // '['
        92u8 => KEY_BACKSLASH,  // '\\'
        93u8 => KEY_RIGHTBRACE,  // ']'
        94u8 => KEY_6 | FLAG_UPPERCASE,  // '^'
        95u8 => KEY_MINUS | FLAG_UPPERCASE,  // '_'
        96u8 => KEY_GRAVE,  // '`'
        97u8 => KEY_A,  // 'a'
        98u8 => KEY_B,  // 'b'
        99u8 => KEY_C,  // 'c'
        100u8 => KEY_D,  // 'd'
        101u8 => KEY_E,  // 'e'
        102u8 => KEY_F,  // 'f'
        103u8 => KEY_G,  // 'g'
        104u8 => KEY_H,  // 'h'
        105u8 => KEY_I,  // 'i'
        106u8 => KEY_J,  // 'j'
        107u8 => KEY_K,  // 'k'
        108u8 => KEY_L,  // 'l'
        109u8 => KEY_M,  // 'm'
        110u8 => KEY_N,  // 'n'
        111u8 => KEY_O,  // 'o'
        112u8 => KEY_P,  // 'p'
        113u8 => KEY_Q,  // 'q'
        114u8 => KEY_R,  // 'r'
        115u8 => KEY_S,  // 's'
        116u8 => KEY_T,  // 't'
        117u8 => KEY_U,  // 'u'
        118u8 => KEY_V,  // 'v'
        119u8 => KEY_W,  // 'w'
        120u8 => KEY_X,  // 'x'
        121u8 => KEY_Y,  // 'y'
        122u8 => KEY_Z,  // 'z'
        123u8 => KEY_LEFTBRACE | FLAG_UPPERCASE,  // '{'
        124u8 => KEY_BACKSLASH | FLAG_UPPERCASE,  // '|'
        125u8 => KEY_RIGHTBRACE | FLAG_UPPERCASE,  // '}'
        126u8 => KEY_GRAVE | FLAG_UPPERCASE,  // '~'
        _ => -1i32,
    }
}

/// The Danish layout's definitions that differ from US, as
/// (character, definition) pairs.
pub open spec fn danish_override_list() -> Seq<(u8, i32)> {
    seq![
        (34u8, KEY_2 | FLAG_UPPERCASE),  // '"'
        (36u8, KEY_4 | FLAG_ALTGR),  // '$'
        (38u8, KEY_6 | FLAG_UPPERCASE),  // '&'
        (39u8, KEY_BACKSLASH),  // "'"
        (40u8, KEY_8 | FLAG_UPPERCASE),  // '('
        (41u8, KEY_9 | FLAG_UPPERCASE),  // ')'
        (42u8, KEY_BACKSLASH | FLAG_UPPERCASE),  // '*'
        (43u8, KEY_MINUS),  // '+'
        (45u8, KEY_SLASH),  // '-'
        (47u8, KEY_7 | FLAG_UPPERCASE),  // '/'
        (58u8, KEY_DOT | FLAG_UPPERCASE),  // ':'
        (59u8, KEY_COMMA | FLAG_UPPERCASE),  // ';'
        (60u8, KEY_102ND),  // '<'
        (61u8, KEY_0 | FLAG_UPPERCASE),  // '='
        (62u8, KEY_102ND | FLAG_UPPERCASE),  // '>'
        (63u8, KEY_MINUS | FLAG_UPPERCASE),  // '?'
        (64u8, KEY_2 | FLAG_ALTGR),  // '@'
        (91u8, KEY_8 | FLAG_ALTGR),  // '['
        (92u8, KEY_102ND | FLAG_ALTGR),  // '\\'
        (93u8, KEY_9 | FLAG_ALTGR),  // ']'
        (94u8, KEY_RIGHTBRACE | FLAG_UPPERCASE | FLAG_DEADKEY),  // '^'
        (95u8, KEY_SLASH | FLAG_UPPERCASE),  // '_'
        (96u8, KEY_EQUAL | FLAG_UPPERCASE | FLAG_DEADKEY),  // '`'
        (123u8, KEY_7 | FLAG_ALTGR),  // '{'
        (124u8, KEY_EQUAL | FLAG_ALTGR),  // '|'
        (125u8, KEY_0 | FLAG_ALTGR),  // '}'
        (126u8, KEY_RIGHTBRACE | FLAG_ALTGR | FLAG_DEADKEY),  // '~'
    ]
}

/// The Spanish layout's definitions that differ from US, as
/// (character, definition) pairs.
pub open spec fn spanish_override_list() -> Seq<(u8, i32)> {
    seq![
        (39u8, KEY_MINUS),  // "'"
        (34u8, KEY_2 | FLAG_UPPERCASE),  // '"'
        (35u8, KEY_3 | FLAG_ALTGR),  // '#'
        (38u8, KEY_6 | FLAG_UPPERCASE),  // '&'
        (40u8, KEY_8 | FLAG_UPPERCASE),  // '('
        (41u8, KEY_9 | FLAG_UPPERCASE),  // ')'
        (42u8, KEY_RIGHTBRACE | FLAG_UPPERCASE),  // '*'
        (43u8, KEY_RIGHTBRACE),  // '+'
        (45u8, KEY_SLASH),  // '-'
        (47u8, KEY_7 | FLAG_UPPERCASE),  // '/'
        (58u8, KEY_DOT | FLAG_UPPERCASE),  // ':'
        (59u8, KEY_COMMA | FLAG_UPPERCASE),  // ';'
        (60u8, KEY_102ND),  // '<'
        (61u8, KEY_0 | FLAG_UPPERCASE),  // '='
        (62u8, KEY_102ND | FLAG_UPPERCASE),  // '>'
        (63u8, KEY_MINUS | FLAG_UPPERCASE),  // '?'
        (64u8, KEY_2 | FLAG_ALTGR),  // '@'
        (91u8, KEY_LEFTBRACE | FLAG_ALTGR),  // '['
        (92u8, KEY_MINUS | FLAG_ALTGR),  // '\\'
        (93u8, KEY_RIGHTBRACE | FLAG_ALTGR),  // ']'
        (94u8, KEY_LEFTBRACE | FLAG_UPPERCASE | FLAG_DEADKEY),  // '^'
        (95u8, KEY_SLASH | FLAG_UPPERCASE),  // '_'
        (96u8, KEY_LEFTBRACE | FLAG_DEADKEY),  // '`'
        (123u8, KEY_APOSTROPHE | FLAG_ALTGR),  // '{'
        (124u8, KEY_1 | FLAG_ALTGR),  // '|'
        (125u8, KEY_BACKSLASH | FLAG_ALTGR),  // '}'
        (126u8, KEY_4 | FLAG_ALTGR),  // '~'
    ]
}

/// The US table: entry `c` is [`us_keydef`]`(c)` for every ASCII `c`.
pub open spec fn us_table() -> Seq<i32> {
    Seq::new(128, |i: int| us_keydef(i as u8))
}

/// `base` with each (character, definition) pair of `ov` written over it,
/// in order.
pub open spec fn with_overrides(base: Seq<i32>, ov: Seq<(u8, i32)>) -> Seq<i32>
    decreases ov.len(),
{
    if ov.len() == 0 {
        base
    } else {
        with_overrides(base, ov.drop_last()).update(ov.last().0 as int, ov.last().1)
    }
}

/// Overriding entries never changes the length of a table.
pub proof fn lemma_with_overrides_len(base: Seq<i32>, ov: Seq<(u8, i32)>)
    requires
        forall|k: int| 0 <= k < ov.len() ==> (#[trigger] ov[k]).0 < base.len(),
    ensures
        with_overrides(base, ov).len() == base.len(),
    decreases ov.len(),
{
    if ov.len() > 0 {
        assert forall|k: int| 0 <= k < ov.drop_last().len() implies (#[trigger] ov.drop_last()[k]).0 < base.len() by {
            assert(ov.drop_last()[k] == ov[k]);
        }
        lemma_with_overrides_len(base, ov.drop_last());
        assert(ov[ov.len() - 1].0 < base.len());
    }
}

/// The Danish table.
pub open spec fn dk_table() -> Seq<i32> {
    with_overrides(us_table(), danish_override_list())
}

/// The Spanish table.
pub open spec fn es_table() -> Seq<i32> {
    with_overrides(us_table(), spanish_override_list())
}

/// The table used for a layout name; an unknown name gets the US table.
pub open spec fn layout_table(layout: Seq<char>) -> Seq<i32> {
    if layout == "dk"@ {
        dk_table()
    } else if layout == "es"@ {
        es_table()
    } else {
        us_table()
    }
}

/// The definition `keymap_lookup` returns: -1 for a byte outside ASCII,
/// else the entry of the layout's table.
pub open spec fn keydef(layout: Seq<char>, c: u8) -> i32 {
    if c >= 128 {
        -1i32
    } else {
        layout_table(layout)[c as int]
    }
}

fn build_us_map() -> (m: Vec<i32>)
    ensures
        m@ == us_table(),
{
    let mut m: Vec<i32> = Vec::new();
    let mut i: usize = 0;
    while i < 128
        invariant
            i <= 128,
            m@.len() == i,
            forall|j: int| 0 <= j < i ==> m@[j] == -1,
        decreases 128 - i,
    {
        m.push(-1);
        i = i + 1;
    }

    m.set(9, KEY_TAB);  // tab
    m.set(10, KEY_ENTER);  // newline
    m.set(32, KEY_SPACE);  // space
    m.set(33, KEY_1 | FLAG_UPPERCASE);  // '!'
    m.set(34, KEY_APOSTROPHE | FLAG_UPPERCASE);  // '"'
    m.set(35, KEY_3 | FLAG_UPPERCASE);  // '#'
    m.set(36, KEY_4 | FLAG_UPPERCASE);  // '$'
    m.set(37, KEY_5 | FLAG_UPPERCASE);  // '%'
    m.set(38, KEY_7 | FLAG_UPPERCASE);  // '&'
    m.set(39, KEY_APOSTROPHE);  // "'"
    m.set(40, KEY_9 | FLAG_UPPERCASE);  // '('
    m.set(41, KEY_0 | FLAG_UPPERCASE);  // ')'
    m.set(42, KEY_8 | FLAG_UPPERCASE);  // '*'
    m.set(43, KEY_EQUAL | FLAG_UPPERCASE);  // '+'
    m.set(44, KEY_COMMA);  // ','
    m.set(45, KEY_MINUS);  // '-'
    m.set(46, KEY_DOT);  // '.'
    m.set(47, KEY_SLASH);  // '/'
    m.set(48, KEY_0);  // '0'
    m.set(49, KEY_1);  // '1'
    m.set(50, KEY_2);  // '2'
    m.set(51, KEY_3);  // '3'
    m.set(52, KEY_4);  // '4'
    m.set(53, KEY_5);  // '5'
    m.set(54, KEY_6);  // '6'
    m.set(55, KEY_7);  // '7'
    m.set(56, KEY_8);  // '8'
    m.set(57, KEY_9);  // '9'
    m.set(58, KEY_SEMICOLON | FLAG_UPPERCASE);  // ':'
    m.set(59, KEY_SEMICOLON);  // ';'
    m.set(60, KEY_COMMA | FLAG_UPPERCASE);  // '<'
    m.set(61, KEY_EQUAL);  // '='
    m.set(62, KEY_DOT | FLAG_UPPERCASE);  // '>'
    m.set(63, KEY_SLASH | FLAG_UPPERCASE);  // '?'
    m.set(64, KEY_2 | FLAG_UPPERCASE);  // '@'
    m.set(65, KEY_A | FLAG_UPPERCASE);  // 'A'
    m.set(66, KEY_B | FLAG_UPPERCASE);  // 'B'
    m.set(67, KEY_C | FLAG_UPPERCASE);  // 'C'
    m.set(68, KEY_D | FLAG_UPPERCASE);  // 'D'
    m.set(69, KEY_E | FLAG_UPPERCASE);  // 'E'
    m.set(70, KEY_F | FLAG_UPPERCASE);  // 'F'
    m.set(71, KEY_G | FLAG_UPPERCASE);  // 'G'
    m.set(72, KEY_H | FLAG_UPPERCASE);  // 'H'
    m.set(73, KEY_I | FLAG_UPPERCASE);  // 'I'
    m.set(74, KEY_J | FLAG_UPPERCASE);  // 'J'
    m.set(75, KEY_K | FLAG_UPPERCASE);  // 'K'
    m.set(76, KEY_L | FLAG_UPPERCASE);  // 'L'
    m.set(77, KEY_M | FLAG_UPPERCASE);  // 'M'
    m.set(78, KEY_N | FLAG_UPPERCASE);  // 'N'
    m.set(79, KEY_O | FLAG_UPPERCASE);  // 'O'
    m.set(80, KEY_P | FLAG_UPPERCASE);  // 'P'
    m.set(81, KEY_Q | FLAG_UPPERCASE);  // 'Q'
    m.set(82, KEY_R | FLAG_UPPERCASE);  // 'R'
    m.set(83, KEY_S | FLAG_UPPERCASE);  // 'S'
    m.set(84, KEY_T | FLAG_UPPERCASE);  // 'T'
    m.set(85, KEY_U | FLAG_UPPERCASE);  // 'U'
    m.set(86, KEY_V | FLAG_UPPERCASE);  // 'V'
    m.set(87, KEY_W | FLAG_UPPERCASE);  // 'W'
    m.set(88, KEY_X | FLAG_UPPERCASE);  // 'X'
    m.set(89, KEY_Y | FLAG_UPPERCASE);  // 'Y'
    m.set(90, KEY_Z | FLAG_UPPERCASE);  // 'Z'
    m.set(91, KEY_LEFTBRACE);  // '['
    m.set(92, KEY_BACKSLASH);  // '\\'
    m.set(93, KEY_RIGHTBRACE);  // ']'
    m.set(94, KEY_6 | FLAG_UPPERCASE);  // '^'
    m.set(95, KEY_MINUS | FLAG_UPPERCASE);  // '_'
    m.set(96, KEY_GRAVE);  // '`'
    m.set(97, KEY_A);  // 'a'
    m.set(98, KEY_B);  // 'b'
    m.set(99, KEY_C);  // 'c'
    m.set(100, KEY_D);  // 'd'
    m.set(101, KEY_E);  // 'e'
    m.set(102, KEY_F);  // 'f'
    m.set(103, KEY_G);  // 'g'
    m.set(104, KEY_H);  // 'h'
    m.set(105, KEY_I);  // 'i'
    m.set(106, KEY_J);  // 'j'
    m.set(107, KEY_K);  // 'k'
    m.set(108, KEY_L);  // 'l'
    m.set(109, KEY_M);  // 'm'
    m.set(110, KEY_N);  // 'n'
    m.set(111, KEY_O);  // 'o'
    m.set(112, KEY_P);  // 'p'
    m.set(113, KEY_Q);  // 'q'
    m.set(114, KEY_R);  // 'r'
    m.set(115, KEY_S);  // 's'
    m.set(116, KEY_T);  // 't'
    m.set(117, KEY_U);  // 'u'
    m.set(118, KEY_V);  // 'v'
    m.set(119, KEY_W);  // 'w'
    m.set(120, KEY_X);  // 'x'
    m.set(121, KEY_Y);  // 'y'
    m.set(122, KEY_Z);  // 'z'
    m.set(123, KEY_LEFTBRACE | FLAG_UPPERCASE);  // '{'
    m.set(124, KEY_BACKSLASH | FLAG_UPPERCASE);  // '|'
    m.set(125, KEY_RIGHTBRACE | FLAG_UPPERCASE);  // '}'
    m.set(126, KEY_GRAVE | FLAG_UPPERCASE);  // '~'
    assert(m@ =~= us_table());
    m
}

/// The Danish overrides, as listed in [`danish_override_list`].
fn danish_overrides() -> (r: Vec<(u8, i32)>)
    ensures
        r@ == danish_override_list(),
{
    let mut r: Vec<(u8, i32)> = Vec::new();
    r.push((34u8, KEY_2 | FLAG_UPPERCASE));  // '"'
    r.push((36u8, KEY_4 | FLAG_ALTGR));  // '$'
    r.push((38u8, KEY_6 | FLAG_UPPERCASE));  // '&'
    r.push((39u8, KEY_BACKSLASH));  // "'"
    r.push((40u8, KEY_8 | FLAG_UPPERCASE));  // '('
    r.push((41u8, KEY_9 | FLAG_UPPERCASE));  // ')'
    r.push((42u8, KEY_BACKSLASH | FLAG_UPPERCASE));  // '*'
    r.push((43u8, KEY_MINUS));  // '+'
    r.push((45u8, KEY_SLASH));  // '-'
    r.push((47u8, KEY_7 | FLAG_UPPERCASE));  // '/'
    r.push((58u8, KEY_DOT | FLAG_UPPERCASE));  // ':'
    r.push((59u8, KEY_COMMA | FLAG_UPPERCASE));  // ';'
    r.push((60u8, KEY_102ND));  // '<'
    r.push((61u8, KEY_0 | FLAG_UPPERCASE));  // '='
    r.push((62u8, KEY_102ND | FLAG_UPPERCASE));  // '>'
    r.push((63u8, KEY_MINUS | FLAG_UPPERCASE));  // '?'
    r.push((64u8, KEY_2 | FLAG_ALTGR));  // '@'
    r.push((91u8, KEY_8 | FLAG_ALTGR));  // '['
    r.push((92u8, KEY_102ND | FLAG_ALTGR));  // '\\'
    r.push((93u8, KEY_9 | FLAG_ALTGR));  // ']'
    r.push((94u8, KEY_RIGHTBRACE | FLAG_UPPERCASE | FLAG_DEADKEY));  // '^'
    r.push((95u8, KEY_SLASH | FLAG_UPPERCASE));  // '_'
    r.push((96u8, KEY_EQUAL | FLAG_UPPERCASE | FLAG_DEADKEY));  // '`'
    r.push((123u8, KEY_7 | FLAG_ALTGR));  // '{'
    r.push((124u8, KEY_EQUAL | FLAG_ALTGR));  // '|'
    r.push((125u8, KEY_0 | FLAG_ALTGR));  // '}'
    r.push((126u8, KEY_RIGHTBRACE | FLAG_ALTGR | FLAG_DEADKEY));  // '~'
    assert(r@ =~= danish_override_list());
    r
}

/// The Spanish overrides, as listed in [`spanish_override_list`].
fn spanish_overrides() -> (r: Vec<(u8, i32)>)
    ensures
        r@ == spanish_override_list(),
{
    let mut r: Vec<(u8, i32)> = Vec::new();
    r.push((39u8, KEY_MINUS));  // "'"
    r.push((34u8, KEY_2 | FLAG_UPPERCASE));  // '"'
    r.push((35u8, KEY_3 | FLAG_ALTGR));  // '#'
    r.push((38u8, KEY_6 | FLAG_UPPERCASE));  // '&'
    r.push((40u8, KEY_8 | FLAG_UPPERCASE));  // '('
    r.push((41u8, KEY_9 | FLAG_UPPERCASE));  // ')'
    r.push((42u8, KEY_RIGHTBRACE | FLAG_UPPERCASE));  // '*'
    r.push((43u8, KEY_RIGHTBRACE));  // '+'
    r.push((45u8, KEY_SLASH));  // '-'
    r.push((47u8, KEY_7 | FLAG_UPPERCASE));  // '/'
    r.push((58u8, KEY_DOT | FLAG_UPPERCASE));  // ':'
    r.push((59u8, KEY_COMMA | FLAG_UPPERCASE));  // ';'
    r.push((60u8, KEY_102ND));  // '<'
    r.push((61u8, KEY_0 | FLAG_UPPERCASE));  // '='
    r.push((62u8, KEY_102ND | FLAG_UPPERCASE));  // '>'
    r.push((63u8, KEY_MINUS | FLAG_UPPERCASE));  // '?'
    r.push((64u8, KEY_2 | FLAG_ALTGR));  // '@'
    r.push((91u8, KEY_LEFTBRACE | FLAG_ALTGR));  // '['
    r.push((92u8, KEY_MINUS | FLAG_ALTGR));  // '\\'
    r.push((93u8, KEY_RIGHTBRACE | FLAG_ALTGR));  // ']'
    r.push((94u8, KEY_LEFTBRACE | FLAG_UPPERCASE | FLAG_DEADKEY));  // '^'
    r.push((95u8, KEY_SLASH | FLAG_UPPERCASE));  // '_'
    r.push((96u8, KEY_LEFTBRACE | FLAG_DEADKEY));  // '`'
    r.push((123u8, KEY_APOSTROPHE | FLAG_ALTGR));  // '{'
    r.push((124u8, KEY_1 | FLAG_ALTGR));  // '|'
    r.push((125u8, KEY_BACKSLASH | FLAG_ALTGR));  // '}'
    r.push((126u8, KEY_4 | FLAG_ALTGR));  // '~'
    assert(r@ =~= spanish_override_list());
    r
}

/// An entry no override names keeps its base value.
pub proof fn lemma_with_overrides_untouched(base: Seq<i32>, ov: Seq<(u8, i32)>, i: int)
    requires
        forall|k: int| 0 <= k < ov.len() ==> (#[trigger] ov[k]).0 < base.len(),
        forall|k: int| 0 <= k < ov.len() ==> (#[trigger] ov[k]).0 != i,
        0 <= i < base.len(),
    ensures
        with_overrides(base, ov)[i] == base[i],
    decreases ov.len(),
{
    if ov.len() > 0 {
        let rest = ov.drop_last();
        assert forall|k: int| 0 <= k < rest.len() implies (#[trigger] rest[k]).0 < base.len() by {
            assert(rest[k] == ov[k]);
        }
        assert forall|k: int| 0 <= k < rest.len() implies (#[trigger] rest[k]).0 != i by {
            assert(rest[k] == ov[k]);
        }
        lemma_with_overrides_untouched(base, rest, i);
        lemma_with_overrides_len(base, rest);
        assert(ov[ov.len() - 1].0 != i);
    }
}

/// Whether `c` is an ASCII letter or digit.
pub open spec fn is_letter_or_digit(c: u8) -> bool {
    (48 <= c <= 57) || (65 <= c <= 90) || (97 <= c <= 122)
}

/// An unknown layout name gets exactly the US definitions.
pub proof fn lemma_unknown_layout_is_us(layout: Seq<char>, c: u8)
    requires
        layout != "dk"@,
        layout != "es"@,
    ensures
        keydef(layout, c) == keydef("us"@, c),
{
    reveal_strlit("us");
    reveal_strlit("dk");
    reveal_strlit("es");
    assert("us"@[0] != "dk"@[0]);
    assert("us"@[0] != "es"@[0]);
}

/// Letters and digits sit on the same physical keys in every layout: their
/// definitions are the US ones, whatever the layout name.
pub proof fn lemma_letters_and_digits_shared(layout: Seq<char>, c: u8)
    requires
        is_letter_or_digit(c),
    ensures
        keydef(layout, c) == keydef("us"@, c),
{
    reveal_strlit("us");
    reveal_strlit("dk");
    reveal_strlit("es");
    assert("us"@[0] != "dk"@[0]);
    assert("us"@[0] != "es"@[0]);
    let dk = danish_override_list();
    let es = spanish_override_list();
    assert forall|k: int| 0 <= k < dk.len() implies (#[trigger] dk[k]).0 < us_table().len() && dk[k].0 != c as int by {}
    assert forall|k: int| 0 <= k < es.len() implies (#[trigger] es[k]).0 < us_table().len() && es[k].0 != c as int by {}
    lemma_with_overrides_untouched(us_table(), dk, c as int);
    lemma_with_overrides_untouched(us_table(), es, c as int);
}

/// A property of each entry and its index that holds of the base table and
/// of every override holds of every entry of the overridden table.
pub proof fn lemma_with_overrides_keeps(
    base: Seq<i32>,
    ov: Seq<(u8, i32)>,
    p: spec_fn(i32, int) -> bool,
    i: int,
)
    requires
        forall|k: int| 0 <= k < ov.len() ==> (#[trigger] ov[k]).0 < base.len(),
        forall|j: int| 0 <= j < base.len() ==> p(#[trigger] base[j], j),
        forall|k: int| 0 <= k < ov.len() ==> p((#[trigger] ov[k]).1, ov[k].0 as int),
        0 <= i < base.len(),
    ensures
        p(with_overrides(base, ov)[i], i),
    decreases ov.len(),
{
    if ov.len() > 0 {
        let rest = ov.drop_last();
        assert forall|k: int| 0 <= k < rest.len() implies (#[trigger] rest[k]).0 < base.len() by {
            assert(rest[k] == ov[k]);
        }
        assert forall|k: int| 0 <= k < rest.len() implies p((#[trigger] rest[k]).1, rest[k].0 as int) by {
            assert(rest[k] == ov[k]);
        }
        lemma_with_overrides_keeps(base, rest, p, i);
        lemma_with_overrides_len(base, rest);
        assert(p(ov[ov.len() - 1].1, ov[ov.len() - 1].0 as int));
    }
}

/// How the flags of a definition sit above its keycode: for a keycode below
/// 0x10000 and each combination of flags the tables use, the low 16 bits are
/// the keycode, the Shift bit is set exactly for the shifted forms, and the
/// definition is never -1.
pub proof fn lemma_definition_bits(k: i32)
    by (bit_vector)
    requires
        0 <= k < 0x10000,
    ensures
        (k) & 0xffff == k,
        (k) != -1i32,
        (k | FLAG_UPPERCASE) & 0xffff == k,
        (k | FLAG_UPPERCASE) != -1i32,
        (k | FLAG_ALTGR) & 0xffff == k,
        (k | FLAG_ALTGR) != -1i32,
        (k | FLAG_DEADKEY) & 0xffff == k,
        (k | FLAG_DEADKEY) != -1i32,
        (k | FLAG_UPPERCASE | FLAG_DEADKEY) & 0xffff == k,
        (k | FLAG_UPPERCASE | FLAG_DEADKEY) != -1i32,
        (k | FLAG_ALTGR | FLAG_DEADKEY) & 0xffff == k,
        (k | FLAG_ALTGR | FLAG_DEADKEY) != -1i32,
        k & FLAG_UPPERCASE == 0,
        (k | FLAG_UPPERCASE) & FLAG_UPPERCASE != 0,
        (k | FLAG_UPPERCASE | FLAG_DEADKEY) & FLAG_UPPERCASE != 0,
        (k | FLAG_ALTGR) & FLAG_UPPERCASE == 0,
        (k | FLAG_DEADKEY) & FLAG_UPPERCASE == 0,
        (k | FLAG_ALTGR | FLAG_DEADKEY) & FLAG_UPPERCASE == 0,
        k & FLAG_ALTGR == 0,
        (k | FLAG_UPPERCASE) & FLAG_ALTGR == 0,
        (k | FLAG_ALTGR) & FLAG_ALTGR != 0,
        (k | FLAG_DEADKEY) & FLAG_ALTGR == 0,
        (k | FLAG_UPPERCASE | FLAG_DEADKEY) & FLAG_ALTGR == 0,
        (k | FLAG_ALTGR | FLAG_DEADKEY) & FLAG_ALTGR != 0,
{
}

/// Tab, enter and the printable characters: the ASCII characters that
/// have a key.
pub open spec fn is_typeable(c: u8) -> bool {
    c == 9 || c == 10 || (32 <= c <= 126)
}

/// A table entry is right for character `c`: unmapped exactly when `c` has
/// no key, and otherwise a definition whose keycode the virtual keyboard
/// registers.
pub open spec fn entry_fits(e: i32, c: u8) -> bool {
    if is_typeable(c) {
        e != -1 && is_supported_key((e & 0xffff) as int)
    } else {
        e == -1
    }
}

/// Every definition the tables are built from fits its character: the US
/// definition of `c`, and every override of both override lists.
proof fn lemma_definitions_fit(c: u8)
    requires
        c < 128,
    ensures
        entry_fits(us_keydef(c), c),
        forall|k: int|
            0 <= k < danish_override_list().len() ==> (#[trigger] danish_override_list()[k]).0 < 128
                && entry_fits(danish_override_list()[k].1, danish_override_list()[k].0),
        forall|k: int|
            0 <= k < spanish_override_list().len() ==> (#[trigger] spanish_override_list()[k]).0 < 128
                && entry_fits(spanish_override_list()[k].1, spanish_override_list()[k].0),
{
    lemma_definition_bits(KEY_0);
    lemma_definition_bits(KEY_1);
    lemma_definition_bits(KEY_102ND);
    lemma_definition_bits(KEY_2);
    lemma_definition_bits(KEY_3);
    lemma_definition_bits(KEY_4);
    lemma_definition_bits(KEY_5);
    lemma_definition_bits(KEY_6);
    lemma_definition_bits(KEY_7);
    lemma_definition_bits(KEY_8);
    lemma_definition_bits(KEY_9);
    lemma_definition_bits(KEY_A);
    lemma_definition_bits(KEY_APOSTROPHE);
    lemma_definition_bits(KEY_B);
    lemma_definition_bits(KEY_BACKSLASH);
    lemma_definition_bits(KEY_C);
    lemma_definition_bits(KEY_COMMA);
    lemma_definition_bits(KEY_D);
    lemma_definition_bits(KEY_DOT);
    lemma_definition_bits(KEY_E);
    lemma_definition_bits(KEY_ENTER);
    lemma_definition_bits(KEY_EQUAL);
    lemma_definition_bits(KEY_F);
    lemma_definition_bits(KEY_G);
    lemma_definition_bits(KEY_GRAVE);
    lemma_definition_bits(KEY_H);
    lemma_definition_bits(KEY_I);
    lemma_definition_bits(KEY_J);
    lemma_definition_bits(KEY_K);
    lemma_definition_bits(KEY_L);
    lemma_definition_bits(KEY_LEFTBRACE);
    lemma_definition_bits(KEY_M);
    lemma_definition_bits(KEY_MINUS);
    lemma_definition_bits(KEY_N);
    lemma_definition_bits(KEY_O);
    lemma_definition_bits(KEY_P);
    lemma_definition_bits(KEY_Q);
    lemma_definition_bits(KEY_R);
    lemma_definition_bits(KEY_RIGHTBRACE);
    lemma_definition_bits(KEY_S);
    lemma_definition_bits(KEY_SEMICOLON);
    lemma_definition_bits(KEY_SLASH);
    lemma_definition_bits(KEY_SPACE);
    lemma_definition_bits(KEY_T);
    lemma_definition_bits(KEY_TAB);
    lemma_definition_bits(KEY_U);
    lemma_definition_bits(KEY_V);
    lemma_definition_bits(KEY_W);
    lemma_definition_bits(KEY_X);
    lemma_definition_bits(KEY_Y);
    lemma_definition_bits(KEY_Z);
}

/// Every layout's tables fit their characters: a character is unmapped
/// exactly when it has no key (it is not tab, enter or printable ASCII), and
/// every definition names a key the virtual keyboard registers.
pub proof fn lemma_tables_fit(layout: Seq<char>, c: u8)
    ensures
        entry_fits(keydef(layout, c), c),
{
    if c < 128 {
        let p = |e: i32, i: int| entry_fits(e, i as u8);
        assert forall|j: int| 0 <= j < us_table().len() implies p(#[trigger] us_table()[j], j) by {
            lemma_definitions_fit(j as u8);
        }
        lemma_definitions_fit(c);
        let dk = danish_override_list();
        let es = spanish_override_list();
        assert forall|k: int| 0 <= k < dk.len() implies (#[trigger] dk[k]).0 < us_table().len() && p(dk[k].1, dk[k].0 as int) by {}
        assert forall|k: int| 0 <= k < es.len() implies (#[trigger] es[k]).0 < us_table().len() && p(es[k].1, es[k].0 as int) by {}
        lemma_with_overrides_keeps(us_table(), dk, p, c as int);
        lemma_with_overrides_keeps(us_table(), es, p, c as int);
        assert(p(us_table()[c as int], c as int));
    }
}

/// The entry of an overridden table for index `i`: the value of the last
/// override that names `i`, or the base value when none does.
pub proof fn lemma_with_overrides_entry(base: Seq<i32>, ov: Seq<(u8, i32)>, i: int, k: int)
    requires
        forall|j: int| 0 <= j < ov.len() ==> (#[trigger] ov[j]).0 < base.len(),
        0 <= i < base.len(),
        0 <= k < ov.len(),
        ov[k].0 == i,
        forall|j: int| k < j < ov.len() ==> (#[trigger] ov[j]).0 != i,
    ensures
        with_overrides(base, ov)[i] == ov[k].1,
    decreases ov.len(),
{
    let rest = ov.drop_last();
    assert forall|j: int| 0 <= j < rest.len() implies (#[trigger] rest[j]).0 < base.len() by {
        assert(rest[j] == ov[j]);
    }
    lemma_with_overrides_len(base, rest);
    if k < ov.len() - 1 {
        assert(ov[ov.len() - 1].0 != i);
        assert forall|j: int| k < j < rest.len() implies (#[trigger] rest[j]).0 != i by {
            assert(rest[j] == ov[j]);
        }
        assert(rest[k] == ov[k]);
        lemma_with_overrides_entry(base, rest, i, k);
    }
}

/// The Danish and Spanish tables character by character: a character one
/// of a layout's overrides names gets the last such override's definition,
/// any other character its US definition.
pub proof fn lemma_layout_entries(c: u8)
    requires
        c < 128,
    ensures
        forall|k: int|
            0 <= k < danish_override_list().len() && #[trigger] danish_override_list()[k].0 == c && (
            forall|j: int| k < j < danish_override_list().len() ==> danish_override_list()[j].0 != c)
                ==> dk_table()[c as int] == danish_override_list()[k].1,
        (forall|k: int| 0 <= k < danish_override_list().len() ==> #[trigger] danish_override_list()[k].0 != c)
            ==> dk_table()[c as int] == us_table()[c as int],
        forall|k: int|
            0 <= k < spanish_override_list().len() && #[trigger] spanish_override_list()[k].0 == c && (
            forall|j: int| k < j < spanish_override_list().len() ==> spanish_override_list()[j].0 != c)
                ==> es_table()[c as int] == spanish_override_list()[k].1,
        (forall|k: int| 0 <= k < spanish_override_list().len() ==> #[trigger] spanish_override_list()[k].0 != c)
            ==> es_table()[c as int] == us_table()[c as int],
{
    let dk = danish_override_list();
    let es = spanish_override_list();
    assert forall|k: int| 0 <= k < dk.len() implies (#[trigger] dk[k]).0 < us_table().len() by {}
    assert forall|k: int| 0 <= k < es.len() implies (#[trigger] es[k]).0 < us_table().len() by {}
    assert forall|k: int|
        0 <= k < dk.len() && #[trigger] dk[k].0 == c && (forall|j: int| k < j < dk.len() ==> dk[j].0 != c)
        implies dk_table()[c as int] == dk[k].1 by {
        lemma_with_overrides_entry(us_table(), dk, c as int, k);
    }
    assert forall|k: int|
        0 <= k < es.len() && #[trigger] es[k].0 == c && (forall|j: int| k < j < es.len() ==> es[j].0 != c)
        implies es_table()[c as int] == es[k].1 by {
        lemma_with_overrides_entry(us_table(), es, c as int, k);
    }
    if forall|k: int| 0 <= k < dk.len() ==> #[trigger] dk[k].0 != c {
        lemma_with_overrides_untouched(us_table(), dk, c as int);
    }
    if forall|k: int| 0 <= k < es.len() ==> #[trigger] es[k].0 != c {
        lemma_with_overrides_untouched(us_table(), es, c as int);
    }
}


/// The character the US QWERTY keyboard layout types with the key `code`,
/// Shift and AltGr held as given (a dead key followed by Space); -1 where
/// it types none of the characters rhisper needs.
pub open spec fn us_output(code: int, shift: bool, altgr: bool) -> int {
    if code == KEY_1 {
        // '1', '!', AltGr nothing, AltGr+Shift nothing
        if altgr {
            if shift { -1 } else { -1 }
        } else if shift {
            33
        } else {
            49
        }
    } else if code == KEY_2 {
        // '2', '@', AltGr nothing, AltGr+Shift nothing
        if altgr {
            if shift { -1 } else { -1 }
        } else if shift {
            64
        } else {
            50
        }
    } else if code == KEY_3 {
        // '3', '#', AltGr nothing, AltGr+Shift nothing
        if altgr {
            if shift { -1 } else { -1 }
        } else if shift {
            35
        } else {
            51
        }
    } else if code == KEY_4 {
        // '4', '$', AltGr nothing, AltGr+Shift nothing
        if altgr {
            if shift { -1 } else { -1 }
        } else if shift {
            36
        } else {
            52
        }
    } else if code == KEY_5 {
        // '5', '%', AltGr nothing, AltGr+Shift nothing
        if altgr {
            if shift { -1 } else { -1 }
        } else if shift {
            37
        } else {
            53
        }
    } else if code == KEY_6 {
        // '6', '^', AltGr nothing, AltGr+Shift nothing
        if altgr {
            if shift { -1 } else { -1 }
        } else if shift {
            94
        } else {
            54
        }
    } else if code == KEY_7 {
        // '7', '&', AltGr nothing, AltGr+Shift nothing
        if altgr {
            if shift { -1 } else { -1 }
        } else if shift {
            38
        } else {
            55
        }
    } else if code == KEY_8 {
        // '8', '*', AltGr nothing, AltGr+Shift nothing
        if altgr {
            if shift { -1 } else { -1 }
        } else if shift {
            42
        } else {
            56
        }
    } else if code == KEY_9 {
        // '9', '(', AltGr nothing, AltGr+Shift nothing
        if altgr {
            if shift { -1 } else { -1 }
        } else if shift {
            40
        } else {
            57
        }
    } else if code == KEY_0 {
        // '0', ')', AltGr nothing, AltGr+Shift nothing
        if altgr {
            if shift { -1 } else { -1 }
        } else if shift {
            41
        } else {
            48
        }
    } else if code == KEY_MINUS {
        // '-', '_', AltGr nothing, AltGr+Shift nothing
        if altgr {
            if shift { -1 } else { -1 }
        } else if shift {
            95
        } else {
            45
        }
    } else if code == KEY_EQUAL {
        // '=', '+', AltGr nothing, AltGr+Shift nothing
        if altgr {
            if shift { -1 } else { -1 }
        } else if shift {
            43
        } else {
            61
        }
    } else if code == KEY_TAB {
        // tab, nothing, AltGr nothing, AltGr+Shift nothing
        if altgr {
            if shift { -1 } else { -1 }
        } else if shift {
            -1
        } else {
            9
        }
    } else if code == KEY_Q {
        // 'q', 'Q', AltGr nothing, AltGr+Shift nothing
        if altgr {
            if shift { -1 } else { -1 }
        } else if shift {
            81
        } else {
            113
        }
    } else if code == KEY_W {
        // 'w', 'W', AltGr nothing, AltGr+Shift nothing
        if altgr {
            if shift { -1 } else { -1 }
        } else if shift {
            87
        } else {
            119
        }
    } else if code == KEY_E {
        // 'e', 'E', AltGr nothing, AltGr+Shift nothing
        if altgr {
            if shift { -1 } else { -1 }
        } else if shift {
            69
        } else {
            101
        }
    } else if code == KEY_R {
        // 'r', 'R', AltGr nothing, AltGr+Shift nothing
        if altgr {
            if shift { -1 } else { -1 }
        } else if shift {
            82
        } else {
            114
        }
    } else if code == KEY_T {
        // 't', 'T', AltGr nothing, AltGr+Shift nothing
        if altgr {
            if shift { -1 } else { -1 }
        } else if shift {
            84
        } else {
            116
        }
    } else if code == KEY_Y {
        // 'y', 'Y', AltGr nothing, AltGr+Shift nothing
        if altgr {
            if shift { -1 } else { -1 }
        } else if shift {
            89
        } else {
            121
        }
    } else if code == KEY_U {
        // 'u', 'U', AltGr nothing, AltGr+Shift nothing
        if altgr {
            if shift { -1 } else { -1 }
        } else if shift {
            85
        } else {
            117
        }
    } else if code == KEY_I {
        // 'i', 'I', AltGr nothing, AltGr+Shift nothing
        if altgr {
            if shift { -1 } else { -1 }
        } else if shift {
            73
        } else {
            105
        }
    } else if code == KEY_O {
        // 'o', 'O', AltGr nothing, AltGr+Shift nothing
        if altgr {
            if shift { -1 } else { -1 }
        } else if shift {
            79
        } else {
            111
        }
    } else if code == KEY_P {
        // 'p', 'P', AltGr nothing, AltGr+Shift nothing
        if altgr {
            if shift { -1 } else { -1 }
        } else if shift {
            80
        } else {
            112
        }
    } else if code == KEY_LEFTBRACE {
        // '[', '{', AltGr nothing, AltGr+Shift nothing
        if altgr {
            if shift { -1 } else { -1 }
        } else if shift {
            123
        } else {
            91
        }
    } else if code == KEY_RIGHTBRACE {
        // ']', '}', AltGr nothing, AltGr+Shift nothing
        if altgr {
            if shift { -1 } else { -1 }
        } else if shift {
            125
        } else {
            93
        }
    } else if code == KEY_ENTER {
        // enter, nothing, AltGr nothing, AltGr+Shift nothing
        if altgr {
            if shift { -1 } else { -1 }
        } else if shift {
            -1
        } else {
            10
        }
    } else if code == KEY_A {
        // 'a', 'A', AltGr nothing, AltGr+Shift nothing
        if altgr {
            if shift { -1 } else { -1 }
        } else if shift {
            65
        } else {
            97
        }
    } else if code == KEY_S {
        // 's', 'S', AltGr nothing, AltGr+Shift nothing
        if altgr {
            if shift { -1 } else { -1 }
        } else if shift {
            83
        } else {
            115
        }
    } else if code == KEY_D {
        // 'd', 'D', AltGr nothing, AltGr+Shift nothing
        if altgr {
            if shift { -1 } else { -1 }
        } else if shift {
            68
        } else {
            100
        }
    } else if code == KEY_F {
        // 'f', 'F', AltGr nothing, AltGr+Shift nothing
        if altgr {
            if shift { -1 } else { -1 }
        } else if shift {
            70
        } else {
            102
        }
    } else if code == KEY_G {
        // 'g', 'G', AltGr nothing, AltGr+Shift nothing
        if altgr {
            if shift { -1 } else { -1 }
        } else if shift {
            71
        } else {
            103
        }
    } else if code == KEY_H {
        // 'h', 'H', AltGr nothing, AltGr+Shift nothing
        if altgr {
            if shift { -1 } else { -1 }
        } else if shift {
            72
        } else {
            104
        }
    } else if code == KEY_J {
        // 'j', 'J', AltGr nothing, AltGr+Shift nothing
        if altgr {
            if shift { -1 } else { -1 }
        } else if shift {
            74
        } else {
            106
        }
    } else if code == KEY_K {
        // 'k', 'K', AltGr nothing, AltGr+Shift nothing
        if altgr {
            if shift { -1 } else { -1 }
        } else if shift {
            75
        } else {
            107
        }
    } else if code == KEY_L {
        // 'l', 'L', AltGr nothing, AltGr+Shift nothing
        if altgr {
            if shift { -1 } else { -1 }
        } else if shift {
            76
        } else {
            108
        }
    } else if code == KEY_SEMICOLON {
        // ';', ':', AltGr nothing, AltGr+Shift nothing
        if altgr {
            if shift { -1 } else { -1 }
        } else if shift {
            58
        } else {
            59
        }
    } else if code == KEY_APOSTROPHE {
        // "'", '"', AltGr nothing, AltGr+Shift nothing
        if altgr {
            if shift { -1 } else { -1 }
        } else if shift {
            34
        } else {
            39
        }
    } else if code == KEY_GRAVE {
        // '`', '~', AltGr nothing, AltGr+Shift nothing
        if altgr {
            if shift { -1 } else { -1 }
        } else if shift {
            126
        } else {
            96
        }
    } else if code == KEY_BACKSLASH {
        // '\', '|', AltGr nothing, AltGr+Shift nothing
        if altgr {
            if shift { -1 } else { -1 }
        } else if shift {
            124
        } else {
            92
        }
    } else if code == KEY_Z {
        // 'z', 'Z', AltGr nothing, AltGr+Shift nothing
        if altgr {
            if shift { -1 } else { -1 }
        } else if shift {
            90
        } else {
            122
        }
    } else if code == KEY_X {
        // 'x', 'X', AltGr nothing, AltGr+Shift nothing
        if altgr {
            if shift { -1 } else { -1 }
        } else if shift {
            88
        } else {
            120
        }
    } else if code == KEY_C {
        // 'c', 'C', AltGr nothing, AltGr+Shift nothing
        if altgr {
            if shift { -1 } else { -1 }
        } else if shift {
            67
        } else {
            99
        }
    } else if code == KEY_V {
        // 'v', 'V', AltGr nothing, AltGr+Shift nothing
        if altgr {
            if shift { -1 } else { -1 }
        } else if shift {
            86
        } else {
            118
        }
    } else if code == KEY_B {
        // 'b', 'B', AltGr nothing, AltGr+Shift nothing
        if altgr {
            if shift { -1 } else { -1 }
        } else if shift {
            66
        } else {
            98
        }
    } else if code == KEY_N {
        // 'n', 'N', AltGr nothing, AltGr+Shift nothing
        if altgr {
            if shift { -1 } else { -1 }
        } else if shift {
            78
        } else {
            110
        }
    } else if code == KEY_M {
        // 'm', 'M', AltGr nothing, AltGr+Shift nothing
        if altgr {
            if shift { -1 } else { -1 }
        } else if shift {
            77
        } else {
            109
        }
    } else if code == KEY_COMMA {
        // ',', '<', AltGr nothing, AltGr+Shift nothing
        if altgr {
            if shift { -1 } else { -1 }
        } else if shift {
            60
        } else {
            44
        }
    } else if code == KEY_DOT {
        // '.', '>', AltGr nothing, AltGr+Shift nothing
        if altgr {
            if shift { -1 } else { -1 }
        } else if shift {
            62
        } else {
            46
        }
    } else if code == KEY_SLASH {
        // '/', '?', AltGr nothing, AltGr+Shift nothing
        if altgr {
            if shift { -1 } else { -1 }
        } else if shift {
            63
        } else {
            47
        }
    } else if code == KEY_SPACE {
        // ' ', nothing, AltGr nothing, AltGr+Shift nothing
        if altgr {
            if shift { -1 } else { -1 }
        } else if shift {
            -1
        } else {
            32
        }
    } else {
        -1
    }
}

/// The character the Danish keyboard layout types with the key `code`,
/// Shift and AltGr held as given (a dead key followed by Space); -1 where
/// it types none of the characters rhisper needs.
pub open spec fn dk_output(code: int, shift: bool, altgr: bool) -> int {
    if code == KEY_1 {
        // '1', '!', AltGr nothing, AltGr+Shift nothing
        if altgr {
            if shift { -1 } else { -1 }
        } else if shift {
            33
        } else {
            49
        }
    } else if code == KEY_2 {
        // '2', '"', AltGr '@', AltGr+Shift nothing
        if altgr {
            if shift { -1 } else { 64 }
        } else if shift {
            34
        } else {
            50
        }
    } else if code == KEY_3 {
        // '3', '#', AltGr nothing, AltGr+Shift nothing
        if altgr {
            if shift { -1 } else { -1 }
        } else if shift {
            35
        } else {
            51
        }
    } else if code == KEY_4 {
        // '4', nothing, AltGr '$', AltGr+Shift nothing
        if altgr {
            if shift { -1 } else { 36 }
        } else if shift {
            -1
        } else {
            52
        }
    } else if code == KEY_5 {
        // '5', '%', AltGr nothing, AltGr+Shift nothing
        if altgr {
            if shift { -1 } else { -1 }
        } else if shift {
            37
        } else {
            53
        }
    } else if code == KEY_6 {
        // '6', '&', AltGr nothing, AltGr+Shift nothing
        if altgr {
            if shift { -1 } else { -1 }
        } else if shift {
            38
        } else {
            54
        }
    } else if code == KEY_7 {
        // '7', '/', AltGr '{', AltGr+Shift nothing
        if altgr {
            if shift { -1 } else { 123 }
        } else if shift {
            47
        } else {
            55
        }
    } else if code == KEY_8 {
        // '8', '(', AltGr '[', AltGr+Shift nothing
        if altgr {
            if shift { -1 } else { 91 }
        } else if shift {
            40
        } else {
            56
        }
    } else if code == KEY_9 {
        // '9', ')', AltGr ']', AltGr+Shift nothing
        if altgr {
            if shift { -1 } else { 93 }
        } else if shift {
            41
        } else {
            57
        }
    } else if code == KEY_0 {
        // '0', '=', AltGr '}', AltGr+Shift nothing
        if altgr {
            if shift { -1 } else { 125 }
        } else if shift {
            61
        } else {
            48
        }
    } else if code == KEY_MINUS {
        // '+', '?', AltGr nothing, AltGr+Shift nothing
        if altgr {
            if shift { -1 } else { -1 }
        } else if shift {
            63
        } else {
            43
        }
    } else if code == KEY_EQUAL {
        // nothing, '`', AltGr '|', AltGr+Shift nothing
        if altgr {
            if shift { -1 } else { 124 }
        } else if shift {
            96
        } else {
            -1
        }
    } else if code == KEY_TAB {
        // tab, nothing, AltGr nothing, AltGr+Shift nothing
        if altgr {
            if shift { -1 } else { -1 }
        } else if shift {
            -1
        } else {
            9
        }
    } else if code == KEY_Q {
        // 'q', 'Q', AltGr nothing, AltGr+Shift nothing
        if altgr {
            if shift { -1 } else { -1 }
        } else if shift {
            81
        } else {
            113
        }
    } else if code == KEY_W {
        // 'w', 'W', AltGr nothing, AltGr+Shift nothing
        if altgr {
            if shift { -1 } else { -1 }
        } else if shift {
            87
        } else {
            119
        }
    } else if code == KEY_E {
        // 'e', 'E', AltGr nothing, AltGr+Shift nothing
        if altgr {
            if shift { -1 } else { -1 }
        } else if shift {
            69
        } else {
            101
        }
    } else if code == KEY_R {
        // 'r', 'R', AltGr nothing, AltGr+Shift nothing
        if altgr {
            if shift { -1 } else { -1 }
        } else if shift {
            82
        } else {
            114
        }
    } else if code == KEY_T {
        // 't', 'T', AltGr nothing, AltGr+Shift nothing
        if altgr {
            if shift { -1 } else { -1 }
        } else if shift {
            84
        } else {
            116
        }
    } else if code == KEY_Y {
        // 'y', 'Y', AltGr nothing, AltGr+Shift nothing
        if altgr {
            if shift { -1 } else { -1 }
        } else if shift {
            89
        } else {
            121
        }
    } else if code == KEY_U {
        // 'u', 'U', AltGr nothing, AltGr+Shift nothing
        if altgr {
            if shift { -1 } else { -1 }
        } else if shift {
            85
        } else {
            117
        }
    } else if code == KEY_I {
        // 'i', 'I', AltGr nothing, AltGr+Shift nothing
        if altgr {
            if shift { -1 } else { -1 }
        } else if shift {
            73
        } else {
            105
        }
    } else if code == KEY_O {
        // 'o', 'O', AltGr nothing, AltGr+Shift nothing
        if altgr {
            if shift { -1 } else { -1 }
        } else if shift {
            79
        } else {
            111
        }
    } else if code == KEY_P {
        // 'p', 'P', AltGr nothing, AltGr+Shift nothing
        if altgr {
            if shift { -1 } else { -1 }
        } else if shift {
            80
        } else {
            112
        }
    } else if code == KEY_RIGHTBRACE {
        // nothing, '^', AltGr '~', AltGr+Shift nothing
        if altgr {
            if shift { -1 } else { 126 }
        } else if shift {
            94
        } else {
            -1
        }
    } else if code == KEY_ENTER {
        // enter, nothing, AltGr nothing, AltGr+Shift nothing
        if altgr {
            if shift { -1 } else { -1 }
        } else if shift {
            -1
        } else {
            10
        }
    } else if code == KEY_A {
        // 'a', 'A', AltGr nothing, AltGr+Shift nothing
        if altgr {
            if shift { -1 } else { -1 }
        } else if shift {
            65
        } else {
            97
        }
    } else if code == KEY_S {
        // 's', 'S', AltGr nothing, AltGr+Shift nothing
        if altgr {
            if shift { -1 } else { -1 }
        } else if shift {
            83
        } else {
            115
        }
    } else if code == KEY_D {
        // 'd', 'D', AltGr nothing, AltGr+Shift nothing
        if altgr {
            if shift { -1 } else { -1 }
        } else if shift {
            68
        } else {
            100
        }
    } else if code == KEY_F {
        // 'f', 'F', AltGr nothing, AltGr+Shift nothing
        if altgr {
            if shift { -1 } else { -1 }
        } else if shift {
            70
        } else {
            102
        }
    } else if code == KEY_G {
        // 'g', 'G', AltGr nothing, AltGr+Shift nothing
        if altgr {
            if shift { -1 } else { -1 }
        } else if shift {
            71
        } else {
            103
        }
    } else if code == KEY_H {
        // 'h', 'H', AltGr nothing, AltGr+Shift nothing
        if altgr {
            if shift { -1 } else { -1 }
        } else if shift {
            72
        } else {
            104
        }
    } else if code == KEY_J {
        // 'j', 'J', AltGr nothing, AltGr+Shift nothing
        if altgr {
            if shift { -1 } else { -1 }
        } else if shift {
            74
        } else {
            106
        }
    } else if code == KEY_K {
        // 'k', 'K', AltGr nothing, AltGr+Shift nothing
        if altgr {
            if shift { -1 } else { -1 }
        } else if shift {
            75
        } else {
            107
        }
    } else if code == KEY_L {
        // 'l', 'L', AltGr nothing, AltGr+Shift nothing
        if altgr {
            if shift { -1 } else { -1 }
        } else if shift {
            76
        } else {
            108
        }
    } else if code == KEY_BACKSLASH {
        // "'", '*', AltGr nothing, AltGr+Shift nothing
        if altgr {
            if shift { -1 } else { -1 }
        } else if shift {
            42
        } else {
            39
        }
    } else if code == KEY_Z {
        // 'z', 'Z', AltGr nothing, AltGr+Shift nothing
        if altgr {
            if shift { -1 } else { -1 }
        } else if shift {
            90
        } else {
            122
        }
    } else if code == KEY_X {
        // 'x', 'X', AltGr nothing, AltGr+Shift nothing
        if altgr {
            if shift { -1 } else { -1 }
        } else if shift {
            88
        } else {
            120
        }
    } else if code == KEY_C {
        // 'c', 'C', AltGr nothing, AltGr+Shift nothing
        if altgr {
            if shift { -1 } else { -1 }
        } else if shift {
            67
        } else {
            99
        }
    } else if code == KEY_V {
        // 'v', 'V', AltGr nothing, AltGr+Shift nothing
        if altgr {
            if shift { -1 } else { -1 }
        } else if shift {
            86
        } else {
            118
        }
    } else if code == KEY_B {
        // 'b', 'B', AltGr nothing, AltGr+Shift nothing
        if altgr {
            if shift { -1 } else { -1 }
        } else if shift {
            66
        } else {
            98
        }
    } else if code == KEY_N {
        // 'n', 'N', AltGr nothing, AltGr+Shift nothing
        if altgr {
            if shift { -1 } else { -1 }
        } else if shift {
            78
        } else {
            110
        }
    } else if code == KEY_M {
        // 'm', 'M', AltGr nothing, AltGr+Shift nothing
        if altgr {
            if shift { -1 } else { -1 }
        } else if shift {
            77
        } else {
            109
        }
    } else if code == KEY_COMMA {
        // ',', ';', AltGr nothing, AltGr+Shift nothing
        if altgr {
            if shift { -1 } else { -1 }
        } else if shift {
            59
        } else {
            44
        }
    } else if code == KEY_DOT {
        // '.', ':', AltGr nothing, AltGr+Shift nothing
        if altgr {
            if shift { -1 } else { -1 }
        } else if shift {
            58
        } else {
            46
        }
    } else if code == KEY_SLASH {
        // '-', '_', AltGr nothing, AltGr+Shift nothing
        if altgr {
            if shift { -1 } else { -1 }
        } else if shift {
            95
        } else {
            45
        }
    } else if code == KEY_SPACE {
        // ' ', nothing, AltGr nothing, AltGr+Shift nothing
        if altgr {
            if shift { -1 } else { -1 }
        } else if shift {
            -1
        } else {
            32
        }
    } else if code == KEY_102ND {
        // '<', '>', AltGr '\', AltGr+Shift nothing
        if altgr {
            if shift { -1 } else { 92 }
        } else if shift {
            62
        } else {
            60
        }
    } else {
        -1
    }
}

/// The character the Spanish keyboard layout types with the key `code`,
/// Shift and AltGr held as given (a dead key followed by Space); -1 where
/// it types none of the characters rhisper needs.
pub open spec fn es_output(code: int, shift: bool, altgr: bool) -> int {
    if code == KEY_1 {
        // '1', '!', AltGr '|', AltGr+Shift nothing
        if altgr {
            if shift { -1 } else { 124 }
        } else if shift {
            33
        } else {
            49
        }
    } else if code == KEY_2 {
        // '2', '"', AltGr '@', AltGr+Shift nothing
        if altgr {
            if shift { -1 } else { 64 }
        } else if shift {
            34
        } else {
            50
        }
    } else if code == KEY_3 {
        // '3', nothing, AltGr '#', AltGr+Shift nothing
        if altgr {
            if shift { -1 } else { 35 }
        } else if shift {
            -1
        } else {
            51
        }
    } else if code == KEY_4 {
        // '4', '$', AltGr '~', AltGr+Shift nothing
        if altgr {
            if shift { -1 } else { 126 }
        } else if shift {
            36
        } else {
            52
        }
    } else if code == KEY_5 {
        // '5', '%', AltGr nothing, AltGr+Shift nothing
        if altgr {
            if shift { -1 } else { -1 }
        } else if shift {
            37
        } else {
            53
        }
    } else if code == KEY_6 {
        // '6', '&', AltGr nothing, AltGr+Shift nothing
        if altgr {
            if shift { -1 } else { -1 }
        } else if shift {
            38
        } else {
            54
        }
    } else if code == KEY_7 {
        // '7', '/', AltGr nothing, AltGr+Shift nothing
        if altgr {
            if shift { -1 } else { -1 }
        } else if shift {
            47
        } else {
            55
        }
    } else if code == KEY_8 {
        // '8', '(', AltGr nothing, AltGr+Shift nothing
        if altgr {
            if shift { -1 } else { -1 }
        } else if shift {
            40
        } else {
            56
        }
    } else if code == KEY_9 {
        // '9', ')', AltGr nothing, AltGr+Shift nothing
        if altgr {
            if shift { -1 } else { -1 }
        } else if shift {
            41
        } else {
            57
        }
    } else if code == KEY_0 {
        // '0', '=', AltGr nothing, AltGr+Shift nothing
        if altgr {
            if shift { -1 } else { -1 }
        } else if shift {
            61
        } else {
            48
        }
    } else if code == KEY_MINUS {
        // "'", '?', AltGr '\', AltGr+Shift nothing
        if altgr {
            if shift { -1 } else { 92 }
        } else if shift {
            63
        } else {
            39
        }
    } else if code == KEY_TAB {
        // tab, nothing, AltGr nothing, AltGr+Shift nothing
        if altgr {
            if shift { -1 } else { -1 }
        } else if shift {
            -1
        } else {
            9
        }
    } else if code == KEY_Q {
        // 'q', 'Q', AltGr nothing, AltGr+Shift nothing
        if altgr {
            if shift { -1 } else { -1 }
        } else if shift {
            81
        } else {
            113
        }
    } else if code == KEY_W {
        // 'w', 'W', AltGr nothing, AltGr+Shift nothing
        if altgr {
            if shift { -1 } else { -1 }
        } else if shift {
            87
        } else {
            119
        }
    } else if code == KEY_E {
        // 'e', 'E', AltGr nothing, AltGr+Shift nothing
        if altgr {
            if shift { -1 } else { -1 }
        } else if shift {
            69
        } else {
            101
        }
    } else if code == KEY_R {
        // 'r', 'R', AltGr nothing, AltGr+Shift nothing
        if altgr {
            if shift { -1 } else { -1 }
        } else if shift {
            82
        } else {
            114
        }
    } else if code == KEY_T {
        // 't', 'T', AltGr nothing, AltGr+Shift nothing
        if altgr {
            if shift { -1 } else { -1 }
        } else if shift {
            84
        } else {
            116
        }
    } else if code == KEY_Y {
        // 'y', 'Y', AltGr nothing, AltGr+Shift nothing
        if altgr {
            if shift { -1 } else { -1 }
        } else if shift {
            89
        } else {
            121
        }
    } else if code == KEY_U {
        // 'u', 'U', AltGr nothing, AltGr+Shift nothing
        if altgr {
            if shift { -1 } else { -1 }
        } else if shift {
            85
        } else {
            117
        }
    } else if code == KEY_I {
        // 'i', 'I', AltGr nothing, AltGr+Shift nothing
        if altgr {
            if shift { -1 } else { -1 }
        } else if shift {
            73
        } else {
            105
        }
    } else if code == KEY_O {
        // 'o', 'O', AltGr nothing, AltGr+Shift nothing
        if altgr {
            if shift { -1 } else { -1 }
        } else if shift {
            79
        } else {
            111
        }
    } else if code == KEY_P {
        // 'p', 'P', AltGr nothing, AltGr+Shift nothing
        if altgr {
            if shift { -1 } else { -1 }
        } else if shift {
            80
        } else {
            112
        }
    } else if code == KEY_LEFTBRACE {
        // '`', '^', AltGr '[', AltGr+Shift nothing
        if altgr {
            if shift { -1 } else { 91 }
        } else if shift {
            94
        } else {
            96
        }
    } else if code == KEY_RIGHTBRACE {
        // '+', '*', AltGr ']', AltGr+Shift nothing
        if altgr {
            if shift { -1 } else { 93 }
        } else if shift {
            42
        } else {
            43
        }
    } else if code == KEY_ENTER {
        // enter, nothing, AltGr nothing, AltGr+Shift nothing
        if altgr {
            if shift { -1 } else { -1 }
        } else if shift {
            -1
        } else {
            10
        }
    } else if code == KEY_A {
        // 'a', 'A', AltGr nothing, AltGr+Shift nothing
        if altgr {
            if shift { -1 } else { -1 }
        } else if shift {
            65
        } else {
            97
        }
    } else if code == KEY_S {
        // 's', 'S', AltGr nothing, AltGr+Shift nothing
        if altgr {
            if shift { -1 } else { -1 }
        } else if shift {
            83
        } else {
            115
        }
    } else if code == KEY_D {
        // 'd', 'D', AltGr nothing, AltGr+Shift nothing
        if altgr {
            if shift { -1 } else { -1 }
        } else if shift {
            68
        } else {
            100
        }
    } else if code == KEY_F {
        // 'f', 'F', AltGr nothing, AltGr+Shift nothing
        if altgr {
            if shift { -1 } else { -1 }
        } else if shift {
            70
        } else {
            102
        }
    } else if code == KEY_G {
        // 'g', 'G', AltGr nothing, AltGr+Shift nothing
        if altgr {
            if shift { -1 } else { -1 }
        } else if shift {
            71
        } else {
            103
        }
    } else if code == KEY_H {
        // 'h', 'H', AltGr nothing, AltGr+Shift nothing
        if altgr {
            if shift { -1 } else { -1 }
        } else if shift {
            72
        } else {
            104
        }
    } else if code == KEY_J {
        // 'j', 'J', AltGr nothing, AltGr+Shift nothing
        if altgr {
            if shift { -1 } else { -1 }
        } else if shift {
            74
        } else {
            106
        }
    } else if code == KEY_K {
        // 'k', 'K', AltGr nothing, AltGr+Shift nothing
        if altgr {
            if shift { -1 } else { -1 }
        } else if shift {
            75
        } else {
            107
        }
    } else if code == KEY_L {
        // 'l', 'L', AltGr nothing, AltGr+Shift nothing
        if altgr {
            if shift { -1 } else { -1 }
        } else if shift {
            76
        } else {
            108
        }
    } else if code == KEY_APOSTROPHE {
        // nothing, nothing, AltGr '{', AltGr+Shift nothing
        if altgr {
            if shift { -1 } else { 123 }
        } else if shift {
            -1
        } else {
            -1
        }
    } else if code == KEY_BACKSLASH {
        // nothing, nothing, AltGr '}', AltGr+Shift nothing
        if altgr {
            if shift { -1 } else { 125 }
        } else if shift {
            -1
        } else {
            -1
        }
    } else if code == KEY_Z {
        // 'z', 'Z', AltGr nothing, AltGr+Shift nothing
        if altgr {
            if shift { -1 } else { -1 }
        } else if shift {
            90
        } else {
            122
        }
    } else if code == KEY_X {
        // 'x', 'X', AltGr nothing, AltGr+Shift nothing
        if altgr {
            if shift { -1 } else { -1 }
        } else if shift {
            88
        } else {
            120
        }
    } else if code == KEY_C {
        // 'c', 'C', AltGr nothing, AltGr+Shift nothing
        if altgr {
            if shift { -1 } else { -1 }
        } else if shift {
            67
        } else {
            99
        }
    } else if code == KEY_V {
        // 'v', 'V', AltGr nothing, AltGr+Shift nothing
        if altgr {
            if shift { -1 } else { -1 }
        } else if shift {
            86
        } else {
            118
        }
    } else if code == KEY_B {
        // 'b', 'B', AltGr nothing, AltGr+Shift nothing
        if altgr {
            if shift { -1 } else { -1 }
        } else if shift {
            66
        } else {
            98
        }
    } else if code == KEY_N {
        // 'n', 'N', AltGr nothing, AltGr+Shift nothing
        if altgr {
            if shift { -1 } else { -1 }
        } else if shift {
            78
        } else {
            110
        }
    } else if code == KEY_M {
        // 'm', 'M', AltGr nothing, AltGr+Shift nothing
        if altgr {
            if shift { -1 } else { -1 }
        } else if shift {
            77
        } else {
            109
        }
    } else if code == KEY_COMMA {
        // ',', ';', AltGr nothing, AltGr+Shift nothing
        if altgr {
            if shift { -1 } else { -1 }
        } else if shift {
            59
        } else {
            44
        }
    } else if code == KEY_DOT {
        // '.', ':', AltGr nothing, AltGr+Shift nothing
        if altgr {
            if shift { -1 } else { -1 }
        } else if shift {
            58
        } else {
            46
        }
    } else if code == KEY_SLASH {
        // '-', '_', AltGr nothing, AltGr+Shift nothing
        if altgr {
            if shift { -1 } else { -1 }
        } else if shift {
            95
        } else {
            45
        }
    } else if code == KEY_SPACE {
        // ' ', nothing, AltGr nothing, AltGr+Shift nothing
        if altgr {
            if shift { -1 } else { -1 }
        } else if shift {
            -1
        } else {
            32
        }
    } else if code == KEY_102ND {
        // '<', '>', AltGr nothing, AltGr+Shift nothing
        if altgr {
            if shift { -1 } else { -1 }
        } else if shift {
            62
        } else {
            60
        }
    } else {
        -1
    }
}

/// What the named layout types with a key and modifiers; an unknown name
/// is a US keyboard.
pub open spec fn layout_output(layout: Seq<char>, code: int, shift: bool, altgr: bool) -> int {
    if layout == "dk"@ {
        dk_output(code, shift, altgr)
    } else if layout == "es"@ {
        es_output(code, shift, altgr)
    } else {
        us_output(code, shift, altgr)
    }
}

/// The keycode of a definition.
pub open spec fn key_of(e: i32) -> int {
    (e & 0xffff) as int
}

/// Whether a definition holds Shift.
pub open spec fn with_shift(e: i32) -> bool {
    e & FLAG_UPPERCASE != 0
}

/// Whether a definition holds AltGr.
pub open spec fn with_altgr(e: i32) -> bool {
    e & FLAG_ALTGR != 0
}

/// What pressing definition `e` types in `layout`.
pub open spec fn types(layout: Seq<char>, e: i32) -> int {
    layout_output(layout, key_of(e), with_shift(e), with_altgr(e))
}

/// Typing a character's US definition on a US keyboard types the character.
proof fn lemma_us_definitions_type(c: u8)
    requires
        is_typeable(c),
    ensures
        us_output(key_of(us_keydef(c)), with_shift(us_keydef(c)), with_altgr(us_keydef(c))) == c as int,
{
    lemma_definition_bits(KEY_0);
    lemma_definition_bits(KEY_1);
    lemma_definition_bits(KEY_102ND);
    lemma_definition_bits(KEY_2);
    lemma_definition_bits(KEY_3);
    lemma_definition_bits(KEY_4);
    lemma_definition_bits(KEY_5);
    lemma_definition_bits(KEY_6);
    lemma_definition_bits(KEY_7);
    lemma_definition_bits(KEY_8);
    lemma_definition_bits(KEY_9);
    lemma_definition_bits(KEY_A);
    lemma_definition_bits(KEY_APOSTROPHE);
    lemma_definition_bits(KEY_B);
    lemma_definition_bits(KEY_BACKSLASH);
    lemma_definition_bits(KEY_C);
    lemma_definition_bits(KEY_COMMA);
    lemma_definition_bits(KEY_D);
    lemma_definition_bits(KEY_DOT);
    lemma_definition_bits(KEY_E);
    lemma_definition_bits(KEY_ENTER);
    lemma_definition_bits(KEY_EQUAL);
    lemma_definition_bits(KEY_F);
    lemma_definition_bits(KEY_G);
    lemma_definition_bits(KEY_GRAVE);
    lemma_definition_bits(KEY_H);
    lemma_definition_bits(KEY_I);
    lemma_definition_bits(KEY_J);
    lemma_definition_bits(KEY_K);
    lemma_definition_bits(KEY_L);
    lemma_definition_bits(KEY_LEFTBRACE);
    lemma_definition_bits(KEY_M);
    lemma_definition_bits(KEY_MINUS);
    lemma_definition_bits(KEY_N);
    lemma_definition_bits(KEY_O);
    lemma_definition_bits(KEY_P);
    lemma_definition_bits(KEY_Q);
    lemma_definition_bits(KEY_R);
    lemma_definition_bits(KEY_RIGHTBRACE);
    lemma_definition_bits(KEY_S);
    lemma_definition_bits(KEY_SEMICOLON);
    lemma_definition_bits(KEY_SLASH);
    lemma_definition_bits(KEY_SPACE);
    lemma_definition_bits(KEY_T);
    lemma_definition_bits(KEY_TAB);
    lemma_definition_bits(KEY_U);
    lemma_definition_bits(KEY_V);
    lemma_definition_bits(KEY_W);
    lemma_definition_bits(KEY_X);
    lemma_definition_bits(KEY_Y);
    lemma_definition_bits(KEY_Z);
}

/// Typing a character's Danish definition on a Danish keyboard types it.
#[verifier::spinoff_prover]
#[verifier::rlimit(50)]
proof fn lemma_dk_definitions_type(c: u8)
    requires
        is_typeable(c),
    ensures
        dk_output(key_of(dk_table()[c as int]), with_shift(dk_table()[c as int]), with_altgr(dk_table()[c as int])) == c as int,
{
    lemma_definition_bits(KEY_0);
    lemma_definition_bits(KEY_1);
    lemma_definition_bits(KEY_102ND);
    lemma_definition_bits(KEY_2);
    lemma_definition_bits(KEY_3);
    lemma_definition_bits(KEY_4);
    lemma_definition_bits(KEY_5);
    lemma_definition_bits(KEY_6);
    lemma_definition_bits(KEY_7);
    lemma_definition_bits(KEY_8);
    lemma_definition_bits(KEY_9);
    lemma_definition_bits(KEY_A);
    lemma_definition_bits(KEY_APOSTROPHE);
    lemma_definition_bits(KEY_B);
    lemma_definition_bits(KEY_BACKSLASH);
    lemma_definition_bits(KEY_C);
    lemma_definition_bits(KEY_COMMA);
    lemma_definition_bits(KEY_D);
    lemma_definition_bits(KEY_DOT);
    lemma_definition_bits(KEY_E);
    lemma_definition_bits(KEY_ENTER);
    lemma_definition_bits(KEY_EQUAL);
    lemma_definition_bits(KEY_F);
    lemma_definition_bits(KEY_G);
    lemma_definition_bits(KEY_GRAVE);
    lemma_definition_bits(KEY_H);
    lemma_definition_bits(KEY_I);
    lemma_definition_bits(KEY_J);
    lemma_definition_bits(KEY_K);
    lemma_definition_bits(KEY_L);
    lemma_definition_bits(KEY_LEFTBRACE);
    lemma_definition_bits(KEY_M);
    lemma_definition_bits(KEY_MINUS);
    lemma_definition_bits(KEY_N);
    lemma_definition_bits(KEY_O);
    lemma_definition_bits(KEY_P);
    lemma_definition_bits(KEY_Q);
    lemma_definition_bits(KEY_R);
    lemma_definition_bits(KEY_RIGHTBRACE);
    lemma_definition_bits(KEY_S);
    lemma_definition_bits(KEY_SEMICOLON);
    lemma_definition_bits(KEY_SLASH);
    lemma_definition_bits(KEY_SPACE);
    lemma_definition_bits(KEY_T);
    lemma_definition_bits(KEY_TAB);
    lemma_definition_bits(KEY_U);
    lemma_definition_bits(KEY_V);
    lemma_definition_bits(KEY_W);
    lemma_definition_bits(KEY_X);
    lemma_definition_bits(KEY_Y);
    lemma_definition_bits(KEY_Z);
    lemma_with_overrides_len(us_table(), danish_override_list());
    if c == 34 || c == 36 || c == 38 || c == 39 || c == 40 || c == 41 || c == 42 || c == 43 || c == 45 || c == 47 || c == 58 || c == 59 || c == 60 || c == 61 || c == 62 || c == 63 || c == 64 || c == 91 || c == 92 || c == 93 || c == 94 || c == 95 || c == 96 || c == 123 || c == 124 || c == 125 || c == 126 {
        if c == 34 {
            lemma_with_overrides_entry(us_table(), danish_override_list(), 34, 0);
        }
        if c == 36 {
            lemma_with_overrides_entry(us_table(), danish_override_list(), 36, 1);
        }
        if c == 38 {
            lemma_with_overrides_entry(us_table(), danish_override_list(), 38, 2);
        }
        if c == 39 {
            lemma_with_overrides_entry(us_table(), danish_override_list(), 39, 3);
        }
        if c == 40 {
            lemma_with_overrides_entry(us_table(), danish_override_list(), 40, 4);
        }
        if c == 41 {
            lemma_with_overrides_entry(us_table(), danish_override_list(), 41, 5);
        }
        if c == 42 {
            lemma_with_overrides_entry(us_table(), danish_override_list(), 42, 6);
        }
        if c == 43 {
            lemma_with_overrides_entry(us_table(), danish_override_list(), 43, 7);
        }
        if c == 45 {
            lemma_with_overrides_entry(us_table(), danish_override_list(), 45, 8);
        }
        if c == 47 {
            lemma_with_overrides_entry(us_table(), danish_override_list(), 47, 9);
        }
        if c == 58 {
            lemma_with_overrides_entry(us_table(), danish_override_list(), 58, 10);
        }
        if c == 59 {
            lemma_with_overrides_entry(us_table(), danish_override_list(), 59, 11);
        }
        if c == 60 {
            lemma_with_overrides_entry(us_table(), danish_override_list(), 60, 12);
        }
        if c == 61 {
            lemma_with_overrides_entry(us_table(), danish_override_list(), 61, 13);
        }
        if c == 62 {
            lemma_with_overrides_entry(us_table(), danish_override_list(), 62, 14);
        }
        if c == 63 {
            lemma_with_overrides_entry(us_table(), danish_override_list(), 63, 15);
        }
        if c == 64 {
            lemma_with_overrides_entry(us_table(), danish_override_list(), 64, 16);
        }
        if c == 91 {
            lemma_with_overrides_entry(us_table(), danish_override_list(), 91, 17);
        }
        if c == 92 {
            lemma_with_overrides_entry(us_table(), danish_override_list(), 92, 18);
        }
        if c == 93 {
            lemma_with_overrides_entry(us_table(), danish_override_list(), 93, 19);
        }
        if c == 94 {
            lemma_with_overrides_entry(us_table(), danish_override_list(), 94, 20);
        }
        if c == 95 {
            lemma_with_overrides_entry(us_table(), danish_override_list(), 95, 21);
        }
        if c == 96 {
            lemma_with_overrides_entry(us_table(), danish_override_list(), 96, 22);
        }
        if c == 123 {
            lemma_with_overrides_entry(us_table(), danish_override_list(), 123, 23);
        }
        if c == 124 {
            lemma_with_overrides_entry(us_table(), danish_override_list(), 124, 24);
        }
        if c == 125 {
            lemma_with_overrides_entry(us_table(), danish_override_list(), 125, 25);
        }
        if c == 126 {
            lemma_with_overrides_entry(us_table(), danish_override_list(), 126, 26);
        }
    } else {
        lemma_with_overrides_untouched(us_table(), danish_override_list(), c as int);
    }
}

/// Typing a character's Spanish definition on a Spanish keyboard types it.
#[verifier::spinoff_prover]
#[verifier::rlimit(50)]
proof fn lemma_es_definitions_type(c: u8)
    requires
        is_typeable(c),
    ensures
        es_output(key_of(es_table()[c as int]), with_shift(es_table()[c as int]), with_altgr(es_table()[c as int])) == c as int,
{
    lemma_definition_bits(KEY_0);
    lemma_definition_bits(KEY_1);
    lemma_definition_bits(KEY_102ND);
    lemma_definition_bits(KEY_2);
    lemma_definition_bits(KEY_3);
    lemma_definition_bits(KEY_4);
    lemma_definition_bits(KEY_5);
    lemma_definition_bits(KEY_6);
    lemma_definition_bits(KEY_7);
    lemma_definition_bits(KEY_8);
    lemma_definition_bits(KEY_9);
    lemma_definition_bits(KEY_A);
    lemma_definition_bits(KEY_APOSTROPHE);
    lemma_definition_bits(KEY_B);
    lemma_definition_bits(KEY_BACKSLASH);
    lemma_definition_bits(KEY_C);
    lemma_definition_bits(KEY_COMMA);
    lemma_definition_bits(KEY_D);
    lemma_definition_bits(KEY_DOT);
    lemma_definition_bits(KEY_E);
    lemma_definition_bits(KEY_ENTER);
    lemma_definition_bits(KEY_EQUAL);
    lemma_definition_bits(KEY_F);
    lemma_definition_bits(KEY_G);
    lemma_definition_bits(KEY_GRAVE);
    lemma_definition_bits(KEY_H);
    lemma_definition_bits(KEY_I);
    lemma_definition_bits(KEY_J);
    lemma_definition_bits(KEY_K);
    lemma_definition_bits(KEY_L);
    lemma_definition_bits(KEY_LEFTBRACE);
    lemma_definition_bits(KEY_M);
    lemma_definition_bits(KEY_MINUS);
    lemma_definition_bits(KEY_N);
    lemma_definition_bits(KEY_O);
    lemma_definition_bits(KEY_P);
    lemma_definition_bits(KEY_Q);
    lemma_definition_bits(KEY_R);
    lemma_definition_bits(KEY_RIGHTBRACE);
    lemma_definition_bits(KEY_S);
    lemma_definition_bits(KEY_SEMICOLON);
    lemma_definition_bits(KEY_SLASH);
    lemma_definition_bits(KEY_SPACE);
    lemma_definition_bits(KEY_T);
    lemma_definition_bits(KEY_TAB);
    lemma_definition_bits(KEY_U);
    lemma_definition_bits(KEY_V);
    lemma_definition_bits(KEY_W);
    lemma_definition_bits(KEY_X);
    lemma_definition_bits(KEY_Y);
    lemma_definition_bits(KEY_Z);
    lemma_with_overrides_len(us_table(), spanish_override_list());
    if c == 34 || c == 35 || c == 38 || c == 39 || c == 40 || c == 41 || c == 42 || c == 43 || c == 45 || c == 47 || c == 58 || c == 59 || c == 60 || c == 61 || c == 62 || c == 63 || c == 64 || c == 91 || c == 92 || c == 93 || c == 94 || c == 95 || c == 96 || c == 123 || c == 124 || c == 125 || c == 126 {
        if c == 34 {
            lemma_with_overrides_entry(us_table(), spanish_override_list(), 34, 1);
        }
        if c == 35 {
            lemma_with_overrides_entry(us_table(), spanish_override_list(), 35, 2);
        }
        if c == 38 {
            lemma_with_overrides_entry(us_table(), spanish_override_list(), 38, 3);
        }
        if c == 39 {
            lemma_with_overrides_entry(us_table(), spanish_override_list(), 39, 0);
        }
        if c == 40 {
            lemma_with_overrides_entry(us_table(), spanish_override_list(), 40, 4);
        }
        if c == 41 {
            lemma_with_overrides_entry(us_table(), spanish_override_list(), 41, 5);
        }
        if c == 42 {
            lemma_with_overrides_entry(us_table(), spanish_override_list(), 42, 6);
        }
        if c == 43 {
            lemma_with_overrides_entry(us_table(), spanish_override_list(), 43, 7);
        }
        if c == 45 {
            lemma_with_overrides_entry(us_table(), spanish_override_list(), 45, 8);
        }
        if c == 47 {
            lemma_with_overrides_entry(us_table(), spanish_override_list(), 47, 9);
        }
        if c == 58 {
            lemma_with_overrides_entry(us_table(), spanish_override_list(), 58, 10);
        }
        if c == 59 {
            lemma_with_overrides_entry(us_table(), spanish_override_list(), 59, 11);
        }
        if c == 60 {
            lemma_with_overrides_entry(us_table(), spanish_override_list(), 60, 12);
        }
        if c == 61 {
            lemma_with_overrides_entry(us_table(), spanish_override_list(), 61, 13);
        }
        if c == 62 {
            lemma_with_overrides_entry(us_table(), spanish_override_list(), 62, 14);
        }
        if c == 63 {
            lemma_with_overrides_entry(us_table(), spanish_override_list(), 63, 15);
        }
        if c == 64 {
            lemma_with_overrides_entry(us_table(), spanish_override_list(), 64, 16);
        }
        if c == 91 {
            lemma_with_overrides_entry(us_table(), spanish_override_list(), 91, 17);
        }
        if c == 92 {
            lemma_with_overrides_entry(us_table(), spanish_override_list(), 92, 18);
        }
        if c == 93 {
            lemma_with_overrides_entry(us_table(), spanish_override_list(), 93, 19);
        }
        if c == 94 {
            lemma_with_overrides_entry(us_table(), spanish_override_list(), 94, 20);
        }
        if c == 95 {
            lemma_with_overrides_entry(us_table(), spanish_override_list(), 95, 21);
        }
        if c == 96 {
            lemma_with_overrides_entry(us_table(), spanish_override_list(), 96, 22);
        }
        if c == 123 {
            lemma_with_overrides_entry(us_table(), spanish_override_list(), 123, 23);
        }
        if c == 124 {
            lemma_with_overrides_entry(us_table(), spanish_override_list(), 124, 24);
        }
        if c == 125 {
            lemma_with_overrides_entry(us_table(), spanish_override_list(), 125, 25);
        }
        if c == 126 {
            lemma_with_overrides_entry(us_table(), spanish_override_list(), 126, 26);
        }
    } else {
        lemma_with_overrides_untouched(us_table(), spanish_override_list(), c as int);
    }
}

/// In every layout, pressing the key a character's definition names, with
/// the modifiers it names, types that character: the tables agree with the
/// keyboards they describe.
pub proof fn lemma_definition_types_its_character(layout: Seq<char>, c: u8)
    requires
        is_typeable(c),
    ensures
        types(layout, keydef(layout, c)) == c as int,
{
    if layout == "dk"@ {
        lemma_dk_definitions_type(c);
    } else if layout == "es"@ {
        lemma_es_definitions_type(c);
    } else {
        lemma_us_definitions_type(c);
    }
}

/// In every layout, no two characters with a key share a definition.
pub proof fn lemma_definitions_distinct(layout: Seq<char>, a: u8, b: u8)
    requires
        is_typeable(a),
        is_typeable(b),
        keydef(layout, a) == keydef(layout, b),
    ensures
        a == b,
{
    lemma_definition_types_its_character(layout, a);
    lemma_definition_types_its_character(layout, b);
}

/// Writes each (character, definition) pair of `ov` over the table, in
/// order.
fn apply_overrides(table: &mut Vec<i32>, ov: &Vec<(u8, i32)>)
    requires
        old(table)@.len() == 128,
        forall|k: int| 0 <= k < ov@.len() ==> (#[trigger] ov@[k]).0 < 128,
    ensures
        final(table)@ == with_overrides(old(table)@, ov@),
{
    let ghost base = table@;
    let mut j: usize = 0;
    assert(ov@.take(0) =~= Seq::<(u8, i32)>::empty());
    while j < ov.len()
        invariant
            j <= ov@.len(),
            base.len() == 128,
            forall|k: int| 0 <= k < ov@.len() ==> (#[trigger] ov@[k]).0 < 128,
            table@ == with_overrides(base, ov@.take(j as int)),
            table@.len() == 128,
        decreases ov.len() - j,
    {
        let (c, kdef) = ov[j];
        assert(ov@[j as int].0 < 128);
        table.set(c as usize, kdef);
        assert(ov@.take(j + 1).drop_last() =~= ov@.take(j as int));
        j = j + 1;
    }
    assert(ov@.take(ov@.len() as int) =~= ov@);
}

/// Every layout's name with its full table: US first, then the US table
/// with each layout's overrides applied.
fn build_layouts() -> (r: Vec<(&'static str, Vec<i32>)>)
    ensures
        r@.len() == 3,
        r@[0].0@ == "us"@,
        r@[0].1@ == us_table(),
        r@[1].0@ == "dk"@,
        r@[1].1@ == dk_table(),
        r@[2].0@ == "es"@,
        r@[2].1@ == es_table(),
{
    let us = build_us_map();

    let mut dk = build_us_map();
    let dk_ov = danish_overrides();
    apply_overrides(&mut dk, &dk_ov);

    let mut es = build_us_map();
    let es_ov = spanish_overrides();
    apply_overrides(&mut es, &es_ov);

    let mut r: Vec<(&'static str, Vec<i32>)> = Vec::new();
    r.push(("us", us));
    r.push(("dk", dk));
    r.push(("es", es));
    r
}

/// Returns keycode | FLAG_* modifiers for `c` in the given layout, or -1.
/// An unknown layout falls back to US; a byte outside ASCII is -1.
pub fn keymap_lookup(layout: &str, c: u8) -> (r: i32)
    ensures
        r == keydef(layout@, c),
{
    if c >= 128 {
        return -1;
    }
    proof {
        reveal_strlit("us");
        reveal_strlit("dk");
        reveal_strlit("es");
        assert("us"@[0] != "dk"@[0]);
        assert("us"@[0] != "es"@[0]);
        assert("dk"@[0] != "es"@[0]);
    }
    let layouts = build_layouts();
    proof {
        lemma_with_overrides_len(us_table(), danish_override_list());
        lemma_with_overrides_len(us_table(), spanish_override_list());
    }
    let mut i: usize = 0;
    while i < layouts.len()
        invariant
            c < 128,
            i <= layouts@.len(),
            layouts@.len() == 3,
            layouts@[0].0@ == "us"@,
            layouts@[0].1@ == us_table(),
            layouts@[1].0@ == "dk"@,
            layouts@[1].1@ == dk_table(),
            layouts@[2].0@ == "es"@,
            layouts@[2].1@ == es_table(),
            forall|j: int| 0 <= j < i ==> layouts@[j].0@ != layout@,
            us_table().len() == 128,
            dk_table().len() == 128,
            es_table().len() == 128,
            "us"@ != "dk"@,
            "us"@ != "es"@,
            "dk"@ != "es"@,
        decreases layouts.len() - i,
    {
        if str_eq(layouts[i].0, layout) {
            assert(layouts@[i as int].1@.len() == 128);
            assert(layouts@[i as int].1@ == layout_table(layout@)) by {
                if i == 0 {
                    assert(layout@ == "us"@);
                } else if i == 1 {
                    assert(layout@ == "dk"@);
                } else {
                    assert(layout@ == "es"@);
                }
            }
            return layouts[i].1[c as usize];
        }
        i = i + 1;
    }
    layouts[0].1[c as usize]
}

} // verus!
