use evdev::KeyCode;
use rhisper_core::keymap::{
    keymap_lookup, FLAG_ALTGR, FLAG_DEADKEY, FLAG_UPPERCASE, KEY_102ND, KEY_A, KEY_LEFTMETA,
    KEY_RIGHTALT, KEY_SPACE, KEY_Z,
};

fn k(code: KeyCode) -> i32 {
    code.0 as i32
}

fn expect(layout: &str, ch: char, expected: i32) {
    assert_eq!(
        keymap_lookup(layout, ch as u8),
        expected,
        "keymap_lookup({:?}, {:?})",
        layout,
        ch
    );
}

#[test]
fn us_layout() {
    expect("us", 'a', k(KeyCode::KEY_A));
    expect("us", 'A', k(KeyCode::KEY_A) | FLAG_UPPERCASE);
    expect("us", '1', k(KeyCode::KEY_1));
    expect("us", '!', k(KeyCode::KEY_1) | FLAG_UPPERCASE);
    expect("us", '\'', k(KeyCode::KEY_APOSTROPHE));
    expect("us", '?', k(KeyCode::KEY_SLASH) | FLAG_UPPERCASE);
    expect("us", '"', k(KeyCode::KEY_APOSTROPHE) | FLAG_UPPERCASE);
    expect("us", '@', k(KeyCode::KEY_2) | FLAG_UPPERCASE);
    expect("us", '^', k(KeyCode::KEY_6) | FLAG_UPPERCASE);
    expect("us", '~', k(KeyCode::KEY_GRAVE) | FLAG_UPPERCASE);
    expect("us", '`', k(KeyCode::KEY_GRAVE));
    expect("us", '\\', k(KeyCode::KEY_BACKSLASH));
    expect("us", '<', k(KeyCode::KEY_COMMA) | FLAG_UPPERCASE);
    expect("us", '{', k(KeyCode::KEY_LEFTBRACE) | FLAG_UPPERCASE);
    expect("us", '|', k(KeyCode::KEY_BACKSLASH) | FLAG_UPPERCASE);
    expect("us", ' ', k(KeyCode::KEY_SPACE));
}

#[test]
fn dk_layout_reported_bugs() {
    // was being typed as o-slash
    expect("dk", '\'', k(KeyCode::KEY_BACKSLASH));
    // was being typed as underscore
    expect("dk", '?', k(KeyCode::KEY_MINUS) | FLAG_UPPERCASE);
}

#[test]
fn dk_layout_letters_and_digits() {
    expect("dk", 'a', k(KeyCode::KEY_A));
    expect("dk", 'A', k(KeyCode::KEY_A) | FLAG_UPPERCASE);
    expect("dk", 'z', k(KeyCode::KEY_Z));
    expect("dk", 'Z', k(KeyCode::KEY_Z) | FLAG_UPPERCASE);
    expect("dk", '1', k(KeyCode::KEY_1));
    expect("dk", '!', k(KeyCode::KEY_1) | FLAG_UPPERCASE);
}

#[test]
fn dk_layout_shifted_symbols() {
    expect("dk", '"', k(KeyCode::KEY_2) | FLAG_UPPERCASE);
    expect("dk", '#', k(KeyCode::KEY_3) | FLAG_UPPERCASE);
    expect("dk", '%', k(KeyCode::KEY_5) | FLAG_UPPERCASE);
    expect("dk", '&', k(KeyCode::KEY_6) | FLAG_UPPERCASE);
    expect("dk", '6', k(KeyCode::KEY_6));
    expect("dk", '/', k(KeyCode::KEY_7) | FLAG_UPPERCASE); // shift+7
    expect("dk", '7', k(KeyCode::KEY_7));
    expect("dk", '(', k(KeyCode::KEY_8) | FLAG_UPPERCASE);
    expect("dk", ')', k(KeyCode::KEY_9) | FLAG_UPPERCASE);
    expect("dk", '=', k(KeyCode::KEY_0) | FLAG_UPPERCASE);
    expect("dk", '+', k(KeyCode::KEY_MINUS));
    expect("dk", '*', k(KeyCode::KEY_BACKSLASH) | FLAG_UPPERCASE);
    expect("dk", ';', k(KeyCode::KEY_COMMA) | FLAG_UPPERCASE);
    expect("dk", ':', k(KeyCode::KEY_DOT) | FLAG_UPPERCASE);
    expect("dk", '<', KEY_102ND);
    expect("dk", '>', KEY_102ND | FLAG_UPPERCASE);
    expect("dk", '-', k(KeyCode::KEY_SLASH));
    expect("dk", '_', k(KeyCode::KEY_SLASH) | FLAG_UPPERCASE);
}

#[test]
fn dk_layout_altgr() {
    expect("dk", '@', k(KeyCode::KEY_2) | FLAG_ALTGR);
    expect("dk", '$', k(KeyCode::KEY_4) | FLAG_ALTGR);
    expect("dk", '{', k(KeyCode::KEY_7) | FLAG_ALTGR);
    expect("dk", '[', k(KeyCode::KEY_8) | FLAG_ALTGR);
    expect("dk", ']', k(KeyCode::KEY_9) | FLAG_ALTGR);
    expect("dk", '}', k(KeyCode::KEY_0) | FLAG_ALTGR);
    expect("dk", '\\', KEY_102ND | FLAG_ALTGR);
    expect("dk", '|', k(KeyCode::KEY_EQUAL) | FLAG_ALTGR);
}

#[test]
fn dk_layout_dead_keys() {
    expect("dk",
        '`',
        k(KeyCode::KEY_EQUAL) | FLAG_UPPERCASE | FLAG_DEADKEY
    );
    expect("dk",
        '^',
        k(KeyCode::KEY_RIGHTBRACE) | FLAG_UPPERCASE | FLAG_DEADKEY
    );
    expect("dk",
        '~',
        k(KeyCode::KEY_RIGHTBRACE) | FLAG_ALTGR | FLAG_DEADKEY
    );
}

// Spanish layout: the reported bug (tilde).

#[test]
fn es_layout_tilde_bug() {
    // The C version's Spanish users fell back to the "us" table, which
    // maps '~' to Shift+Grave - on a real Spanish system layout that key
    // combo produces "ª" (ordfeminine), not a tilde. Fixed via AltGr+4,
    // which is what a real Spanish keyboard's basic layout assigns to a
    // literal (non-dead) tilde.
    expect("es", '~', k(KeyCode::KEY_4) | FLAG_ALTGR);
}

#[test]
fn es_layout_letters_and_digits() {
    expect("es", 'a', k(KeyCode::KEY_A));
    expect("es", 'A', k(KeyCode::KEY_A) | FLAG_UPPERCASE);
    expect("es", 'n', k(KeyCode::KEY_N));
    expect("es", '5', k(KeyCode::KEY_5));
}

#[test]
fn es_layout_shifted_symbols() {
    expect("es", '"', k(KeyCode::KEY_2) | FLAG_UPPERCASE);
    expect("es", '&', k(KeyCode::KEY_6) | FLAG_UPPERCASE);
    expect("es", '/', k(KeyCode::KEY_7) | FLAG_UPPERCASE);
    expect("es", '(', k(KeyCode::KEY_8) | FLAG_UPPERCASE);
    expect("es", ')', k(KeyCode::KEY_9) | FLAG_UPPERCASE);
    expect("es", '=', k(KeyCode::KEY_0) | FLAG_UPPERCASE);
    expect("es", '\'', k(KeyCode::KEY_MINUS));
    expect("es", '?', k(KeyCode::KEY_MINUS) | FLAG_UPPERCASE);
    expect("es", '+', k(KeyCode::KEY_RIGHTBRACE));
    expect("es", '*', k(KeyCode::KEY_RIGHTBRACE) | FLAG_UPPERCASE);
    expect("es", ';', k(KeyCode::KEY_COMMA) | FLAG_UPPERCASE);
    expect("es", ':', k(KeyCode::KEY_DOT) | FLAG_UPPERCASE);
    expect("es", '-', k(KeyCode::KEY_SLASH));
    expect("es", '_', k(KeyCode::KEY_SLASH) | FLAG_UPPERCASE);
    expect("es", '<', KEY_102ND);
    expect("es", '>', KEY_102ND | FLAG_UPPERCASE);
}

#[test]
fn es_layout_altgr() {
    expect("es", '@', k(KeyCode::KEY_2) | FLAG_ALTGR);
    expect("es", '#', k(KeyCode::KEY_3) | FLAG_ALTGR);
    expect("es", '[', k(KeyCode::KEY_LEFTBRACE) | FLAG_ALTGR);
    expect("es", ']', k(KeyCode::KEY_RIGHTBRACE) | FLAG_ALTGR);
    expect("es", '{', k(KeyCode::KEY_APOSTROPHE) | FLAG_ALTGR);
    expect("es", '}', k(KeyCode::KEY_BACKSLASH) | FLAG_ALTGR);
    expect("es", '\\', k(KeyCode::KEY_MINUS) | FLAG_ALTGR);
    expect("es", '|', k(KeyCode::KEY_1) | FLAG_ALTGR);
}

#[test]
fn es_layout_dead_keys() {
    expect("es", '`', k(KeyCode::KEY_LEFTBRACE) | FLAG_DEADKEY);
    expect("es",
        '^',
        k(KeyCode::KEY_LEFTBRACE) | FLAG_UPPERCASE | FLAG_DEADKEY
    );
}

#[test]
fn non_ascii_falls_back_to_clipboard() {
    // Non-ASCII falls back to the clipboard path in rhisper's paste logic.
    assert_eq!(keymap_lookup("us", 0xC3), -1);
    assert_eq!(keymap_lookup("dk", 0xE6), -1);
    assert_eq!(keymap_lookup("es", 0xF1), -1); // ñ
}

#[test]
fn unknown_layout_falls_back_to_us() {
    expect("gibberish", '\'', k(KeyCode::KEY_APOSTROPHE));
    expect("gibberish", '?', k(KeyCode::KEY_SLASH) | FLAG_UPPERCASE);
}

// Printable-ASCII classification logic layered on top of keymap_lookup().

#[test]
fn printable_ascii_range_is_mapped() {
    for c in 32u8..=126u8 {
        assert_ne!(
            keymap_lookup("us", c),
            -1,
            "printable ASCII char {c} is mapped"
        );
    }
}

#[test]
fn control_chars_are_unmapped() {
    for c in 0u8..=8u8 {
        assert_eq!(keymap_lookup("us", c), -1, "control char {c:#x} unmapped");
    }
    for c in 11u8..=31u8 {
        assert_eq!(keymap_lookup("us", c), -1, "control char {c:#x} unmapped");
    }
}

#[test]
fn tab_and_enter_are_mapped() {
    assert_ne!(keymap_lookup("us", b'\t'), -1);
    assert_ne!(keymap_lookup("us", b'\n'), -1);
}

#[test]
fn del_is_unmapped() {
    assert_eq!(keymap_lookup("us", 127), -1);
}

#[test]
fn uppercase_letters_have_shift_flag() {
    for c in b'A'..=b'Z' {
        assert_ne!(keymap_lookup("us", c) & FLAG_UPPERCASE, 0);
    }
}

#[test]
fn lowercase_letters_have_no_shift_flag() {
    for c in b'a'..=b'z' {
        assert_eq!(keymap_lookup("us", c) & FLAG_UPPERCASE, 0);
    }
}

#[test]
fn digits_have_no_shift_flag() {
    for c in b'0'..=b'9' {
        assert_eq!(keymap_lookup("us", c) & FLAG_UPPERCASE, 0);
    }
}

#[test]
fn shifted_symbols_have_shift_flag() {
    for c in "!@#$%^&*()_+{}|:\"<>?~".bytes() {
        assert_ne!(keymap_lookup("us", c) & FLAG_UPPERCASE, 0, "{}", c as char);
    }
}

#[test]
fn unshifted_symbols_have_no_shift_flag() {
    for c in "`-=[]\\;',./".bytes() {
        assert_eq!(keymap_lookup("us", c) & FLAG_UPPERCASE, 0, "{}", c as char);
    }
}

fn is_typeable(c: u8) -> bool {
    c == 9 || c == 10 || (32..=126).contains(&c)
}

#[test]
fn every_layout_maps_exactly_the_typeable_characters() {
    for layout in ["us", "dk", "es", "gibberish"] {
        for c in 0u8..=255u8 {
            assert_eq!(
                keymap_lookup(layout, c) != -1,
                is_typeable(c),
                "layout {layout}, char {c}"
            );
        }
    }
}

#[test]
fn every_definition_names_a_registered_key() {
    let keys = rhisper_core::uinput::supported_keys();
    for layout in ["us", "dk", "es"] {
        for c in 0u8..128u8 {
            let kdef = keymap_lookup(layout, c);
            if kdef != -1 {
                let code = (kdef & 0xffff) as u16;
                assert!(keys.contains(&code), "layout {layout}, char {c}: key {code}");
            }
        }
    }
}

#[test]
fn letters_and_digits_are_shared_by_all_layouts() {
    for c in (b'0'..=b'9').chain(b'A'..=b'Z').chain(b'a'..=b'z') {
        assert_eq!(keymap_lookup("dk", c), keymap_lookup("us", c));
        assert_eq!(keymap_lookup("es", c), keymap_lookup("us", c));
    }
}

#[test]
fn keycodes_match_the_kernel_codes() {
    assert_eq!(KEY_A, k(KeyCode::KEY_A));
    assert_eq!(KEY_Z, k(KeyCode::KEY_Z));
    assert_eq!(KEY_SPACE, k(KeyCode::KEY_SPACE));
    assert_eq!(KEY_RIGHTALT, k(KeyCode::KEY_RIGHTALT));
    assert_eq!(KEY_LEFTMETA, k(KeyCode::KEY_LEFTMETA));
    assert_eq!(KEY_102ND, k(KeyCode::KEY_102ND));
}
