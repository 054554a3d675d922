//! What the uinput daemon does with its virtual keyboard: which keys the
//! device registers, and the exact sequence of key events and pauses behind
//! each command. The device itself is driven by the caller, which carries
//! out the steps in order.
use vstd::prelude::*;

use crate::input::{command_for, ModifierKey};
use crate::ipc::{decoded, Command};
use crate::keymap::{
    is_supported_key,
    entry_fits, is_typeable, keydef, keymap_lookup, lemma_tables_fit, FLAG_ALTGR, FLAG_DEADKEY, FLAG_UPPERCASE, KEY_0, KEY_1, KEY_102ND,
    KEY_2, KEY_3, KEY_4, KEY_5, KEY_6, KEY_7, KEY_8, KEY_9, KEY_A, KEY_APOSTROPHE, KEY_B,
    KEY_BACKSLASH, KEY_BACKSPACE, KEY_C, KEY_COMMA, KEY_D, KEY_DOT, KEY_E, KEY_ENTER, KEY_EQUAL,
    KEY_F, KEY_G, KEY_GRAVE, KEY_H, KEY_I, KEY_J, KEY_K, KEY_L, KEY_LEFTALT, KEY_LEFTBRACE,
    KEY_LEFTCTRL, KEY_LEFTMETA, KEY_LEFTSHIFT, KEY_M, KEY_MINUS, KEY_N, KEY_O, KEY_P, KEY_Q,
    KEY_R, KEY_RIGHTALT, KEY_RIGHTBRACE, KEY_RIGHTCTRL, KEY_RIGHTSHIFT, KEY_S, KEY_SEMICOLON,
    KEY_SLASH, KEY_SPACE, KEY_T, KEY_TAB, KEY_U, KEY_V, KEY_W, KEY_X, KEY_Y, KEY_Z,
};

verus! {

/// One thing the daemon does to its virtual keyboard.
#[derive(Debug, Clone, Copy, PartialEq, Eq, Structural)]
pub enum DeviceStep {
    /// Emit a key event: value 1 presses the key, 0 releases it.
    Emit { code: u16, value: i32 },
    /// Wait this many microseconds.
    Pause { micros: u64 },
}

/// Press a key.
pub open spec fn press(code: u16) -> DeviceStep {
    DeviceStep::Emit { code, value: 1 }
}

/// Release a key.
pub open spec fn release(code: u16) -> DeviceStep {
    DeviceStep::Emit { code, value: 0 }
}

/// Pause.
pub open spec fn pause(micros: u64) -> DeviceStep {
    DeviceStep::Pause { micros }
}

/// The steps that type a key definition from the layout tables: nothing for
/// -1; otherwise Shift and AltGr held around the key as the flags ask,
/// followed by a Space tap for a dead key.
pub open spec fn definition_steps(kdef: i32) -> Seq<DeviceStep> {
    if kdef == -1 {
        Seq::empty()
    } else {
        let code = (kdef & 0xffff) as u16;
        let shift = kdef & FLAG_UPPERCASE != 0;
        let altgr = kdef & FLAG_ALTGR != 0;
        let dead = kdef & FLAG_DEADKEY != 0;
        let lshift = KEY_LEFTSHIFT as u16;
        let ralt = KEY_RIGHTALT as u16;
        let space = KEY_SPACE as u16;
        (if shift { seq![press(lshift), pause(2000)] } else { Seq::empty() })
            + (if altgr { seq![press(ralt), pause(2000)] } else { Seq::empty() })
            + seq![press(code), pause(8000), release(code), pause(2000)]
            + (if altgr { seq![release(ralt)] } else { Seq::empty() })
            + (if shift { seq![release(lshift)] } else { Seq::empty() })
            + (if dead { seq![press(space), pause(2000), release(space)] } else { Seq::empty() })
    }
}

/// Ctrl+V.
pub open spec fn paste_step_seq() -> Seq<DeviceStep> {
    let ctrl = KEY_LEFTCTRL as u16;
    let v = KEY_V as u16;
    seq![press(ctrl), pause(8000), press(v), pause(8000), release(v), pause(2000), release(ctrl)]
}

/// A single tap of `code`.
pub open spec fn tap_step_seq(code: u16) -> Seq<DeviceStep> {
    seq![press(code), pause(8000), release(code)]
}

/// The key a modifier command taps.
pub open spec fn modifier_key(cmd: Command) -> u16 {
    match cmd {
        Command::RightAlt => KEY_RIGHTALT as u16,
        Command::LeftAlt => KEY_LEFTALT as u16,
        Command::LeftCtrl => KEY_LEFTCTRL as u16,
        Command::RightCtrl => KEY_RIGHTCTRL as u16,
        Command::LeftShift => KEY_LEFTSHIFT as u16,
        Command::RightShift => KEY_RIGHTSHIFT as u16,
        _ => KEY_LEFTMETA as u16,
    }
}

/// What the daemon does for one command in the given layout.
pub open spec fn command_step_seq(cmd: Command, layout: Seq<char>) -> Seq<DeviceStep> {
    match cmd {
        Command::Paste => paste_step_seq(),
        Command::Type(c) => definition_steps(keydef(layout, c)),
        Command::Backspace => tap_step_seq(KEY_BACKSPACE as u16),
        _ => tap_step_seq(modifier_key(cmd)),
    }
}

/// What the daemon does for a received datagram: the command's steps, or
/// nothing for an empty or unrecognised one.
pub open spec fn datagram_step_seq(buf: Seq<u8>, layout: Seq<char>) -> Seq<DeviceStep> {
    match decoded(buf) {
        Some(cmd) => command_step_seq(cmd, layout),
        None => Seq::empty(),
    }
}

/// Whether `code` is still held down after `steps`: some press of it has no
/// release after it.
pub open spec fn left_held(steps: Seq<DeviceStep>, code: u16) -> bool {
    exists|i: int|
        0 <= i < steps.len() && #[trigger] steps[i] == press(code) && forall|j: int|
            i < j < steps.len() ==> steps[j] != release(code)
}

/// Whether every key event of `steps` is for a key the virtual keyboard
/// registers.
pub open spec fn only_supported_keys(steps: Seq<DeviceStep>) -> bool {
    forall|i: int|
        0 <= i < steps.len() ==> match #[trigger] steps[i] {
            DeviceStep::Emit { code, .. } => is_supported_key(code as int),
            DeviceStep::Pause { .. } => true,
        }
}

/// The consecutive keycodes `lo..=hi`.
pub open spec fn key_range(lo: int, hi: int) -> Seq<u16> {
    Seq::new((hi - lo + 1) as nat, |i: int| (lo + i) as u16)
}

/// The keycodes the device registers, in the order they are registered.
pub open spec fn supported_key_seq() -> Seq<u16> {
    key_range(KEY_Q as int, KEY_P as int) + key_range(KEY_A as int, KEY_L as int) + key_range(
        KEY_Z as int,
        KEY_M as int,
    ) + key_range(KEY_1 as int, KEY_0 as int) + seq![
        KEY_SPACE as u16,
        KEY_MINUS as u16,
        KEY_EQUAL as u16,
        KEY_LEFTBRACE as u16,
        KEY_RIGHTBRACE as u16,
        KEY_SEMICOLON as u16,
        KEY_APOSTROPHE as u16,
        KEY_GRAVE as u16,
        KEY_BACKSLASH as u16,
        KEY_COMMA as u16,
        KEY_DOT as u16,
        KEY_SLASH as u16,
        KEY_102ND as u16,
        KEY_TAB as u16,
        KEY_ENTER as u16,
        KEY_BACKSPACE as u16,
        KEY_LEFTCTRL as u16,
        KEY_RIGHTCTRL as u16,
        KEY_LEFTALT as u16,
        KEY_RIGHTALT as u16,
        KEY_LEFTSHIFT as u16,
        KEY_RIGHTSHIFT as u16,
        KEY_LEFTMETA as u16,
    ]
}

fn push_key_range(keys: &mut Vec<u16>, lo: u16, hi: u16)
    requires
        lo <= hi < 0xffff,
    ensures
        final(keys)@ == old(keys)@ + key_range(lo as int, hi as int),
{
    let ghost start = keys@;
    let mut code: u16 = lo;
    while code <= hi
        invariant
            lo <= code <= hi + 1,
            hi < 0xffff,
            keys@ == start + key_range(lo as int, code - 1),
        decreases hi + 1 - code,
    {
        keys.push(code);
        assert(key_range(lo as int, code as int) =~= key_range(lo as int, code - 1).push(code));
        code = code + 1;
    }
}

/// The keycodes the daemon registers on its virtual keyboard: the letter
/// and digit ranges, the symbol keys, tab, enter, backspace and the
/// modifiers.
pub fn supported_keys() -> (keys: Vec<u16>)
    ensures
        keys@ == supported_key_seq(),
{
    let mut keys: Vec<u16> = Vec::new();
    // Letters (contiguous physical-key ranges of the kernel's codes)
    push_key_range(&mut keys, KEY_Q as u16, KEY_P as u16);
    push_key_range(&mut keys, KEY_A as u16, KEY_L as u16);
    push_key_range(&mut keys, KEY_Z as u16, KEY_M as u16);
    // Numbers
    push_key_range(&mut keys, KEY_1 as u16, KEY_0 as u16);
    // Special keys
    keys.push(KEY_SPACE as u16);
    keys.push(KEY_MINUS as u16);
    keys.push(KEY_EQUAL as u16);
    keys.push(KEY_LEFTBRACE as u16);
    keys.push(KEY_RIGHTBRACE as u16);
    keys.push(KEY_SEMICOLON as u16);
    keys.push(KEY_APOSTROPHE as u16);
    keys.push(KEY_GRAVE as u16);
    keys.push(KEY_BACKSLASH as u16);
    keys.push(KEY_COMMA as u16);
    keys.push(KEY_DOT as u16);
    keys.push(KEY_SLASH as u16);
    keys.push(KEY_102ND as u16);
    keys.push(KEY_TAB as u16);
    keys.push(KEY_ENTER as u16);
    keys.push(KEY_BACKSPACE as u16);
    // Modifiers
    keys.push(KEY_LEFTCTRL as u16);
    keys.push(KEY_RIGHTCTRL as u16);
    keys.push(KEY_LEFTALT as u16);
    keys.push(KEY_RIGHTALT as u16);
    keys.push(KEY_LEFTSHIFT as u16);
    keys.push(KEY_RIGHTSHIFT as u16);
    keys.push(KEY_LEFTMETA as u16);
    assert(keys@ =~= supported_key_seq());
    keys
}

/// The registered keys are exactly the supported ones.
pub proof fn lemma_supported_key_seq(code: u16)
    ensures
        supported_key_seq().contains(code) <==> is_supported_key(code as int),
{
    let s = supported_key_seq();
    if is_supported_key(code as int) {
        let w: int = if KEY_Q <= code <= KEY_P {
            code - KEY_Q
        } else if KEY_A <= code <= KEY_L {
            10 + code - KEY_A
        } else if KEY_Z <= code <= KEY_M {
            19 + code - KEY_Z
        } else if KEY_1 <= code <= KEY_0 {
            26 + code - KEY_1
        } else if code == KEY_SPACE {
            36
        } else if code == KEY_MINUS {
            37
        } else if code == KEY_EQUAL {
            38
        } else if code == KEY_LEFTBRACE {
            39
        } else if code == KEY_RIGHTBRACE {
            40
        } else if code == KEY_SEMICOLON {
            41
        } else if code == KEY_APOSTROPHE {
            42
        } else if code == KEY_GRAVE {
            43
        } else if code == KEY_BACKSLASH {
            44
        } else if code == KEY_COMMA {
            45
        } else if code == KEY_DOT {
            46
        } else if code == KEY_SLASH {
            47
        } else if code == KEY_102ND {
            48
        } else if code == KEY_TAB {
            49
        } else if code == KEY_ENTER {
            50
        } else if code == KEY_BACKSPACE {
            51
        } else if code == KEY_LEFTCTRL {
            52
        } else if code == KEY_RIGHTCTRL {
            53
        } else if code == KEY_LEFTALT {
            54
        } else if code == KEY_RIGHTALT {
            55
        } else if code == KEY_LEFTSHIFT {
            56
        } else if code == KEY_RIGHTSHIFT {
            57
        } else {
            58
        };
        assert(s[w] == code);
    }
    if s.contains(code) {
        let i = choose|i: int| 0 <= i < s.len() && s[i] == code;
        assert(is_supported_key(s[i] as int));
    }
}

fn emit(steps: &mut Vec<DeviceStep>, code: u16, value: i32)
    ensures
        final(steps)@ == old(steps)@.push(DeviceStep::Emit { code, value }),
{
    steps.push(DeviceStep::Emit { code, value });
}

fn wait(steps: &mut Vec<DeviceStep>, micros: u64)
    ensures
        final(steps)@ == old(steps)@.push(DeviceStep::Pause { micros }),
{
    steps.push(DeviceStep::Pause { micros });
}

/// The steps that type key definition `kdef`.
fn definition_steps_of(kdef: i32) -> (steps: Vec<DeviceStep>)
    ensures
        steps@ == definition_steps(kdef),
{
    let mut s: Vec<DeviceStep> = Vec::new();
    if kdef == -1 {
        return s;
    }
    let keycode = (kdef & 0xffff) as u16;
    let shift = kdef & FLAG_UPPERCASE != 0;
    let altgr = kdef & FLAG_ALTGR != 0;
    let dead = kdef & FLAG_DEADKEY != 0;
    let lshift = KEY_LEFTSHIFT as u16;
    let ralt = KEY_RIGHTALT as u16;
    let space = KEY_SPACE as u16;

    if shift {
        emit(&mut s, lshift, 1);
        wait(&mut s, 2000);
    }
    if altgr {
        emit(&mut s, ralt, 1);
        wait(&mut s, 2000);
    }

    emit(&mut s, keycode, 1);
    wait(&mut s, 8000);
    emit(&mut s, keycode, 0);
    wait(&mut s, 2000);

    if altgr {
        emit(&mut s, ralt, 0);
    }
    if shift {
        emit(&mut s, lshift, 0);
    }

    // Dead keys only produce a character when followed by a key; Space
    // resolves them to the standalone character.
    if dead {
        emit(&mut s, space, 1);
        wait(&mut s, 2000);
        emit(&mut s, space, 0);
    }
    assert(s@ =~= definition_steps(kdef));
    s
}

/// The steps that type ASCII character `c` in `layout`; nothing for a
/// character the layout does not map.
pub fn type_char_steps(c: u8, layout: &str) -> (steps: Vec<DeviceStep>)
    ensures
        steps@ == definition_steps(keydef(layout@, c)),
{
    let kdef = keymap_lookup(layout, c);
    definition_steps_of(kdef)
}

/// The steps of the paste shortcut, Ctrl+V.
pub fn paste_steps() -> (steps: Vec<DeviceStep>)
    ensures
        steps@ == paste_step_seq(),
{
    let ctrl = KEY_LEFTCTRL as u16;
    let v = KEY_V as u16;
    let mut s: Vec<DeviceStep> = Vec::new();
    emit(&mut s, ctrl, 1);
    wait(&mut s, 8000);
    emit(&mut s, v, 1);
    wait(&mut s, 8000);
    emit(&mut s, v, 0);
    wait(&mut s, 2000);
    emit(&mut s, ctrl, 0);
    assert(s@ =~= paste_step_seq());
    s
}

/// The steps of one tap of `code`.
pub fn key_steps(code: u16) -> (steps: Vec<DeviceStep>)
    ensures
        steps@ == tap_step_seq(code),
{
    let mut s: Vec<DeviceStep> = Vec::new();
    emit(&mut s, code, 1);
    wait(&mut s, 8000);
    emit(&mut s, code, 0);
    assert(s@ =~= tap_step_seq(code));
    s
}

/// The steps of one Backspace tap.
pub fn backspace_steps() -> (steps: Vec<DeviceStep>)
    ensures
        steps@ == tap_step_seq(KEY_BACKSPACE as u16),
{
    key_steps(KEY_BACKSPACE as u16)
}

/// What the daemon does for `cmd` when typing in `layout`.
pub fn command_steps(cmd: Command, layout: &str) -> (steps: Vec<DeviceStep>)
    ensures
        steps@ == command_step_seq(cmd, layout@),
{
    match cmd {
        Command::Paste => paste_steps(),
        Command::Type(c) => type_char_steps(c, layout),
        Command::Backspace => backspace_steps(),
        Command::RightAlt => key_steps(KEY_RIGHTALT as u16),
        Command::LeftAlt => key_steps(KEY_LEFTALT as u16),
        Command::LeftCtrl => key_steps(KEY_LEFTCTRL as u16),
        Command::RightCtrl => key_steps(KEY_RIGHTCTRL as u16),
        Command::LeftShift => key_steps(KEY_LEFTSHIFT as u16),
        Command::RightShift => key_steps(KEY_RIGHTSHIFT as u16),
        Command::Super => key_steps(KEY_LEFTMETA as u16),
    }
}

/// What the daemon does for one received datagram `buf`: the decoded
/// command's steps, or nothing for an empty or unrecognised datagram.
pub fn datagram_steps(buf: &[u8], layout: &str) -> (steps: Vec<DeviceStep>)
    ensures
        steps@ == datagram_step_seq(buf@, layout@),
{
    match Command::decode(buf) {
        Some(cmd) => command_steps(cmd, layout),
        None => Vec::new(),
    }
}

/// The layout the daemon types in: the configured one, or US when none is
/// set.
pub fn daemon_layout(configured: Option<String>) -> (layout: String)
    ensures
        layout@ == (match configured {
            Some(l) if l@.len() > 0 => l@,
            _ => "us"@,
        }),
{
    match configured {
        Some(l) => {
            if !l.as_str().is_empty() {
                l
            } else {
                String::from_str("us")
            }
        }
        None => String::from_str("us"),
    }
}

/// A definition's steps release every key they press.
proof fn lemma_definition_steps_release(kdef: i32, code: u16)
    ensures
        !left_held(definition_steps(kdef), code),
{
    let s = definition_steps(kdef);
    if kdef != -1 {
        let kc = (kdef & 0xffff) as u16;
        let shift = kdef & FLAG_UPPERCASE != 0;
        let altgr = kdef & FLAG_ALTGR != 0;
        let dead = kdef & FLAG_DEADKEY != 0;
        let lshift = KEY_LEFTSHIFT as u16;
        let ralt = KEY_RIGHTALT as u16;
        let space = KEY_SPACE as u16;
        if shift == true && altgr == true && dead == true {
            assert(s =~= seq![press(lshift), pause(2000), press(ralt), pause(2000), press(kc), pause(8000), release(kc), pause(2000), release(ralt), release(lshift), press(space), pause(2000), release(space)]);
            assert forall|i: int| 0 <= i < s.len() && s[i] == press(code) implies exists|j: int| i < j < s.len() && #[trigger] s[j] == release(code) by {
                if i == 0 { assert(s[9] == release(lshift)); }
                if i == 2 { assert(s[8] == release(ralt)); }
                if i == 4 { assert(s[6] == release(kc)); }
                if i == 10 { assert(s[12] == release(space)); }
            }
        }
        if shift == true && altgr == true && dead == false {
            assert(s =~= seq![press(lshift), pause(2000), press(ralt), pause(2000), press(kc), pause(8000), release(kc), pause(2000), release(ralt), release(lshift)]);
            assert forall|i: int| 0 <= i < s.len() && s[i] == press(code) implies exists|j: int| i < j < s.len() && #[trigger] s[j] == release(code) by {
                if i == 0 { assert(s[9] == release(lshift)); }
                if i == 2 { assert(s[8] == release(ralt)); }
                if i == 4 { assert(s[6] == release(kc)); }
            }
        }
        if shift == true && altgr == false && dead == true {
            assert(s =~= seq![press(lshift), pause(2000), press(kc), pause(8000), release(kc), pause(2000), release(lshift), press(space), pause(2000), release(space)]);
            assert forall|i: int| 0 <= i < s.len() && s[i] == press(code) implies exists|j: int| i < j < s.len() && #[trigger] s[j] == release(code) by {
                if i == 0 { assert(s[6] == release(lshift)); }
                if i == 2 { assert(s[4] == release(kc)); }
                if i == 7 { assert(s[9] == release(space)); }
            }
        }
        if shift == true && altgr == false && dead == false {
            assert(s =~= seq![press(lshift), pause(2000), press(kc), pause(8000), release(kc), pause(2000), release(lshift)]);
            assert forall|i: int| 0 <= i < s.len() && s[i] == press(code) implies exists|j: int| i < j < s.len() && #[trigger] s[j] == release(code) by {
                if i == 0 { assert(s[6] == release(lshift)); }
                if i == 2 { assert(s[4] == release(kc)); }
            }
        }
        if shift == false && altgr == true && dead == true {
            assert(s =~= seq![press(ralt), pause(2000), press(kc), pause(8000), release(kc), pause(2000), release(ralt), press(space), pause(2000), release(space)]);
            assert forall|i: int| 0 <= i < s.len() && s[i] == press(code) implies exists|j: int| i < j < s.len() && #[trigger] s[j] == release(code) by {
                if i == 0 { assert(s[6] == release(ralt)); }
                if i == 2 { assert(s[4] == release(kc)); }
                if i == 7 { assert(s[9] == release(space)); }
            }
        }
        if shift == false && altgr == true && dead == false {
            assert(s =~= seq![press(ralt), pause(2000), press(kc), pause(8000), release(kc), pause(2000), release(ralt)]);
            assert forall|i: int| 0 <= i < s.len() && s[i] == press(code) implies exists|j: int| i < j < s.len() && #[trigger] s[j] == release(code) by {
                if i == 0 { assert(s[6] == release(ralt)); }
                if i == 2 { assert(s[4] == release(kc)); }
            }
        }
        if shift == false && altgr == false && dead == true {
            assert(s =~= seq![press(kc), pause(8000), release(kc), pause(2000), press(space), pause(2000), release(space)]);
            assert forall|i: int| 0 <= i < s.len() && s[i] == press(code) implies exists|j: int| i < j < s.len() && #[trigger] s[j] == release(code) by {
                if i == 0 { assert(s[2] == release(kc)); }
                if i == 4 { assert(s[6] == release(space)); }
            }
        }
        if shift == false && altgr == false && dead == false {
            assert(s =~= seq![press(kc), pause(8000), release(kc), pause(2000)]);
            assert forall|i: int| 0 <= i < s.len() && s[i] == press(code) implies exists|j: int| i < j < s.len() && #[trigger] s[j] == release(code) by {
                if i == 0 { assert(s[2] == release(kc)); }
            }
        }
    }
}

/// A single tap releases the key it presses.
proof fn lemma_tap_release(key: u16, code: u16)
    ensures
        !left_held(tap_step_seq(key), code),
{
    let s = tap_step_seq(key);
    assert forall|i: int| 0 <= i < s.len() && s[i] == press(code) implies exists|j: int| i < j < s.len() && #[trigger] s[j] == release(code) by {
        if i == 0 { assert(s[2] == release(key)); }
    }
}

/// Ctrl+V releases both keys.
proof fn lemma_paste_release(code: u16)
    ensures
        !left_held(paste_step_seq(), code),
{
    let s = paste_step_seq();
    let ctrl = KEY_LEFTCTRL as u16;
    let v = KEY_V as u16;
    assert forall|i: int| 0 <= i < s.len() && s[i] == press(code) implies exists|j: int| i < j < s.len() && #[trigger] s[j] == release(code) by {
        if i == 0 { assert(s[6] == release(ctrl)); }
        if i == 2 { assert(s[4] == release(v)); }
    }
}

/// No command leaves a key held down: every key the daemon presses for a
/// command it also releases before the command is done.
pub proof fn lemma_no_key_left_held(cmd: Command, layout: Seq<char>, code: u16)
    ensures
        !left_held(command_step_seq(cmd, layout), code),
{
    match cmd {
        Command::Paste => lemma_paste_release(code),
        Command::Type(c) => lemma_definition_steps_release(keydef(layout, c), code),
        Command::Backspace => lemma_tap_release(KEY_BACKSPACE as u16, code),
        _ => lemma_tap_release(modifier_key(cmd), code),
    }
}

/// Every key event the daemon emits, for any command in any layout, is for
/// a key the virtual keyboard registered.
pub proof fn lemma_only_supported_keys(cmd: Command, layout: Seq<char>)
    ensures
        only_supported_keys(command_step_seq(cmd, layout)),
{
    let s = command_step_seq(cmd, layout);
    if let Command::Type(c) = cmd {
        lemma_tables_fit(layout, c);
        let kdef = keydef(layout, c);
        if kdef != -1 {
            let kc = (kdef & 0xffff) as u16;
            assert((kdef & 0xffff) as u16 == kdef & 0xffff) by (bit_vector);
            assert(is_supported_key(kc as int));
        }
    }
    assert forall|i: int| 0 <= i < s.len() implies match #[trigger] s[i] {
        DeviceStep::Emit { code, .. } => is_supported_key(code as int),
        DeviceStep::Pause { .. } => true,
    } by {}
}

/// The physical key each wrap key names.
pub open spec fn physical_key(k: ModifierKey) -> i32 {
    match k {
        ModifierKey::LeftAlt => KEY_LEFTALT,
        ModifierKey::RightAlt => KEY_RIGHTALT,
        ModifierKey::LeftCtrl => KEY_LEFTCTRL,
        ModifierKey::RightCtrl => KEY_RIGHTCTRL,
        ModifierKey::LeftShift => KEY_LEFTSHIFT,
        ModifierKey::RightShift => KEY_RIGHTSHIFT,
        ModifierKey::Super => KEY_LEFTMETA,
    }
}

/// Pressing a wrap key through the daemon taps exactly the physical key it
/// names, in any layout.
pub proof fn lemma_wrap_key_taps_its_key(k: ModifierKey, layout: Seq<char>)
    ensures
        command_step_seq(command_for(k), layout) == tap_step_seq(physical_key(k) as u16),
{
}

/// The key a definition's steps type is the definition's keycode, held
/// down between a press and a release with a pause between; Shift and AltGr,
/// when the definition asks for them, are pressed before that key and
/// released after it; a dead key is followed by a Space tap; and a
/// definition without a key types nothing.
pub proof fn lemma_definition_steps_shape(kdef: i32)
    ensures
        kdef == -1 ==> definition_steps(kdef).len() == 0,
        kdef != -1 ==> {
            let s = definition_steps(kdef);
            let code = (kdef & 0xffff) as u16;
            let at = (if kdef & FLAG_UPPERCASE != 0 { 2int } else { 0 }) + (if kdef & FLAG_ALTGR != 0 { 2int } else { 0 });
            &&& s[at] == press(code)
            &&& s[at + 1] is Pause
            &&& s[at + 2] == release(code)
            &&& (kdef & FLAG_UPPERCASE != 0 ==> s[0] == press(KEY_LEFTSHIFT as u16) && exists|j: int|
                at + 2 < j < s.len() && s[j] == release(KEY_LEFTSHIFT as u16))
            &&& (kdef & FLAG_ALTGR != 0 ==> s[at - 2] == press(KEY_RIGHTALT as u16) && exists|j: int|
                at + 2 < j < s.len() && s[j] == release(KEY_RIGHTALT as u16))
            &&& (kdef & FLAG_DEADKEY != 0 ==> s[s.len() - 3] == press(KEY_SPACE as u16) && s[s.len() - 1]
                == release(KEY_SPACE as u16))
            &&& (kdef & FLAG_DEADKEY == 0 ==> !s.contains(press(KEY_SPACE as u16)) || code == KEY_SPACE as u16)
            &&& forall|i: int| 0 <= i < s.len() && (#[trigger] s[i]) is Emit ==> (s[i]->code == code || s[i]->code
                == KEY_LEFTSHIFT as u16 || s[i]->code == KEY_RIGHTALT as u16 || s[i]->code == KEY_SPACE as u16)
        },
{
    if kdef != -1 {
        let s = definition_steps(kdef);
        let kc = (kdef & 0xffff) as u16;
        let shift = kdef & FLAG_UPPERCASE != 0;
        let altgr = kdef & FLAG_ALTGR != 0;
        let dead = kdef & FLAG_DEADKEY != 0;
        let lshift = KEY_LEFTSHIFT as u16;
        let ralt = KEY_RIGHTALT as u16;
        let space = KEY_SPACE as u16;
        if shift == true && altgr == true && dead == true {
            assert(s =~= seq![press(lshift), pause(2000), press(ralt), pause(2000), press(kc), pause(8000), release(kc), pause(2000), release(ralt), release(lshift), press(space), pause(2000), release(space)]);
            assert(s[9] == release(lshift));
            assert(s[8] == release(ralt));
        }
        if shift == true && altgr == true && dead == false {
            assert(s =~= seq![press(lshift), pause(2000), press(ralt), pause(2000), press(kc), pause(8000), release(kc), pause(2000), release(ralt), release(lshift)]);
            assert(s[9] == release(lshift));
            assert(s[8] == release(ralt));
        }
        if shift == true && altgr == false && dead == true {
            assert(s =~= seq![press(lshift), pause(2000), press(kc), pause(8000), release(kc), pause(2000), release(lshift), press(space), pause(2000), release(space)]);
            assert(s[6] == release(lshift));
        }
        if shift == true && altgr == false && dead == false {
            assert(s =~= seq![press(lshift), pause(2000), press(kc), pause(8000), release(kc), pause(2000), release(lshift)]);
            assert(s[6] == release(lshift));
        }
        if shift == false && altgr == true && dead == true {
            assert(s =~= seq![press(ralt), pause(2000), press(kc), pause(8000), release(kc), pause(2000), release(ralt), press(space), pause(2000), release(space)]);
            assert(s[6] == release(ralt));
        }
        if shift == false && altgr == true && dead == false {
            assert(s =~= seq![press(ralt), pause(2000), press(kc), pause(8000), release(kc), pause(2000), release(ralt)]);
            assert(s[6] == release(ralt));
        }
        if shift == false && altgr == false && dead == true {
            assert(s =~= seq![press(kc), pause(8000), release(kc), pause(2000), press(space), pause(2000), release(space)]);
            
        }
        if shift == false && altgr == false && dead == false {
            assert(s =~= seq![press(kc), pause(8000), release(kc), pause(2000)]);
            
        }
    }
}

} // verus!
