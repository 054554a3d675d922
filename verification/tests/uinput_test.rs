use rhisper_core::ipc::Command;
use rhisper_core::keymap::{KEY_A, KEY_BACKSPACE, KEY_EQUAL, KEY_LEFTCTRL, KEY_LEFTSHIFT, KEY_RIGHTALT, KEY_SPACE, KEY_V};
use rhisper_core::uinput::{
    command_steps, daemon_layout, datagram_steps, paste_steps, supported_keys, type_char_steps,
    DeviceStep,
};

fn press(code: i32) -> DeviceStep {
    DeviceStep::Emit { code: code as u16, value: 1 }
}

fn release(code: i32) -> DeviceStep {
    DeviceStep::Emit { code: code as u16, value: 0 }
}

fn pause(micros: u64) -> DeviceStep {
    DeviceStep::Pause { micros }
}

#[test]
fn shifted_character_holds_shift_around_the_key() {
    assert_eq!(
        type_char_steps(b'A', "us"),
        vec![
            press(KEY_LEFTSHIFT),
            pause(2000),
            press(KEY_A),
            pause(8000),
            release(KEY_A),
            pause(2000),
            release(KEY_LEFTSHIFT),
        ]
    );
}

#[test]
fn dead_key_is_followed_by_space() {
    // '`' on Danish is Shift + the dead key left of Backspace.
    assert_eq!(
        type_char_steps(b'`', "dk"),
        vec![
            press(KEY_LEFTSHIFT),
            pause(2000),
            press(KEY_EQUAL),
            pause(8000),
            release(KEY_EQUAL),
            pause(2000),
            release(KEY_LEFTSHIFT),
            press(KEY_SPACE),
            pause(2000),
            release(KEY_SPACE),
        ]
    );
}

#[test]
fn altgr_character_holds_right_alt() {
    let steps = type_char_steps(b'@', "dk");
    assert_eq!(steps[0], press(KEY_RIGHTALT));
    assert_eq!(steps.last(), Some(&release(KEY_RIGHTALT)));
}

#[test]
fn unmapped_characters_type_nothing() {
    assert!(type_char_steps(0xe6, "dk").is_empty());
    assert!(type_char_steps(127, "us").is_empty());
}

#[test]
fn paste_is_ctrl_v() {
    assert_eq!(
        paste_steps(),
        vec![
            press(KEY_LEFTCTRL),
            pause(8000),
            press(KEY_V),
            pause(8000),
            release(KEY_V),
            pause(2000),
            release(KEY_LEFTCTRL),
        ]
    );
    assert_eq!(command_steps(Command::Paste, "us"), paste_steps());
}

#[test]
fn datagrams_become_steps() {
    assert_eq!(
        datagram_steps(&[b'b'], "us"),
        vec![press(KEY_BACKSPACE), pause(8000), release(KEY_BACKSPACE)]
    );
    assert!(datagram_steps(&[], "us").is_empty());
    assert!(datagram_steps(&[b'?'], "us").is_empty());
    assert_eq!(datagram_steps(&[b't', b'a'], "us"), type_char_steps(b'a', "us"));
}

#[test]
fn no_command_leaves_a_key_down_or_uses_an_unregistered_key() {
    let keys = supported_keys();
    let mut commands = vec![
        Command::Paste,
        Command::Backspace,
        Command::RightAlt,
        Command::LeftAlt,
        Command::LeftCtrl,
        Command::RightCtrl,
        Command::LeftShift,
        Command::RightShift,
        Command::Super,
    ];
    for c in 0u8..=255 {
        commands.push(Command::Type(c));
    }
    for layout in ["us", "dk", "es"] {
        for cmd in &commands {
            let mut held: Vec<u16> = vec![];
            for step in command_steps(*cmd, layout) {
                if let DeviceStep::Emit { code, value } = step {
                    assert!(keys.contains(&code));
                    if value == 1 {
                        held.push(code);
                    } else {
                        held.retain(|k| *k != code);
                    }
                }
            }
            assert!(held.is_empty(), "{cmd:?} in {layout} leaves {held:?} down");
        }
    }
}

#[test]
fn daemon_layout_defaults_to_us() {
    assert_eq!(daemon_layout(None), "us");
    assert_eq!(daemon_layout(Some(String::new())), "us");
    assert_eq!(daemon_layout(Some("dk".to_string())), "dk");
}

#[test]
fn registered_keys() {
    let keys = supported_keys();
    assert_eq!(keys.len(), 59);
    assert!(keys.contains(&(KEY_A as u16)));
    assert!(keys.contains(&86));
}
