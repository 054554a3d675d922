use rhisper_core::ipc::{socket_path, Command};

#[test]
fn command_roundtrip() {
    let cases = [
        Command::Paste,
        Command::Type(b'x'),
        Command::Backspace,
        Command::RightAlt,
        Command::LeftAlt,
        Command::LeftCtrl,
        Command::RightCtrl,
        Command::LeftShift,
        Command::RightShift,
        Command::Super,
    ];
    for cmd in cases {
        let encoded = cmd.encode();
        let len = cmd.encoded_len();
        assert_eq!(Command::decode(&encoded[..len]), Some(cmd));
    }
}

#[test]
fn command_byte_values_match_original_protocol() {
    assert_eq!(Command::Paste.encode()[0], b'p');
    assert_eq!(Command::Backspace.encode()[0], b'b');
    assert_eq!(Command::RightAlt.encode()[0], b'r');
    assert_eq!(Command::LeftAlt.encode()[0], b'L');
    assert_eq!(Command::LeftCtrl.encode()[0], b'C');
    assert_eq!(Command::RightCtrl.encode()[0], b'R');
    assert_eq!(Command::LeftShift.encode()[0], b'S');
    assert_eq!(Command::RightShift.encode()[0], b'T');
    assert_eq!(Command::Super.encode()[0], b'M');
}

#[test]
fn type_carries_its_character_in_the_second_byte() {
    assert_eq!(Command::Type(b'Q').encode(), [b't', b'Q']);
    assert_eq!(Command::Type(b'Q').encoded_len(), 2);
    assert_eq!(Command::Paste.encode(), [b'p', 0]);
    assert_eq!(Command::Paste.encoded_len(), 1);
}

#[test]
fn malformed_datagrams_decode_to_nothing() {
    assert_eq!(Command::decode(&[]), None);
    assert_eq!(Command::decode(&[b'x']), None);
    assert_eq!(Command::decode(&[b't']), None);
    assert_eq!(Command::decode(&[b'p', 0]), None);
    assert_eq!(Command::decode(&[b't', b'a', b'b']), None);
    assert_eq!(Command::decode(&[b't', 0xff]), Some(Command::Type(0xff)));
}

#[test]
fn socket_lives_in_the_runtime_dir_or_under_tmp() {
    assert_eq!(socket_path(Some("/run/user/1000"), 1000), "/run/user/1000/rhisper.sock");
    assert_eq!(socket_path(Some("/run/user/1000/"), 1000), "/run/user/1000/rhisper.sock");
    assert_eq!(socket_path(Some(""), 1000), "/tmp/rhisper-1000.sock");
    assert_eq!(socket_path(None, 0), "/tmp/rhisper-0.sock");
    assert_eq!(socket_path(None, 4294967295), "/tmp/rhisper-4294967295.sock");
}
