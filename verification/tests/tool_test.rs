use rhisper_core::ipc::Command;
use rhisper_core::tool::{client_command, is_daemon, ClientError};

fn args(a: &[&str]) -> Vec<String> {
    a.iter().map(|s| s.to_string()).collect()
}

#[test]
fn client_commands() {
    assert_eq!(client_command(&args(&["rhispertool", "paste"])), Ok(Command::Paste));
    assert_eq!(client_command(&args(&["rhispertool", "super", "extra"])), Ok(Command::Super));
    assert_eq!(client_command(&args(&["rhispertool", "type", "x"])), Ok(Command::Type(b'x')));
    assert_eq!(client_command(&args(&["rhispertool"])), Err(ClientError::MissingCommand));
    assert_eq!(
        client_command(&args(&["rhispertool", "type"])),
        Err(ClientError::TypeNeedsOneCharacter)
    );
    assert_eq!(
        client_command(&args(&["rhispertool", "type", "xy"])),
        Err(ClientError::TypeNeedsOneCharacter)
    );
    assert_eq!(
        client_command(&args(&["rhispertool", "type", "é"])),
        Err(ClientError::TypeNeedsOneCharacter)
    );
    assert_eq!(
        client_command(&args(&["rhispertool", "jump"])),
        Err(ClientError::UnknownCommand("jump".to_string()))
    );
    assert_eq!(
        ClientError::UnknownCommand("jump".to_string()).message(),
        Some("Error: Unknown command 'jump'".to_string())
    );
    assert_eq!(ClientError::MissingCommand.message(), None);
}

#[test]
fn daemon_mode_selection() {
    assert!(is_daemon("rhispertoold", None));
    assert!(is_daemon("rhispertool", Some("--daemon")));
    assert!(!is_daemon("rhispertool", Some("paste")));
    assert!(!is_daemon("rhispertool", None));
}
