use rhisper_core::setup::{api_key_line, env_entries, env_file_has_groq_key};

#[test]
fn env_file_entries() {
    let contents = "# keys\nGROQ_API_KEY=abc \n\n  OPENAI_API_KEY = x=y\nnot an entry\n=empty\n";
    let e = env_entries(contents);
    assert_eq!(
        e,
        vec![
            ("GROQ_API_KEY".to_string(), "abc".to_string()),
            ("OPENAI_API_KEY".to_string(), "x=y".to_string()),
            ("".to_string(), "empty".to_string()),
        ]
    );
    assert!(env_entries("").is_empty());
}

#[test]
fn groq_key_detection() {
    assert!(env_file_has_groq_key("A=1\n  GROQ_API_KEY=x\n"));
    assert!(!env_file_has_groq_key("A=1\n# GROQ_API_KEY=x\n"));
    assert!(!env_file_has_groq_key(""));
    assert!(env_file_has_groq_key("GROQ_API_KEYS=1"));
}

#[test]
fn entered_keys_are_stored_trimmed() {
    assert_eq!(api_key_line("  gsk_123 \n"), Some("GROQ_API_KEY=gsk_123".to_string()));
    assert_eq!(api_key_line("\n"), None);
}
