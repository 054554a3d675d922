use rhisper_core::config::{
    config_dir, config_path, parse, trim_value, Config, PasteMode, Provider, default_rhisperrc,
};
use rhisper_core::placeholder::Setting as PlaceholderSetting;

fn num(s: &str) -> f64 {
    s.parse().expect("numeric settings hold number text")
}

#[test]
fn defaults_match_embedded_template() {
    let from_template = parse(&default_rhisperrc());
    let defaults = Config::default();
    assert_eq!(
        num(&from_template.long_recording_threshold),
        num(&defaults.long_recording_threshold)
    );
    assert_eq!(from_template.paste_mode, defaults.paste_mode);
    assert_eq!(from_template.keyboard_layout, defaults.keyboard_layout);
    assert_eq!(num(&from_template.silence_threshold), num(&defaults.silence_threshold));
    assert_eq!(
        num(&from_template.min_speech_seconds),
        num(&defaults.min_speech_seconds)
    );
    assert_eq!(from_template.placeholders, defaults.placeholders);
    assert_eq!(
        from_template.placeholder_recording,
        defaults.placeholder_recording
    );
}

#[test]
fn embedded_template_spells_out_every_default() {
    let t = parse(&default_rhisperrc());
    let d = Config::default();
    assert_eq!(t.long_recording_threshold, d.long_recording_threshold);
    assert_eq!(t.transcription_prompt, d.transcription_prompt);
    assert_eq!(t.language, d.language);
    assert_eq!(t.paste_mode, d.paste_mode);
    assert_eq!(t.non_ascii_initial_delay, d.non_ascii_initial_delay);
    assert_eq!(t.non_ascii_default_delay, d.non_ascii_default_delay);
    assert_eq!(t.keyboard_layout, d.keyboard_layout);
    assert_eq!(t.silence_threshold, d.silence_threshold);
    assert_eq!(t.min_speech_seconds, d.min_speech_seconds);
    assert_eq!(t.placeholders, d.placeholders);
    assert_eq!(t.placeholder_recording, d.placeholder_recording);
    assert_eq!(t.placeholder_transcribing, d.placeholder_transcribing);
    assert_eq!(t.placeholder_silent, d.placeholder_silent);
    assert_eq!(t.provider, d.provider);
    assert_eq!(t.api_base_url, d.api_base_url);
    assert_eq!(t.model, d.model);
    assert_eq!(t.audio_device, d.audio_device);
    assert_eq!(t.audio_device_fallback, d.audio_device_fallback);
}

#[test]
fn parses_all_known_keys() {
    let contents = r#"
# a comment
long-recording-threshold : 42
transcription-prompt     : "hello world"
language                 : "de"
paste-mode               : "clipboard-restore"
non-ascii-initial-delay : 0.5
non-ascii-default-delay : 0.1
keyboard-layout : dk
silence-threshold  : -30
min-speech-seconds : 0.5
placeholders : notify
placeholder-recording : "MIC"
placeholder-transcribing : "..."
placeholder-silent : "quiet"
provider : openai
api-base-url : "https://example.com/v1"
model : "whisper-1"
"#;
    let c = parse(contents);
    assert_eq!(num(&c.long_recording_threshold), 42.0);
    assert_eq!(c.transcription_prompt, "hello world");
    assert_eq!(c.language, "de");
    assert_eq!(c.paste_mode, PasteMode::ClipboardRestore);
    assert_eq!(num(&c.non_ascii_initial_delay), 0.5);
    assert_eq!(num(&c.non_ascii_default_delay), 0.1);
    assert_eq!(c.keyboard_layout, "dk");
    assert_eq!(num(&c.silence_threshold), -30.0);
    assert_eq!(num(&c.min_speech_seconds), 0.5);
    assert_eq!(c.placeholders, PlaceholderSetting::Notify);
    assert_eq!(c.placeholder_recording, "MIC");
    assert_eq!(c.placeholder_transcribing, "...");
    assert_eq!(c.placeholder_silent, "quiet");
    assert_eq!(c.provider, Provider::OpenAi);
    assert_eq!(c.api_base_url, "https://example.com/v1");
    assert_eq!(c.model, "whisper-1");
}

#[test]
fn unknown_keys_and_malformed_lines_are_ignored() {
    let contents = "not-a-real-key: 5\nno-colon-here\nkeyboard-layout: dk\n";
    let c = parse(contents);
    assert_eq!(c.keyboard_layout, "dk");
}

#[test]
fn blank_and_comment_lines_are_skipped() {
    let contents = "\n  # comment\nkeyboard-layout: dk\n";
    let c = parse(contents);
    assert_eq!(c.keyboard_layout, "dk");
}

#[test]
fn malformed_numbers_keep_the_previous_value() {
    let c = parse("silence-threshold : loud\nmin-speech-seconds: 1e-1\nlong-recording-threshold: .5.\n");
    assert_eq!(c.silence_threshold, "-50");
    assert_eq!(c.min_speech_seconds, "1e-1");
    assert_eq!(num(&c.min_speech_seconds), 0.1);
    assert_eq!(c.long_recording_threshold, "1000");
}

#[test]
fn every_accepted_number_is_one_f64_reads() {
    for text in [
        "0", "-1", "+2.5", ".5", "5.", "1e3", "1E-3", "-.5e+2", "inf", "-Infinity", "NaN", "007",
    ] {
        let c = parse(&format!("silence-threshold: {text}"));
        assert_eq!(c.silence_threshold, text);
        assert!(c.silence_threshold.parse::<f64>().is_ok(), "{text}");
    }
    for text in ["", ".", "e5", "1e", "1e+", "--1", "1.2.3", "0x10", "in f", "infinit"] {
        let c = parse(&format!("silence-threshold: {text}"));
        assert_eq!(c.silence_threshold, "-50", "{text}");
        assert!(text.trim().parse::<f64>().is_err(), "{text}");
    }
}

#[test]
fn enumerated_settings_fall_back_to_their_defaults() {
    let c = parse("paste-mode: typing\nprovider: azure\nplaceholders: loud\naudio-device-fallback: maybe\n");
    assert_eq!(c.paste_mode, PasteMode::Type);
    assert_eq!(c.provider, Provider::Groq);
    assert_eq!(c.placeholders, PlaceholderSetting::Auto);
    assert!(c.audio_device_fallback);
    let c = parse("audio-device-fallback: no\naudio-device: \"alsa_input.usb\"\nprovider: custom\n");
    assert!(!c.audio_device_fallback);
    assert_eq!(c.audio_device, "alsa_input.usb");
    assert_eq!(c.provider, Provider::Custom);
}

#[test]
fn later_lines_win_and_values_keep_their_colons() {
    let c = parse("model: a\r\nmodel: b\r\napi-base-url: http://host:8080/v1\n");
    assert_eq!(c.model, "b");
    assert_eq!(c.api_base_url, "http://host:8080/v1");
}

#[test]
fn values_lose_one_layer_of_quotes() {
    assert_eq!(trim_value("  \"hello\"  "), "hello");
    assert_eq!(trim_value("\"\"x\"\""), "\"x\"");
    assert_eq!(trim_value("\""), "");
    assert_eq!(trim_value(" plain "), "plain");
    assert_eq!(trim_value("\"open"), "open");
}

#[test]
fn config_file_location() {
    assert_eq!(config_dir(Some("/x/cfg"), Some("/home/u")), "/x/cfg/rhisper");
    assert_eq!(config_dir(Some(""), Some("/home/u")), "/home/u/.config/rhisper");
    assert_eq!(config_dir(None, Some("/home/u")), "/home/u/.config/rhisper");
    assert_eq!(config_dir(None, None), "/.config/rhisper");
    assert_eq!(config_path(Some("/x/cfg/"), None), "/x/cfg/rhisper/rhisperrc");
    assert_eq!(config_path(None, Some("/home/u")), "/home/u/.config/rhisper/rhisperrc");
}

#[test]
fn default_file_reads_as_written() {
    let text = default_rhisperrc();
    assert!(text.starts_with("# rhisper configuration"));
    assert!(text.contains("\nprovider : groq\n"));
    assert!(text.contains("\nplaceholder-recording : \"(recording...)\"\n"));
    assert!(text.ends_with("placeholder-silent : \"(no sound detected)\"\n"));
}
