//! The rhisperrc `key : value` format, its defaults, and where the file
//! lives.
//!
//! The format is deliberately flat: one `key : value` per line, `#`
//! comments, unknown keys and malformed lines ignored. Numeric settings are
//! kept as the text of the number, checked against the grammar
//! `f64::from_str` accepts, so the caller converts them without a failure
//! case.
use vstd::prelude::*;

use crate::literal::{float_literal, is_float_literal};
use crate::placeholder::Setting;
use crate::text::{
    chars_of, find_char, lemma_find_char_is, lemma_trim_end_is, lemma_trim_start_is, is_white, push_range, find_char_in, lines, split_lines, str_eq, string_of, trim, trim_bounds,
    trim_start, trim_start_index, trim_string,
};

verus! {

/// How transcribed text reaches the cursor.
#[derive(Debug, Clone, Copy, PartialEq, Eq, Structural)]
pub enum PasteMode {
    Type,
    Clipboard,
    ClipboardRestore,
}

/// The transcription service.
#[derive(Debug, Clone, Copy, PartialEq, Eq, Structural)]
pub enum Provider {
    Groq,
    OpenAi,
    Custom,
}

/// The settings read from rhisperrc.
#[derive(Debug, Clone)]
pub struct Config {
    /// Seconds above which a recording counts as long (the text of a number `f64::from_str` accepts).
    pub long_recording_threshold: String,
    /// Context hint passed to the transcription model.
    pub transcription_prompt: String,
    /// ISO-639-1 code forcing the transcription language; empty lets the model detect it.
    pub language: String,
    /// How the transcript reaches the cursor.
    pub paste_mode: PasteMode,
    /// Seconds to wait before pasting the first clipboard chunk (number text).
    pub non_ascii_initial_delay: String,
    /// Seconds to wait before each later clipboard chunk (number text).
    pub non_ascii_default_delay: String,
    /// Keyboard layout used when typing ASCII characters.
    pub keyboard_layout: String,
    /// Volume in dB below which audio counts as quiet (number text).
    pub silence_threshold: String,
    /// Shortest stretch of sound that counts as speech, in seconds (number text).
    pub min_speech_seconds: String,
    /// How the progress status is shown.
    pub placeholders: Setting,
    /// Status shown while recording.
    pub placeholder_recording: String,
    /// Status shown while transcribing.
    pub placeholder_transcribing: String,
    /// Status shown when the recording held no speech.
    pub placeholder_silent: String,
    /// The transcription service.
    pub provider: Provider,
    /// Base URL for the custom provider.
    pub api_base_url: String,
    /// Model overriding the provider default; empty means the default.
    pub model: String,
    /// Explicit capture source; empty follows the system default.
    pub audio_device: String,
    /// Whether a missing `audio_device` falls back to the system default.
    pub audio_device_fallback: bool,
}

/// A [`Config`] with its text as character sequences.
pub struct ConfigView {
    pub long_recording_threshold: Seq<char>,
    pub transcription_prompt: Seq<char>,
    pub language: Seq<char>,
    pub paste_mode: PasteMode,
    pub non_ascii_initial_delay: Seq<char>,
    pub non_ascii_default_delay: Seq<char>,
    pub keyboard_layout: Seq<char>,
    pub silence_threshold: Seq<char>,
    pub min_speech_seconds: Seq<char>,
    pub placeholders: Setting,
    pub placeholder_recording: Seq<char>,
    pub placeholder_transcribing: Seq<char>,
    pub placeholder_silent: Seq<char>,
    pub provider: Provider,
    pub api_base_url: Seq<char>,
    pub model: Seq<char>,
    pub audio_device: Seq<char>,
    pub audio_device_fallback: bool,
}

impl View for Config {
    type V = ConfigView;

    open spec fn view(&self) -> ConfigView {
        ConfigView {
            long_recording_threshold: self.long_recording_threshold@,
            transcription_prompt: self.transcription_prompt@,
            language: self.language@,
            paste_mode: self.paste_mode,
            non_ascii_initial_delay: self.non_ascii_initial_delay@,
            non_ascii_default_delay: self.non_ascii_default_delay@,
            keyboard_layout: self.keyboard_layout@,
            silence_threshold: self.silence_threshold@,
            min_speech_seconds: self.min_speech_seconds@,
            placeholders: self.placeholders,
            placeholder_recording: self.placeholder_recording@,
            placeholder_transcribing: self.placeholder_transcribing@,
            placeholder_silent: self.placeholder_silent@,
            provider: self.provider,
            api_base_url: self.api_base_url@,
            model: self.model@,
            audio_device: self.audio_device@,
            audio_device_fallback: self.audio_device_fallback,
        }
    }
}

/// The defaults, which the shipped rhisperrc also spells out.
pub open spec fn default_view() -> ConfigView {
    ConfigView {
        long_recording_threshold: "1000"@,
        transcription_prompt: ""@,
        language: ""@,
        paste_mode: PasteMode::Type,
        non_ascii_initial_delay: "0.15"@,
        non_ascii_default_delay: "0.025"@,
        keyboard_layout: "us"@,
        silence_threshold: "-50"@,
        min_speech_seconds: "0.3"@,
        placeholders: Setting::Auto,
        placeholder_recording: "(recording...)"@,
        placeholder_transcribing: "(transcribing...)"@,
        placeholder_silent: "(no sound detected)"@,
        provider: Provider::Groq,
        api_base_url: ""@,
        model: ""@,
        audio_device: ""@,
        audio_device_fallback: true,
    }
}

impl Default for Config {
    fn default() -> (c: Config)
        ensures
            c@ == default_view(),
    {
        Config {
            long_recording_threshold: String::from_str("1000"),
            transcription_prompt: String::from_str(""),
            language: String::from_str(""),
            paste_mode: PasteMode::Type,
            non_ascii_initial_delay: String::from_str("0.15"),
            non_ascii_default_delay: String::from_str("0.025"),
            keyboard_layout: String::from_str("us"),
            silence_threshold: String::from_str("-50"),
            min_speech_seconds: String::from_str("0.3"),
            placeholders: Setting::Auto,
            placeholder_recording: String::from_str("(recording...)"),
            placeholder_transcribing: String::from_str("(transcribing...)"),
            placeholder_silent: String::from_str("(no sound detected)"),
            provider: Provider::Groq,
            api_base_url: String::from_str(""),
            model: String::from_str(""),
            audio_device: String::from_str(""),
            audio_device_fallback: true,
        }
    }
}

/// `value` with surrounding white space removed when that is a number
/// `f64::from_str` accepts; otherwise `current` stays.
pub open spec fn number_or(value: Seq<char>, current: Seq<char>) -> Seq<char> {
    if is_float_literal(trim(value)) {
        trim(value)
    } else {
        current
    }
}

/// White space trimmed, then one leading and one trailing double quote
/// removed.
pub open spec fn trimmed_value(raw: Seq<char>) -> Seq<char> {
    let v = trim(raw);
    let v1 = if v.len() > 0 && v[0] == '"' {
        v.drop_first()
    } else {
        v
    };
    if v1.len() > 0 && v1.last() == '"' {
        v1.drop_last()
    } else {
        v1
    }
}

/// `c` with the setting `key` set from `value`; an unknown key changes
/// nothing, an unknown value of an enumerated setting selects its default,
/// and a numeric setting keeps its value unless `value` is a number.
pub open spec fn with_setting(c: ConfigView, key: Seq<char>, value: Seq<char>) -> ConfigView {
    if key == "long-recording-threshold"@ {
        ConfigView { long_recording_threshold: number_or(value, c.long_recording_threshold), ..c }
    } else if key == "transcription-prompt"@ {
        ConfigView { transcription_prompt: value, ..c }
    } else if key == "language"@ {
        ConfigView { language: value, ..c }
    } else if key == "paste-mode"@ {
        ConfigView { paste_mode: if value == "clipboard"@ { PasteMode::Clipboard } else if value == "clipboard-restore"@ { PasteMode::ClipboardRestore } else { PasteMode::Type }, ..c }
    } else if key == "non-ascii-initial-delay"@ {
        ConfigView { non_ascii_initial_delay: number_or(value, c.non_ascii_initial_delay), ..c }
    } else if key == "non-ascii-default-delay"@ {
        ConfigView { non_ascii_default_delay: number_or(value, c.non_ascii_default_delay), ..c }
    } else if key == "keyboard-layout"@ {
        ConfigView { keyboard_layout: value, ..c }
    } else if key == "silence-threshold"@ {
        ConfigView { silence_threshold: number_or(value, c.silence_threshold), ..c }
    } else if key == "min-speech-seconds"@ {
        ConfigView { min_speech_seconds: number_or(value, c.min_speech_seconds), ..c }
    } else if key == "placeholders"@ {
        ConfigView { placeholders: if value == "inline"@ { Setting::Inline } else if value == "notify"@ { Setting::Notify } else if value == "off"@ { Setting::Off } else { Setting::Auto }, ..c }
    } else if key == "placeholder-recording"@ {
        ConfigView { placeholder_recording: value, ..c }
    } else if key == "placeholder-transcribing"@ {
        ConfigView { placeholder_transcribing: value, ..c }
    } else if key == "placeholder-silent"@ {
        ConfigView { placeholder_silent: value, ..c }
    } else if key == "provider"@ {
        ConfigView { provider: if value == "openai"@ { Provider::OpenAi } else if value == "custom"@ { Provider::Custom } else { Provider::Groq }, ..c }
    } else if key == "api-base-url"@ {
        ConfigView { api_base_url: value, ..c }
    } else if key == "model"@ {
        ConfigView { model: value, ..c }
    } else if key == "audio-device"@ {
        ConfigView { audio_device: value, ..c }
    } else if key == "audio-device-fallback"@ {
        ConfigView { audio_device_fallback: value != "no"@, ..c }
    } else {
        c
    }
}

/// `c` after one line of rhisperrc: blank lines, `#` comments and lines
/// without a colon change nothing; otherwise the text before the first
/// colon, trimmed, names the setting and the rest is its value.
pub open spec fn with_line(c: ConfigView, line: Seq<char>) -> ConfigView {
    let t = trim_start(line);
    if t.len() == 0 || t[0] == '#' {
        c
    } else {
        let i = find_char(line, ':');
        if i >= line.len() {
            c
        } else {
            with_setting(c, trim(line.take(i)), trimmed_value(line.skip(i + 1)))
        }
    }
}

/// `c` after the lines `ls`, in order.
pub open spec fn with_lines(c: ConfigView, ls: Seq<Seq<char>>) -> ConfigView
    decreases ls.len(),
{
    if ls.len() == 0 {
        c
    } else {
        with_line(with_lines(c, ls.drop_last()), ls.last())
    }
}

/// The configuration a rhisperrc holds: the defaults, then each line.
pub open spec fn parsed(contents: Seq<char>) -> ConfigView {
    with_lines(default_view(), lines(contents))
}

/// Trim white space, then one layer of surrounding double quotes.
pub fn trim_value(raw: &str) -> (r: String)
    ensures
        r@ == trimmed_value(raw@),
{
    let v = chars_of(raw);
    let (a0, b0) = trim_bounds(&v, 0, v.len());
    proof {
        assert(v@.subrange(0, v@.len() as int) =~= v@);
    }
    let ghost t = v@.subrange(a0 as int, b0 as int);
    let mut a = a0;
    let mut b = b0;
    if a < b && v[a] == '"' {
        a = a + 1;
        proof {
            assert(t[0] == v@[a0 as int]);
            assert(t.drop_first() =~= v@.subrange(a as int, b as int));
        }
    } else {
        proof {
            if a < b {
                assert(t[0] == v@[a0 as int]);
            }
        }
    }
    let ghost t1 = v@.subrange(a as int, b as int);
    if a < b && v[b - 1] == '"' {
        b = b - 1;
        proof {
            assert(t1.last() == v@[b as int]);
            assert(t1.drop_last() =~= v@.subrange(a as int, b as int));
        }
    } else {
        proof {
            if a < b {
                assert(t1.last() == v@[b - 1]);
            }
        }
    }
    string_of(&v, a, b)
}

fn apply_setting(cfg: &mut Config, key: &str, value: String)
    ensures
        final(cfg)@ == with_setting(old(cfg)@, key@, value@),
{
    if str_eq(key, "long-recording-threshold") {
        let t = trim_string(value.as_str());
        let tv = chars_of(t.as_str());
        if float_literal(&tv) {
            cfg.long_recording_threshold = t;
        }
    } else if str_eq(key, "transcription-prompt") {
        cfg.transcription_prompt = value;
    } else if str_eq(key, "language") {
        cfg.language = value;
    } else if str_eq(key, "paste-mode") {
        cfg.paste_mode = if str_eq(value.as_str(), "clipboard") {
            PasteMode::Clipboard
        } else if str_eq(value.as_str(), "clipboard-restore") {
            PasteMode::ClipboardRestore
        } else {
            PasteMode::Type
        };
    } else if str_eq(key, "non-ascii-initial-delay") {
        let t = trim_string(value.as_str());
        let tv = chars_of(t.as_str());
        if float_literal(&tv) {
            cfg.non_ascii_initial_delay = t;
        }
    } else if str_eq(key, "non-ascii-default-delay") {
        let t = trim_string(value.as_str());
        let tv = chars_of(t.as_str());
        if float_literal(&tv) {
            cfg.non_ascii_default_delay = t;
        }
    } else if str_eq(key, "keyboard-layout") {
        cfg.keyboard_layout = value;
    } else if str_eq(key, "silence-threshold") {
        let t = trim_string(value.as_str());
        let tv = chars_of(t.as_str());
        if float_literal(&tv) {
            cfg.silence_threshold = t;
        }
    } else if str_eq(key, "min-speech-seconds") {
        let t = trim_string(value.as_str());
        let tv = chars_of(t.as_str());
        if float_literal(&tv) {
            cfg.min_speech_seconds = t;
        }
    } else if str_eq(key, "placeholders") {
        cfg.placeholders = if str_eq(value.as_str(), "inline") {
            Setting::Inline
        } else if str_eq(value.as_str(), "notify") {
            Setting::Notify
        } else if str_eq(value.as_str(), "off") {
            Setting::Off
        } else {
            Setting::Auto
        };
    } else if str_eq(key, "placeholder-recording") {
        cfg.placeholder_recording = value;
    } else if str_eq(key, "placeholder-transcribing") {
        cfg.placeholder_transcribing = value;
    } else if str_eq(key, "placeholder-silent") {
        cfg.placeholder_silent = value;
    } else if str_eq(key, "provider") {
        cfg.provider = if str_eq(value.as_str(), "openai") {
            Provider::OpenAi
        } else if str_eq(value.as_str(), "custom") {
            Provider::Custom
        } else {
            Provider::Groq
        };
    } else if str_eq(key, "api-base-url") {
        cfg.api_base_url = value;
    } else if str_eq(key, "model") {
        cfg.model = value;
    } else if str_eq(key, "audio-device") {
        cfg.audio_device = value;
    } else if str_eq(key, "audio-device-fallback") {
        cfg.audio_device_fallback = !str_eq(value.as_str(), "no");
    }
}

fn apply_line(cfg: &mut Config, line: &str)
    ensures
        final(cfg)@ == with_line(old(cfg)@, line@),
{
    let v = chars_of(line);
    let n = v.len();
    let a = trim_start_index(&v, 0, n);
    proof {
        assert(v@.subrange(0, n as int) =~= v@);
        if a < n {
            assert(v@.subrange(a as int, n as int)[0] == v@[a as int]);
        }
    }
    if a == n || v[a] == '#' {
        return;
    }
    let i = find_char_in(&v, 0, n, ':');
    if i == n {
        return;
    }
    let raw_key = string_of(&v, 0, i);
    let key = trim_string(raw_key.as_str());
    let raw_value = string_of(&v, i + 1, n);
    let value = trim_value(raw_value.as_str());
    proof {
        assert(v@.subrange(0, i as int) =~= v@.take(i as int));
        assert(v@.subrange(i + 1, n as int) =~= v@.skip(i + 1));
    }
    apply_setting(cfg, key.as_str(), value);
}

/// Parses the rhisperrc `key : value` format into a [`Config`], starting
/// from the defaults for any key that is absent, malformed, or unknown;
/// unknown keys are silently ignored.
pub fn parse(contents: &str) -> (c: Config)
    ensures
        c@ == parsed(contents@),
{
    let ls = split_lines(contents);
    let mut cfg = Config::default();
    let mut i: usize = 0;
    proof {
        assert(lines(contents@).take(0) =~= Seq::<Seq<char>>::empty());
    }
    while i < ls.len()
        invariant
            i <= ls@.len(),
            ls@.len() == lines(contents@).len(),
            forall|k: int| 0 <= k < ls@.len() ==> #[trigger] ls@[k]@ == lines(contents@)[k],
            cfg@ == with_lines(default_view(), lines(contents@).take(i as int)),
        decreases ls.len() - i,
    {
        apply_line(&mut cfg, ls[i].as_str());
        proof {
            let l = lines(contents@);
            assert(l.take(i + 1).drop_last() =~= l.take(i as int));
            assert(l.take(i + 1).last() == ls@[i as int]@);
        }
        i = i + 1;
    }
    proof {
        assert(lines(contents@).take(ls@.len() as int) =~= lines(contents@));
    }
    cfg
}

/// One line of the default rhisperrc: a comment or blank line (kind 0,
/// its text in the first field), or a setting written plain (kind 1) or in
/// double quotes (kind 2).
pub open spec fn rendered(e: (&'static str, &'static str, u8)) -> Seq<char> {
    if e.2 == 0 {
        e.0@
    } else if e.2 == 1 {
        setting_line(e.0@, e.1@)
    } else {
        setting_line(e.0@, quoted(e.1@))
    }
}

/// The line `key : value`.
pub open spec fn setting_line(key: Seq<char>, value: Seq<char>) -> Seq<char> {
    key + seq![' ', ':', ' '] + value
}

/// `s` in double quotes.
pub open spec fn quoted(s: Seq<char>) -> Seq<char> {
    seq!['"'] + s + seq!['"']
}

/// The lines of the default rhisperrc: every setting at its default, with a
/// line of explanation each.
pub open spec fn default_entries() -> Seq<(&'static str, &'static str, u8)> {
    seq![
        ("# rhisper configuration - `key : value` per line, `#` starts a comment.", "", 0u8),
        ("", "", 0u8),
        ("# Transcription provider: groq (reads GROQ_API_KEY), openai (reads", "", 0u8),
        ("# OPENAI_API_KEY) or custom (reads RHISPER_API_KEY, sends to api-base-url).", "", 0u8),
        ("provider", "groq", 1u8),
        ("# Base URL of an OpenAI-compatible endpoint, for provider custom.", "", 0u8),
        ("api-base-url", "", 2u8),
        ("# Overrides the provider's default model; empty means the default.", "", 0u8),
        ("model", "", 2u8),
        ("", "", 0u8),
        ("# Recordings longer than this many seconds use the larger Groq model.", "", 0u8),
        ("long-recording-threshold", "1000", 1u8),
        ("# Context hint passed to Whisper (common words, names, vocabulary).", "", 0u8),
        ("transcription-prompt", "", 2u8),
        ("# ISO-639-1 code forcing the language; empty lets Whisper detect it.", "", 0u8),
        ("language", "", 2u8),
        ("", "", 0u8),
        ("# type, clipboard or clipboard-restore.", "", 0u8),
        ("paste-mode", "type", 1u8),
        ("# Seconds to wait before pasting the first non-ASCII clipboard chunk.", "", 0u8),
        ("non-ascii-initial-delay", "0.15", 1u8),
        ("# Seconds to wait before each later non-ASCII clipboard chunk.", "", 0u8),
        ("non-ascii-default-delay", "0.025", 1u8),
        ("# Layout used when typing ASCII characters (Linux): us, dk or es.", "", 0u8),
        ("keyboard-layout", "us", 1u8),
        ("", "", 0u8),
        ("# Volume in dB below which audio counts as quiet.", "", 0u8),
        ("silence-threshold", "-50", 1u8),
        ("# Shortest stretch of sound, in seconds, that counts as speech.", "", 0u8),
        ("min-speech-seconds", "0.3", 1u8),
        ("", "", 0u8),
        ("# Capture source; empty follows the system default (rhisper --list-devices).", "", 0u8),
        ("audio-device", "", 2u8),
        ("# When audio-device is missing: yes records from the default, no refuses.", "", 0u8),
        ("audio-device-fallback", "yes", 1u8),
        ("", "", 0u8),
        ("# How the status is shown: auto, inline, notify or off.", "", 0u8),
        ("placeholders", "auto", 1u8),
        ("# The status texts; placeholder-recording may name the microphone: ${device}", "", 0u8),
        ("placeholder-recording", "(recording...)", 2u8),
        ("placeholder-transcribing", "(transcribing...)", 2u8),
        ("placeholder-silent", "(no sound detected)", 2u8)
    ]
}

/// Lines, each ended by a line break.
pub open spec fn joined_lines(ls: Seq<Seq<char>>) -> Seq<char>
    decreases ls.len(),
{
    if ls.len() == 0 {
        Seq::empty()
    } else {
        ls[0] + seq!['\n'] + joined_lines(ls.drop_first())
    }
}

/// The text of the default rhisperrc.
pub open spec fn default_text() -> Seq<char> {
    joined_lines(default_entries().map_values(|e: (&'static str, &'static str, u8)| rendered(e)))
}

fn push_str(out: &mut String, s: &str)
    ensures
        final(out)@ == old(out)@ + s@,
{
    let v = chars_of(s);
    push_range(out, &v, 0, v.len());
    proof {
        assert(v@.subrange(0, v@.len() as int) =~= v@);
    }
}

/// The rhisperrc written on first run: every setting at its default, with
/// a line of explanation each.
pub fn default_rhisperrc() -> (r: String)
    ensures
        r@ == default_text(),
{
    let entries = vec![
        ("# rhisper configuration - `key : value` per line, `#` starts a comment.", "", 0u8),
        ("", "", 0u8),
        ("# Transcription provider: groq (reads GROQ_API_KEY), openai (reads", "", 0u8),
        ("# OPENAI_API_KEY) or custom (reads RHISPER_API_KEY, sends to api-base-url).", "", 0u8),
        ("provider", "groq", 1u8),
        ("# Base URL of an OpenAI-compatible endpoint, for provider custom.", "", 0u8),
        ("api-base-url", "", 2u8),
        ("# Overrides the provider's default model; empty means the default.", "", 0u8),
        ("model", "", 2u8),
        ("", "", 0u8),
        ("# Recordings longer than this many seconds use the larger Groq model.", "", 0u8),
        ("long-recording-threshold", "1000", 1u8),
        ("# Context hint passed to Whisper (common words, names, vocabulary).", "", 0u8),
        ("transcription-prompt", "", 2u8),
        ("# ISO-639-1 code forcing the language; empty lets Whisper detect it.", "", 0u8),
        ("language", "", 2u8),
        ("", "", 0u8),
        ("# type, clipboard or clipboard-restore.", "", 0u8),
        ("paste-mode", "type", 1u8),
        ("# Seconds to wait before pasting the first non-ASCII clipboard chunk.", "", 0u8),
        ("non-ascii-initial-delay", "0.15", 1u8),
        ("# Seconds to wait before each later non-ASCII clipboard chunk.", "", 0u8),
        ("non-ascii-default-delay", "0.025", 1u8),
        ("# Layout used when typing ASCII characters (Linux): us, dk or es.", "", 0u8),
        ("keyboard-layout", "us", 1u8),
        ("", "", 0u8),
        ("# Volume in dB below which audio counts as quiet.", "", 0u8),
        ("silence-threshold", "-50", 1u8),
        ("# Shortest stretch of sound, in seconds, that counts as speech.", "", 0u8),
        ("min-speech-seconds", "0.3", 1u8),
        ("", "", 0u8),
        ("# Capture source; empty follows the system default (rhisper --list-devices).", "", 0u8),
        ("audio-device", "", 2u8),
        ("# When audio-device is missing: yes records from the default, no refuses.", "", 0u8),
        ("audio-device-fallback", "yes", 1u8),
        ("", "", 0u8),
        ("# How the status is shown: auto, inline, notify or off.", "", 0u8),
        ("placeholders", "auto", 1u8),
        ("# The status texts; placeholder-recording may name the microphone: ${device}", "", 0u8),
        ("placeholder-recording", "(recording...)", 2u8),
        ("placeholder-transcribing", "(transcribing...)", 2u8),
        ("placeholder-silent", "(no sound detected)", 2u8)
    ];
    let ghost ls = default_entries().map_values(|e: (&'static str, &'static str, u8)| rendered(e));
    assert(entries@ =~= default_entries());
    let mut out = String::new();
    let mut i: usize = 0;
    proof {
        assert(ls.skip(0) =~= ls);
    }
    while i < entries.len()
        invariant
            i <= entries@.len(),
            entries@ == default_entries(),
            ls == default_entries().map_values(|e: (&'static str, &'static str, u8)| rendered(e)),
            out@ + joined_lines(ls.skip(i as int)) == default_text(),
        decreases entries.len() - i,
    {
        let (a, b, kind) = entries[i];
        let ghost before = out@;
        push_str(&mut out, a);
        if kind != 0 {
            push_str(&mut out, " : ");
            if kind == 2 {
                out.push('"');
            }
            push_str(&mut out, b);
            if kind == 2 {
                out.push('"');
            }
        }
        out.push('\n');
        proof {
            reveal_strlit(" : ");
            assert(ls[i as int] == rendered(entries@[i as int]));
            assert(out@ =~= before + ls[i as int] + seq!['\n']);
            assert(ls.skip(i as int).drop_first() =~= ls.skip(i + 1));
            assert(ls.skip(i as int)[0] == ls[i as int]);
            assert(before + joined_lines(ls.skip(i as int)) =~= out@ + joined_lines(ls.skip(i + 1)));
        }
        i = i + 1;
    }
    proof {
        assert(ls.skip(i as int) =~= Seq::<Seq<char>>::empty());
        assert(out@ + Seq::<char>::empty() =~= out@);
    }
    out
}

/// No line break in `l`, and no carriage return at its end.
pub open spec fn no_line_break(l: Seq<char>) -> bool {
    (forall|i: int| 0 <= i < l.len() ==> #[trigger] l[i] != '\n') && !(l.len() > 0 && l.last() == '\r')
}

proof fn lemma_lines_of_joined(ls: Seq<Seq<char>>)
    requires
        forall|n: int| 0 <= n < ls.len() ==> no_line_break(#[trigger] ls[n]),
    ensures
        lines(joined_lines(ls)) == ls,
    decreases ls.len(),
{
    if ls.len() > 0 {
        let l = ls[0];
        let s = joined_lines(ls);
        let rest = ls.drop_first();
        assert forall|n: int| 0 <= n < rest.len() implies no_line_break(#[trigger] rest[n]) by {
            assert(rest[n] == ls[n + 1]);
        }
        lemma_lines_of_joined(rest);
        assert(no_line_break(l));
        assert forall|k: int| 0 <= k < l.len() implies s[k] != '\n' by {
            assert(s[k] == l[k]);
        }
        assert(s[l.len() as int] == '\n');
        lemma_find_char_is(s, '\n', l.len() as int);
        assert(s.take(l.len() as int) =~= l);
        assert(s.skip(l.len() as int + 1) =~= joined_lines(rest));
        assert(lines(s) =~= seq![l] + rest);
    }
}

/// A blank line or a comment changes nothing.
proof fn lemma_ignored_line(c: ConfigView, l: Seq<char>)
    requires
        l.len() == 0 || l[0] == '#',
    ensures
        with_line(c, l) == c,
{
    if l.len() > 0 {
        lemma_trim_start_is(l, 0);
        assert(l.skip(0) =~= l);
    }
}

/// `s` has no white space at either end, so trimming keeps it.
proof fn lemma_trim_plain(s: Seq<char>)
    requires
        s.len() > 0 ==> !is_white(s[0]) && !is_white(s.last()),
    ensures
        trim(s) == s,
{
    lemma_trim_start_is(s, 0);
    assert(s.skip(0) =~= s);
    lemma_trim_end_is(s, s.len() as int);
    assert(s.take(s.len() as int) =~= s);
}

/// The value of `key : value` without quotes.
proof fn lemma_plain_value(v: Seq<char>)
    requires
        v.len() > 0 ==> !is_white(v[0]) && !is_white(v.last()) && v[0] != '"' && v.last() != '"',
    ensures
        trimmed_value(seq![' '] + v) == v,
{
    let s = seq![' '] + v;
    lemma_trim_start_is(s, 1);
    assert(s.skip(1) =~= v);
    lemma_trim_plain(v);
}

/// The value of `key : "inner"`.
proof fn lemma_quoted_value(inner: Seq<char>)
    ensures
        trimmed_value(seq![' '] + quoted(inner)) == inner,
{
    let q = quoted(inner);
    let s = seq![' '] + q;
    lemma_trim_start_is(s, 1);
    assert(s.skip(1) =~= q);
    lemma_trim_plain(q);
    assert(q.drop_first().drop_last() =~= inner);
}

/// The line `key : value` sets `key` from the value with its leading space
/// and quotes trimmed.
proof fn lemma_setting_line(c: ConfigView, key: Seq<char>, value: Seq<char>)
    requires
        key.len() > 0,
        !is_white(key[0]),
        key[0] != '#',
        !is_white(key.last()),
        forall|i: int| 0 <= i < key.len() ==> #[trigger] key[i] != ':',
    ensures
        with_line(c, setting_line(key, value)) == with_setting(c, key, trimmed_value(seq![' '] + value)),
{
    let l = setting_line(key, value);
    let n = key.len() as int;
    lemma_trim_start_is(l, 0);
    assert(l.skip(0) =~= l);
    assert(l[0] == key[0]);
    assert forall|k: int| 0 <= k < n + 1 implies l[k] != ':' by {
        if k < n {
            assert(l[k] == key[k]);
        }
    }
    lemma_find_char_is(l, ':', n + 1);
    let t = l.take(n + 1);
    assert(t.take(n) =~= key);
    lemma_trim_start_is(t, 0);
    assert(t.skip(0) =~= t);
    lemma_trim_end_is(t, n);
    assert(l.skip(n + 2) =~= seq![' '] + value);
}

/// Line 0 of the default rhisperrc leaves the defaults as they are.
proof fn lemma_default_line_0()
    ensures
        no_line_break(rendered(default_entries()[0])),
        with_line(default_view(), rendered(default_entries()[0])) == default_view(),
{
    reveal_strlit("# rhisper configuration - `key : value` per line, `#` starts a comment.");
    lemma_ignored_line(default_view(), "# rhisper configuration - `key : value` per line, `#` starts a comment."@);
}

/// Line 1 of the default rhisperrc leaves the defaults as they are.
proof fn lemma_default_line_1()
    ensures
        no_line_break(rendered(default_entries()[1])),
        with_line(default_view(), rendered(default_entries()[1])) == default_view(),
{
    reveal_strlit("");
    lemma_ignored_line(default_view(), ""@);
}

/// Line 2 of the default rhisperrc leaves the defaults as they are.
proof fn lemma_default_line_2()
    ensures
        no_line_break(rendered(default_entries()[2])),
        with_line(default_view(), rendered(default_entries()[2])) == default_view(),
{
    reveal_strlit("# Transcription provider: groq (reads GROQ_API_KEY), openai (reads");
    lemma_ignored_line(default_view(), "# Transcription provider: groq (reads GROQ_API_KEY), openai (reads"@);
}

/// Line 3 of the default rhisperrc leaves the defaults as they are.
proof fn lemma_default_line_3()
    ensures
        no_line_break(rendered(default_entries()[3])),
        with_line(default_view(), rendered(default_entries()[3])) == default_view(),
{
    reveal_strlit("# OPENAI_API_KEY) or custom (reads RHISPER_API_KEY, sends to api-base-url).");
    lemma_ignored_line(default_view(), "# OPENAI_API_KEY) or custom (reads RHISPER_API_KEY, sends to api-base-url)."@);
}

/// Line 4 of the default rhisperrc leaves the defaults as they are.
proof fn lemma_default_line_4()
    ensures
        no_line_break(rendered(default_entries()[4])),
        with_line(default_view(), rendered(default_entries()[4])) == default_view(),
{
    reveal_strlit("provider");
    reveal_strlit("groq");
    reveal_strlit("long-recording-threshold");
    reveal_strlit("transcription-prompt");
    reveal_strlit("language");
    reveal_strlit("paste-mode");
    reveal_strlit("non-ascii-initial-delay");
    reveal_strlit("non-ascii-default-delay");
    reveal_strlit("keyboard-layout");
    reveal_strlit("silence-threshold");
    reveal_strlit("min-speech-seconds");
    reveal_strlit("placeholders");
    reveal_strlit("placeholder-recording");
    reveal_strlit("placeholder-transcribing");
    reveal_strlit("placeholder-silent");
    reveal_strlit("provider");
    reveal_strlit("api-base-url");
    reveal_strlit("model");
    reveal_strlit("audio-device");
    reveal_strlit("audio-device-fallback");
    assert("provider"@[0] != "language"@[0]);
    reveal_strlit("openai");
    reveal_strlit("custom");
    lemma_setting_line(default_view(), "provider"@, "groq"@);
    lemma_plain_value("groq"@);
}

/// Line 5 of the default rhisperrc leaves the defaults as they are.
proof fn lemma_default_line_5()
    ensures
        no_line_break(rendered(default_entries()[5])),
        with_line(default_view(), rendered(default_entries()[5])) == default_view(),
{
    reveal_strlit("# Base URL of an OpenAI-compatible endpoint, for provider custom.");
    lemma_ignored_line(default_view(), "# Base URL of an OpenAI-compatible endpoint, for provider custom."@);
}

/// Line 6 of the default rhisperrc leaves the defaults as they are.
proof fn lemma_default_line_6()
    ensures
        no_line_break(rendered(default_entries()[6])),
        with_line(default_view(), rendered(default_entries()[6])) == default_view(),
{
    reveal_strlit("api-base-url");
    reveal_strlit("");
    reveal_strlit("long-recording-threshold");
    reveal_strlit("transcription-prompt");
    reveal_strlit("language");
    reveal_strlit("paste-mode");
    reveal_strlit("non-ascii-initial-delay");
    reveal_strlit("non-ascii-default-delay");
    reveal_strlit("keyboard-layout");
    reveal_strlit("silence-threshold");
    reveal_strlit("min-speech-seconds");
    reveal_strlit("placeholders");
    reveal_strlit("placeholder-recording");
    reveal_strlit("placeholder-transcribing");
    reveal_strlit("placeholder-silent");
    reveal_strlit("provider");
    reveal_strlit("api-base-url");
    reveal_strlit("model");
    reveal_strlit("audio-device");
    reveal_strlit("audio-device-fallback");
    assert("api-base-url"@[0] != "placeholders"@[0]);
    lemma_setting_line(default_view(), "api-base-url"@, quoted(""@));
    lemma_quoted_value(""@);
}

/// Line 7 of the default rhisperrc leaves the defaults as they are.
proof fn lemma_default_line_7()
    ensures
        no_line_break(rendered(default_entries()[7])),
        with_line(default_view(), rendered(default_entries()[7])) == default_view(),
{
    reveal_strlit("# Overrides the provider's default model; empty means the default.");
    lemma_ignored_line(default_view(), "# Overrides the provider's default model; empty means the default."@);
}

/// Line 8 of the default rhisperrc leaves the defaults as they are.
proof fn lemma_default_line_8()
    ensures
        no_line_break(rendered(default_entries()[8])),
        with_line(default_view(), rendered(default_entries()[8])) == default_view(),
{
    reveal_strlit("model");
    reveal_strlit("");
    reveal_strlit("long-recording-threshold");
    reveal_strlit("transcription-prompt");
    reveal_strlit("language");
    reveal_strlit("paste-mode");
    reveal_strlit("non-ascii-initial-delay");
    reveal_strlit("non-ascii-default-delay");
    reveal_strlit("keyboard-layout");
    reveal_strlit("silence-threshold");
    reveal_strlit("min-speech-seconds");
    reveal_strlit("placeholders");
    reveal_strlit("placeholder-recording");
    reveal_strlit("placeholder-transcribing");
    reveal_strlit("placeholder-silent");
    reveal_strlit("provider");
    reveal_strlit("api-base-url");
    reveal_strlit("model");
    reveal_strlit("audio-device");
    reveal_strlit("audio-device-fallback");
    lemma_setting_line(default_view(), "model"@, quoted(""@));
    lemma_quoted_value(""@);
}

/// Line 9 of the default rhisperrc leaves the defaults as they are.
proof fn lemma_default_line_9()
    ensures
        no_line_break(rendered(default_entries()[9])),
        with_line(default_view(), rendered(default_entries()[9])) == default_view(),
{
    reveal_strlit("");
    lemma_ignored_line(default_view(), ""@);
}

/// Line 10 of the default rhisperrc leaves the defaults as they are.
proof fn lemma_default_line_10()
    ensures
        no_line_break(rendered(default_entries()[10])),
        with_line(default_view(), rendered(default_entries()[10])) == default_view(),
{
    reveal_strlit("# Recordings longer than this many seconds use the larger Groq model.");
    lemma_ignored_line(default_view(), "# Recordings longer than this many seconds use the larger Groq model."@);
}

/// Line 11 of the default rhisperrc leaves the defaults as they are.
proof fn lemma_default_line_11()
    ensures
        no_line_break(rendered(default_entries()[11])),
        with_line(default_view(), rendered(default_entries()[11])) == default_view(),
{
    reveal_strlit("long-recording-threshold");
    reveal_strlit("1000");
    reveal_strlit("long-recording-threshold");
    reveal_strlit("transcription-prompt");
    reveal_strlit("language");
    reveal_strlit("paste-mode");
    reveal_strlit("non-ascii-initial-delay");
    reveal_strlit("non-ascii-default-delay");
    reveal_strlit("keyboard-layout");
    reveal_strlit("silence-threshold");
    reveal_strlit("min-speech-seconds");
    reveal_strlit("placeholders");
    reveal_strlit("placeholder-recording");
    reveal_strlit("placeholder-transcribing");
    reveal_strlit("placeholder-silent");
    reveal_strlit("provider");
    reveal_strlit("api-base-url");
    reveal_strlit("model");
    reveal_strlit("audio-device");
    reveal_strlit("audio-device-fallback");
    lemma_setting_line(default_view(), "long-recording-threshold"@, "1000"@);
    lemma_plain_value("1000"@);
    lemma_trim_plain("1000"@);
}

/// Line 12 of the default rhisperrc leaves the defaults as they are.
proof fn lemma_default_line_12()
    ensures
        no_line_break(rendered(default_entries()[12])),
        with_line(default_view(), rendered(default_entries()[12])) == default_view(),
{
    reveal_strlit("# Context hint passed to Whisper (common words, names, vocabulary).");
    lemma_ignored_line(default_view(), "# Context hint passed to Whisper (common words, names, vocabulary)."@);
}

/// Line 13 of the default rhisperrc leaves the defaults as they are.
proof fn lemma_default_line_13()
    ensures
        no_line_break(rendered(default_entries()[13])),
        with_line(default_view(), rendered(default_entries()[13])) == default_view(),
{
    reveal_strlit("transcription-prompt");
    reveal_strlit("");
    reveal_strlit("long-recording-threshold");
    reveal_strlit("transcription-prompt");
    reveal_strlit("language");
    reveal_strlit("paste-mode");
    reveal_strlit("non-ascii-initial-delay");
    reveal_strlit("non-ascii-default-delay");
    reveal_strlit("keyboard-layout");
    reveal_strlit("silence-threshold");
    reveal_strlit("min-speech-seconds");
    reveal_strlit("placeholders");
    reveal_strlit("placeholder-recording");
    reveal_strlit("placeholder-transcribing");
    reveal_strlit("placeholder-silent");
    reveal_strlit("provider");
    reveal_strlit("api-base-url");
    reveal_strlit("model");
    reveal_strlit("audio-device");
    reveal_strlit("audio-device-fallback");
    lemma_setting_line(default_view(), "transcription-prompt"@, quoted(""@));
    lemma_quoted_value(""@);
}

/// Line 14 of the default rhisperrc leaves the defaults as they are.
proof fn lemma_default_line_14()
    ensures
        no_line_break(rendered(default_entries()[14])),
        with_line(default_view(), rendered(default_entries()[14])) == default_view(),
{
    reveal_strlit("# ISO-639-1 code forcing the language; empty lets Whisper detect it.");
    lemma_ignored_line(default_view(), "# ISO-639-1 code forcing the language; empty lets Whisper detect it."@);
}

/// Line 15 of the default rhisperrc leaves the defaults as they are.
proof fn lemma_default_line_15()
    ensures
        no_line_break(rendered(default_entries()[15])),
        with_line(default_view(), rendered(default_entries()[15])) == default_view(),
{
    reveal_strlit("language");
    reveal_strlit("");
    reveal_strlit("long-recording-threshold");
    reveal_strlit("transcription-prompt");
    reveal_strlit("language");
    reveal_strlit("paste-mode");
    reveal_strlit("non-ascii-initial-delay");
    reveal_strlit("non-ascii-default-delay");
    reveal_strlit("keyboard-layout");
    reveal_strlit("silence-threshold");
    reveal_strlit("min-speech-seconds");
    reveal_strlit("placeholders");
    reveal_strlit("placeholder-recording");
    reveal_strlit("placeholder-transcribing");
    reveal_strlit("placeholder-silent");
    reveal_strlit("provider");
    reveal_strlit("api-base-url");
    reveal_strlit("model");
    reveal_strlit("audio-device");
    reveal_strlit("audio-device-fallback");
    lemma_setting_line(default_view(), "language"@, quoted(""@));
    lemma_quoted_value(""@);
}

/// Line 16 of the default rhisperrc leaves the defaults as they are.
proof fn lemma_default_line_16()
    ensures
        no_line_break(rendered(default_entries()[16])),
        with_line(default_view(), rendered(default_entries()[16])) == default_view(),
{
    reveal_strlit("");
    lemma_ignored_line(default_view(), ""@);
}

/// Line 17 of the default rhisperrc leaves the defaults as they are.
proof fn lemma_default_line_17()
    ensures
        no_line_break(rendered(default_entries()[17])),
        with_line(default_view(), rendered(default_entries()[17])) == default_view(),
{
    reveal_strlit("# type, clipboard or clipboard-restore.");
    lemma_ignored_line(default_view(), "# type, clipboard or clipboard-restore."@);
}

/// Line 18 of the default rhisperrc leaves the defaults as they are.
proof fn lemma_default_line_18()
    ensures
        no_line_break(rendered(default_entries()[18])),
        with_line(default_view(), rendered(default_entries()[18])) == default_view(),
{
    reveal_strlit("paste-mode");
    reveal_strlit("type");
    reveal_strlit("long-recording-threshold");
    reveal_strlit("transcription-prompt");
    reveal_strlit("language");
    reveal_strlit("paste-mode");
    reveal_strlit("non-ascii-initial-delay");
    reveal_strlit("non-ascii-default-delay");
    reveal_strlit("keyboard-layout");
    reveal_strlit("silence-threshold");
    reveal_strlit("min-speech-seconds");
    reveal_strlit("placeholders");
    reveal_strlit("placeholder-recording");
    reveal_strlit("placeholder-transcribing");
    reveal_strlit("placeholder-silent");
    reveal_strlit("provider");
    reveal_strlit("api-base-url");
    reveal_strlit("model");
    reveal_strlit("audio-device");
    reveal_strlit("audio-device-fallback");
    reveal_strlit("clipboard");
    reveal_strlit("clipboard-restore");
    lemma_setting_line(default_view(), "paste-mode"@, "type"@);
    lemma_plain_value("type"@);
}

/// Line 19 of the default rhisperrc leaves the defaults as they are.
proof fn lemma_default_line_19()
    ensures
        no_line_break(rendered(default_entries()[19])),
        with_line(default_view(), rendered(default_entries()[19])) == default_view(),
{
    reveal_strlit("# Seconds to wait before pasting the first non-ASCII clipboard chunk.");
    lemma_ignored_line(default_view(), "# Seconds to wait before pasting the first non-ASCII clipboard chunk."@);
}

/// Line 20 of the default rhisperrc leaves the defaults as they are.
proof fn lemma_default_line_20()
    ensures
        no_line_break(rendered(default_entries()[20])),
        with_line(default_view(), rendered(default_entries()[20])) == default_view(),
{
    reveal_strlit("non-ascii-initial-delay");
    reveal_strlit("0.15");
    reveal_strlit("long-recording-threshold");
    reveal_strlit("transcription-prompt");
    reveal_strlit("language");
    reveal_strlit("paste-mode");
    reveal_strlit("non-ascii-initial-delay");
    reveal_strlit("non-ascii-default-delay");
    reveal_strlit("keyboard-layout");
    reveal_strlit("silence-threshold");
    reveal_strlit("min-speech-seconds");
    reveal_strlit("placeholders");
    reveal_strlit("placeholder-recording");
    reveal_strlit("placeholder-transcribing");
    reveal_strlit("placeholder-silent");
    reveal_strlit("provider");
    reveal_strlit("api-base-url");
    reveal_strlit("model");
    reveal_strlit("audio-device");
    reveal_strlit("audio-device-fallback");
    lemma_setting_line(default_view(), "non-ascii-initial-delay"@, "0.15"@);
    lemma_plain_value("0.15"@);
    lemma_trim_plain("0.15"@);
}

/// Line 21 of the default rhisperrc leaves the defaults as they are.
proof fn lemma_default_line_21()
    ensures
        no_line_break(rendered(default_entries()[21])),
        with_line(default_view(), rendered(default_entries()[21])) == default_view(),
{
    reveal_strlit("# Seconds to wait before each later non-ASCII clipboard chunk.");
    lemma_ignored_line(default_view(), "# Seconds to wait before each later non-ASCII clipboard chunk."@);
}

/// Line 22 of the default rhisperrc leaves the defaults as they are.
proof fn lemma_default_line_22()
    ensures
        no_line_break(rendered(default_entries()[22])),
        with_line(default_view(), rendered(default_entries()[22])) == default_view(),
{
    reveal_strlit("non-ascii-default-delay");
    reveal_strlit("0.025");
    reveal_strlit("long-recording-threshold");
    reveal_strlit("transcription-prompt");
    reveal_strlit("language");
    reveal_strlit("paste-mode");
    reveal_strlit("non-ascii-initial-delay");
    reveal_strlit("non-ascii-default-delay");
    reveal_strlit("keyboard-layout");
    reveal_strlit("silence-threshold");
    reveal_strlit("min-speech-seconds");
    reveal_strlit("placeholders");
    reveal_strlit("placeholder-recording");
    reveal_strlit("placeholder-transcribing");
    reveal_strlit("placeholder-silent");
    reveal_strlit("provider");
    reveal_strlit("api-base-url");
    reveal_strlit("model");
    reveal_strlit("audio-device");
    reveal_strlit("audio-device-fallback");
    assert("non-ascii-default-delay"@[10] != "non-ascii-initial-delay"@[10]);
    lemma_setting_line(default_view(), "non-ascii-default-delay"@, "0.025"@);
    lemma_plain_value("0.025"@);
    lemma_trim_plain("0.025"@);
}

/// Line 23 of the default rhisperrc leaves the defaults as they are.
proof fn lemma_default_line_23()
    ensures
        no_line_break(rendered(default_entries()[23])),
        with_line(default_view(), rendered(default_entries()[23])) == default_view(),
{
    reveal_strlit("# Layout used when typing ASCII characters (Linux): us, dk or es.");
    lemma_ignored_line(default_view(), "# Layout used when typing ASCII characters (Linux): us, dk or es."@);
}

/// Line 24 of the default rhisperrc leaves the defaults as they are.
proof fn lemma_default_line_24()
    ensures
        no_line_break(rendered(default_entries()[24])),
        with_line(default_view(), rendered(default_entries()[24])) == default_view(),
{
    reveal_strlit("keyboard-layout");
    reveal_strlit("us");
    reveal_strlit("long-recording-threshold");
    reveal_strlit("transcription-prompt");
    reveal_strlit("language");
    reveal_strlit("paste-mode");
    reveal_strlit("non-ascii-initial-delay");
    reveal_strlit("non-ascii-default-delay");
    reveal_strlit("keyboard-layout");
    reveal_strlit("silence-threshold");
    reveal_strlit("min-speech-seconds");
    reveal_strlit("placeholders");
    reveal_strlit("placeholder-recording");
    reveal_strlit("placeholder-transcribing");
    reveal_strlit("placeholder-silent");
    reveal_strlit("provider");
    reveal_strlit("api-base-url");
    reveal_strlit("model");
    reveal_strlit("audio-device");
    reveal_strlit("audio-device-fallback");
    lemma_setting_line(default_view(), "keyboard-layout"@, "us"@);
    lemma_plain_value("us"@);
}

/// Line 25 of the default rhisperrc leaves the defaults as they are.
proof fn lemma_default_line_25()
    ensures
        no_line_break(rendered(default_entries()[25])),
        with_line(default_view(), rendered(default_entries()[25])) == default_view(),
{
    reveal_strlit("");
    lemma_ignored_line(default_view(), ""@);
}

/// Line 26 of the default rhisperrc leaves the defaults as they are.
proof fn lemma_default_line_26()
    ensures
        no_line_break(rendered(default_entries()[26])),
        with_line(default_view(), rendered(default_entries()[26])) == default_view(),
{
    reveal_strlit("# Volume in dB below which audio counts as quiet.");
    lemma_ignored_line(default_view(), "# Volume in dB below which audio counts as quiet."@);
}

/// Line 27 of the default rhisperrc leaves the defaults as they are.
proof fn lemma_default_line_27()
    ensures
        no_line_break(rendered(default_entries()[27])),
        with_line(default_view(), rendered(default_entries()[27])) == default_view(),
{
    reveal_strlit("silence-threshold");
    reveal_strlit("-50");
    reveal_strlit("long-recording-threshold");
    reveal_strlit("transcription-prompt");
    reveal_strlit("language");
    reveal_strlit("paste-mode");
    reveal_strlit("non-ascii-initial-delay");
    reveal_strlit("non-ascii-default-delay");
    reveal_strlit("keyboard-layout");
    reveal_strlit("silence-threshold");
    reveal_strlit("min-speech-seconds");
    reveal_strlit("placeholders");
    reveal_strlit("placeholder-recording");
    reveal_strlit("placeholder-transcribing");
    reveal_strlit("placeholder-silent");
    reveal_strlit("provider");
    reveal_strlit("api-base-url");
    reveal_strlit("model");
    reveal_strlit("audio-device");
    reveal_strlit("audio-device-fallback");
    lemma_setting_line(default_view(), "silence-threshold"@, "-50"@);
    lemma_plain_value("-50"@);
    lemma_trim_plain("-50"@);
}

/// Line 28 of the default rhisperrc leaves the defaults as they are.
proof fn lemma_default_line_28()
    ensures
        no_line_break(rendered(default_entries()[28])),
        with_line(default_view(), rendered(default_entries()[28])) == default_view(),
{
    reveal_strlit("# Shortest stretch of sound, in seconds, that counts as speech.");
    lemma_ignored_line(default_view(), "# Shortest stretch of sound, in seconds, that counts as speech."@);
}

/// Line 29 of the default rhisperrc leaves the defaults as they are.
proof fn lemma_default_line_29()
    ensures
        no_line_break(rendered(default_entries()[29])),
        with_line(default_view(), rendered(default_entries()[29])) == default_view(),
{
    reveal_strlit("min-speech-seconds");
    reveal_strlit("0.3");
    reveal_strlit("long-recording-threshold");
    reveal_strlit("transcription-prompt");
    reveal_strlit("language");
    reveal_strlit("paste-mode");
    reveal_strlit("non-ascii-initial-delay");
    reveal_strlit("non-ascii-default-delay");
    reveal_strlit("keyboard-layout");
    reveal_strlit("silence-threshold");
    reveal_strlit("min-speech-seconds");
    reveal_strlit("placeholders");
    reveal_strlit("placeholder-recording");
    reveal_strlit("placeholder-transcribing");
    reveal_strlit("placeholder-silent");
    reveal_strlit("provider");
    reveal_strlit("api-base-url");
    reveal_strlit("model");
    reveal_strlit("audio-device");
    reveal_strlit("audio-device-fallback");
    lemma_setting_line(default_view(), "min-speech-seconds"@, "0.3"@);
    lemma_plain_value("0.3"@);
    lemma_trim_plain("0.3"@);
}

/// Line 30 of the default rhisperrc leaves the defaults as they are.
proof fn lemma_default_line_30()
    ensures
        no_line_break(rendered(default_entries()[30])),
        with_line(default_view(), rendered(default_entries()[30])) == default_view(),
{
    reveal_strlit("");
    lemma_ignored_line(default_view(), ""@);
}

/// Line 31 of the default rhisperrc leaves the defaults as they are.
proof fn lemma_default_line_31()
    ensures
        no_line_break(rendered(default_entries()[31])),
        with_line(default_view(), rendered(default_entries()[31])) == default_view(),
{
    reveal_strlit("# Capture source; empty follows the system default (rhisper --list-devices).");
    lemma_ignored_line(default_view(), "# Capture source; empty follows the system default (rhisper --list-devices)."@);
}

/// Line 32 of the default rhisperrc leaves the defaults as they are.
proof fn lemma_default_line_32()
    ensures
        no_line_break(rendered(default_entries()[32])),
        with_line(default_view(), rendered(default_entries()[32])) == default_view(),
{
    reveal_strlit("audio-device");
    reveal_strlit("");
    reveal_strlit("long-recording-threshold");
    reveal_strlit("transcription-prompt");
    reveal_strlit("language");
    reveal_strlit("paste-mode");
    reveal_strlit("non-ascii-initial-delay");
    reveal_strlit("non-ascii-default-delay");
    reveal_strlit("keyboard-layout");
    reveal_strlit("silence-threshold");
    reveal_strlit("min-speech-seconds");
    reveal_strlit("placeholders");
    reveal_strlit("placeholder-recording");
    reveal_strlit("placeholder-transcribing");
    reveal_strlit("placeholder-silent");
    reveal_strlit("provider");
    reveal_strlit("api-base-url");
    reveal_strlit("model");
    reveal_strlit("audio-device");
    reveal_strlit("audio-device-fallback");
    assert("audio-device"@[0] != "placeholders"@[0]);
    assert("audio-device"@[1] != "api-base-url"@[1]);
    lemma_setting_line(default_view(), "audio-device"@, quoted(""@));
    lemma_quoted_value(""@);
}

/// Line 33 of the default rhisperrc leaves the defaults as they are.
proof fn lemma_default_line_33()
    ensures
        no_line_break(rendered(default_entries()[33])),
        with_line(default_view(), rendered(default_entries()[33])) == default_view(),
{
    reveal_strlit("# When audio-device is missing: yes records from the default, no refuses.");
    lemma_ignored_line(default_view(), "# When audio-device is missing: yes records from the default, no refuses."@);
}

/// Line 34 of the default rhisperrc leaves the defaults as they are.
proof fn lemma_default_line_34()
    ensures
        no_line_break(rendered(default_entries()[34])),
        with_line(default_view(), rendered(default_entries()[34])) == default_view(),
{
    reveal_strlit("audio-device-fallback");
    reveal_strlit("yes");
    reveal_strlit("long-recording-threshold");
    reveal_strlit("transcription-prompt");
    reveal_strlit("language");
    reveal_strlit("paste-mode");
    reveal_strlit("non-ascii-initial-delay");
    reveal_strlit("non-ascii-default-delay");
    reveal_strlit("keyboard-layout");
    reveal_strlit("silence-threshold");
    reveal_strlit("min-speech-seconds");
    reveal_strlit("placeholders");
    reveal_strlit("placeholder-recording");
    reveal_strlit("placeholder-transcribing");
    reveal_strlit("placeholder-silent");
    reveal_strlit("provider");
    reveal_strlit("api-base-url");
    reveal_strlit("model");
    reveal_strlit("audio-device");
    reveal_strlit("audio-device-fallback");
    assert("audio-device-fallback"@[0] != "placeholder-recording"@[0]);
    reveal_strlit("no");
    lemma_setting_line(default_view(), "audio-device-fallback"@, "yes"@);
    lemma_plain_value("yes"@);
}

/// Line 35 of the default rhisperrc leaves the defaults as they are.
proof fn lemma_default_line_35()
    ensures
        no_line_break(rendered(default_entries()[35])),
        with_line(default_view(), rendered(default_entries()[35])) == default_view(),
{
    reveal_strlit("");
    lemma_ignored_line(default_view(), ""@);
}

/// Line 36 of the default rhisperrc leaves the defaults as they are.
proof fn lemma_default_line_36()
    ensures
        no_line_break(rendered(default_entries()[36])),
        with_line(default_view(), rendered(default_entries()[36])) == default_view(),
{
    reveal_strlit("# How the status is shown: auto, inline, notify or off.");
    lemma_ignored_line(default_view(), "# How the status is shown: auto, inline, notify or off."@);
}

/// Line 37 of the default rhisperrc leaves the defaults as they are.
proof fn lemma_default_line_37()
    ensures
        no_line_break(rendered(default_entries()[37])),
        with_line(default_view(), rendered(default_entries()[37])) == default_view(),
{
    reveal_strlit("placeholders");
    reveal_strlit("auto");
    reveal_strlit("long-recording-threshold");
    reveal_strlit("transcription-prompt");
    reveal_strlit("language");
    reveal_strlit("paste-mode");
    reveal_strlit("non-ascii-initial-delay");
    reveal_strlit("non-ascii-default-delay");
    reveal_strlit("keyboard-layout");
    reveal_strlit("silence-threshold");
    reveal_strlit("min-speech-seconds");
    reveal_strlit("placeholders");
    reveal_strlit("placeholder-recording");
    reveal_strlit("placeholder-transcribing");
    reveal_strlit("placeholder-silent");
    reveal_strlit("provider");
    reveal_strlit("api-base-url");
    reveal_strlit("model");
    reveal_strlit("audio-device");
    reveal_strlit("audio-device-fallback");
    reveal_strlit("inline");
    reveal_strlit("notify");
    reveal_strlit("off");
    lemma_setting_line(default_view(), "placeholders"@, "auto"@);
    lemma_plain_value("auto"@);
}

/// Line 38 of the default rhisperrc leaves the defaults as they are.
proof fn lemma_default_line_38()
    ensures
        no_line_break(rendered(default_entries()[38])),
        with_line(default_view(), rendered(default_entries()[38])) == default_view(),
{
    reveal_strlit("# The status texts; placeholder-recording may name the microphone: ${device}");
    lemma_ignored_line(default_view(), "# The status texts; placeholder-recording may name the microphone: ${device}"@);
}

/// Line 39 of the default rhisperrc leaves the defaults as they are.
proof fn lemma_default_line_39()
    ensures
        no_line_break(rendered(default_entries()[39])),
        with_line(default_view(), rendered(default_entries()[39])) == default_view(),
{
    reveal_strlit("placeholder-recording");
    reveal_strlit("(recording...)");
    reveal_strlit("long-recording-threshold");
    reveal_strlit("transcription-prompt");
    reveal_strlit("language");
    reveal_strlit("paste-mode");
    reveal_strlit("non-ascii-initial-delay");
    reveal_strlit("non-ascii-default-delay");
    reveal_strlit("keyboard-layout");
    reveal_strlit("silence-threshold");
    reveal_strlit("min-speech-seconds");
    reveal_strlit("placeholders");
    reveal_strlit("placeholder-recording");
    reveal_strlit("placeholder-transcribing");
    reveal_strlit("placeholder-silent");
    reveal_strlit("provider");
    reveal_strlit("api-base-url");
    reveal_strlit("model");
    reveal_strlit("audio-device");
    reveal_strlit("audio-device-fallback");
    lemma_setting_line(default_view(), "placeholder-recording"@, quoted("(recording...)"@));
    lemma_quoted_value("(recording...)"@);
}

/// Line 40 of the default rhisperrc leaves the defaults as they are.
proof fn lemma_default_line_40()
    ensures
        no_line_break(rendered(default_entries()[40])),
        with_line(default_view(), rendered(default_entries()[40])) == default_view(),
{
    reveal_strlit("placeholder-transcribing");
    reveal_strlit("(transcribing...)");
    reveal_strlit("long-recording-threshold");
    reveal_strlit("transcription-prompt");
    reveal_strlit("language");
    reveal_strlit("paste-mode");
    reveal_strlit("non-ascii-initial-delay");
    reveal_strlit("non-ascii-default-delay");
    reveal_strlit("keyboard-layout");
    reveal_strlit("silence-threshold");
    reveal_strlit("min-speech-seconds");
    reveal_strlit("placeholders");
    reveal_strlit("placeholder-recording");
    reveal_strlit("placeholder-transcribing");
    reveal_strlit("placeholder-silent");
    reveal_strlit("provider");
    reveal_strlit("api-base-url");
    reveal_strlit("model");
    reveal_strlit("audio-device");
    reveal_strlit("audio-device-fallback");
    assert("placeholder-transcribing"@[0] != "long-recording-threshold"@[0]);
    lemma_setting_line(default_view(), "placeholder-transcribing"@, quoted("(transcribing...)"@));
    lemma_quoted_value("(transcribing...)"@);
}

/// Line 41 of the default rhisperrc leaves the defaults as they are.
proof fn lemma_default_line_41()
    ensures
        no_line_break(rendered(default_entries()[41])),
        with_line(default_view(), rendered(default_entries()[41])) == default_view(),
{
    reveal_strlit("placeholder-silent");
    reveal_strlit("(no sound detected)");
    reveal_strlit("long-recording-threshold");
    reveal_strlit("transcription-prompt");
    reveal_strlit("language");
    reveal_strlit("paste-mode");
    reveal_strlit("non-ascii-initial-delay");
    reveal_strlit("non-ascii-default-delay");
    reveal_strlit("keyboard-layout");
    reveal_strlit("silence-threshold");
    reveal_strlit("min-speech-seconds");
    reveal_strlit("placeholders");
    reveal_strlit("placeholder-recording");
    reveal_strlit("placeholder-transcribing");
    reveal_strlit("placeholder-silent");
    reveal_strlit("provider");
    reveal_strlit("api-base-url");
    reveal_strlit("model");
    reveal_strlit("audio-device");
    reveal_strlit("audio-device-fallback");
    assert("placeholder-silent"@[0] != "min-speech-seconds"@[0]);
    lemma_setting_line(default_view(), "placeholder-silent"@, quoted("(no sound detected)"@));
    lemma_quoted_value("(no sound detected)"@);
}

/// The default rhisperrc spells out the defaults: reading it gives exactly
/// [`default_view`], the value of `Config::default()`.
pub proof fn lemma_default_text_parses_to_defaults()
    ensures
        parsed(default_text()) == default_view(),
{
    let ls = default_entries().map_values(|e: (&'static str, &'static str, u8)| rendered(e));
    assert forall|n: int| 0 <= n < ls.len() implies no_line_break(#[trigger] ls[n]) && with_line(default_view(), ls[n]) == default_view() by {
        if n == 0 { lemma_default_line_0(); }
        if n == 1 { lemma_default_line_1(); }
        if n == 2 { lemma_default_line_2(); }
        if n == 3 { lemma_default_line_3(); }
        if n == 4 { lemma_default_line_4(); }
        if n == 5 { lemma_default_line_5(); }
        if n == 6 { lemma_default_line_6(); }
        if n == 7 { lemma_default_line_7(); }
        if n == 8 { lemma_default_line_8(); }
        if n == 9 { lemma_default_line_9(); }
        if n == 10 { lemma_default_line_10(); }
        if n == 11 { lemma_default_line_11(); }
        if n == 12 { lemma_default_line_12(); }
        if n == 13 { lemma_default_line_13(); }
        if n == 14 { lemma_default_line_14(); }
        if n == 15 { lemma_default_line_15(); }
        if n == 16 { lemma_default_line_16(); }
        if n == 17 { lemma_default_line_17(); }
        if n == 18 { lemma_default_line_18(); }
        if n == 19 { lemma_default_line_19(); }
        if n == 20 { lemma_default_line_20(); }
        if n == 21 { lemma_default_line_21(); }
        if n == 22 { lemma_default_line_22(); }
        if n == 23 { lemma_default_line_23(); }
        if n == 24 { lemma_default_line_24(); }
        if n == 25 { lemma_default_line_25(); }
        if n == 26 { lemma_default_line_26(); }
        if n == 27 { lemma_default_line_27(); }
        if n == 28 { lemma_default_line_28(); }
        if n == 29 { lemma_default_line_29(); }
        if n == 30 { lemma_default_line_30(); }
        if n == 31 { lemma_default_line_31(); }
        if n == 32 { lemma_default_line_32(); }
        if n == 33 { lemma_default_line_33(); }
        if n == 34 { lemma_default_line_34(); }
        if n == 35 { lemma_default_line_35(); }
        if n == 36 { lemma_default_line_36(); }
        if n == 37 { lemma_default_line_37(); }
        if n == 38 { lemma_default_line_38(); }
        if n == 39 { lemma_default_line_39(); }
        if n == 40 { lemma_default_line_40(); }
        if n == 41 { lemma_default_line_41(); }
    }
    lemma_lines_of_joined(ls);
    assert forall|m: int| 0 <= m <= ls.len() implies #[trigger] with_lines(default_view(), ls.take(m)) == default_view() by {
        lemma_with_lines_prefix(ls, m);
    }
    assert(ls.take(ls.len() as int) =~= ls);
}

proof fn lemma_with_lines_prefix(ls: Seq<Seq<char>>, m: int)
    requires
        0 <= m <= ls.len(),
        forall|n: int| 0 <= n < ls.len() ==> with_line(default_view(), #[trigger] ls[n]) == default_view(),
    ensures
        with_lines(default_view(), ls.take(m)) == default_view(),
    decreases m,
{
    if m > 0 {
        lemma_with_lines_prefix(ls, m - 1);
        assert(ls.take(m).drop_last() =~= ls.take(m - 1));
        assert(ls.take(m).last() == ls[m - 1]);
    }
}

/// `dir` joined with the relative path `name`, as `Path::join` does it: a
/// separator goes between them unless `dir` is empty or already ends in
/// one.
pub open spec fn joined(dir: Seq<char>, name: Seq<char>) -> Seq<char> {
    if dir.len() == 0 {
        name
    } else if dir.last() == '/' {
        dir + name
    } else {
        dir.push('/') + name
    }
}

/// `dir` joined with `name`.
pub fn join_path(dir: &str, name: &str) -> (r: String)
    ensures
        r@ == joined(dir@, name@),
{
    let d = chars_of(dir);
    let nm = chars_of(name);
    let mut out = String::new();
    push_range(&mut out, &d, 0, d.len());
    if d.len() > 0 && d[d.len() - 1] != '/' {
        out.push('/');
    }
    push_range(&mut out, &nm, 0, nm.len());
    proof {
        assert(d@.subrange(0, d@.len() as int) =~= d@);
        assert(nm@.subrange(0, nm@.len() as int) =~= nm@);
        assert(Seq::<char>::empty() + d@ =~= d@);
        if d@.len() > 0 {
            assert(d@.last() == d@[d@.len() - 1]);
        }
    }
    out
}

/// The directory that holds rhisperrc, from `$XDG_CONFIG_HOME` when it is
/// set and not empty, else `$HOME/.config`.
pub open spec fn config_dir_of(xdg_config_home: Option<Seq<char>>, home: Option<Seq<char>>) -> Seq<char> {
    let base = match xdg_config_home {
        Some(x) if x.len() > 0 => x,
        _ => (match home {
            Some(h) => h,
            None => Seq::empty(),
        }) + "/.config"@,
    };
    joined(base, "rhisper"@)
}

/// The directory that holds rhisperrc, given `$XDG_CONFIG_HOME` and
/// `$HOME` (each `None` when unset).
pub fn config_dir(xdg_config_home: Option<&str>, home: Option<&str>) -> (r: String)
    ensures
        r@ == config_dir_of(
            match xdg_config_home {
                Some(x) => Some(x@),
                None => None,
            },
            match home {
                Some(h) => Some(h@),
                None => None,
            },
        ),
{
    let base = match xdg_config_home {
        Some(x) if !x.is_empty() => String::from_str(x),
        _ => {
            let mut b = match home {
                Some(h) => String::from_str(h),
                None => String::new(),
            };
            let suffix = chars_of("/.config");
            push_range(&mut b, &suffix, 0, suffix.len());
            proof {
                assert(suffix@.subrange(0, suffix@.len() as int) =~= suffix@);
            }
            b
        },
    };
    join_path(base.as_str(), "rhisper")
}

/// The path of rhisperrc, given `$XDG_CONFIG_HOME` and `$HOME`.
pub fn config_path(xdg_config_home: Option<&str>, home: Option<&str>) -> (r: String)
    ensures
        r@ == joined(
            config_dir_of(
                match xdg_config_home {
                    Some(x) => Some(x@),
                    None => None,
                },
                match home {
                    Some(h) => Some(h@),
                    None => None,
                },
            ),
            "rhisperrc"@,
        ),
{
    let dir = config_dir(xdg_config_home, home);
    join_path(dir.as_str(), "rhisperrc")
}

/// rhisperrc is read line by line, in order: reading the lines `x` and then
/// the lines `y` is reading `x` followed by `y`, so a later line for a key
/// overrides an earlier one.
pub proof fn lemma_with_lines_concat(c: ConfigView, x: Seq<Seq<char>>, y: Seq<Seq<char>>)
    ensures
        with_lines(c, x + y) == with_lines(with_lines(c, x), y),
    decreases y.len(),
{
    if y.len() == 0 {
        assert(x + y =~= x);
    } else {
        assert((x + y).drop_last() =~= x + y.drop_last());
        assert((x + y).last() == y.last());
        lemma_with_lines_concat(c, x, y.drop_last());
    }
}

/// The value of one setting, whichever its type.
pub enum SettingValue {
    Text(Seq<char>),
    Paste(PasteMode),
    Placeholders(Setting),
    Service(Provider),
    Flag(bool),
    Unknown,
}

/// The setting a key names, in `c`.
pub open spec fn field_for(c: ConfigView, key: Seq<char>) -> SettingValue {
    if key == "long-recording-threshold"@ {
        SettingValue::Text(c.long_recording_threshold)
    } else if key == "transcription-prompt"@ {
        SettingValue::Text(c.transcription_prompt)
    } else if key == "language"@ {
        SettingValue::Text(c.language)
    } else if key == "paste-mode"@ {
        SettingValue::Paste(c.paste_mode)
    } else if key == "non-ascii-initial-delay"@ {
        SettingValue::Text(c.non_ascii_initial_delay)
    } else if key == "non-ascii-default-delay"@ {
        SettingValue::Text(c.non_ascii_default_delay)
    } else if key == "keyboard-layout"@ {
        SettingValue::Text(c.keyboard_layout)
    } else if key == "silence-threshold"@ {
        SettingValue::Text(c.silence_threshold)
    } else if key == "min-speech-seconds"@ {
        SettingValue::Text(c.min_speech_seconds)
    } else if key == "placeholders"@ {
        SettingValue::Placeholders(c.placeholders)
    } else if key == "placeholder-recording"@ {
        SettingValue::Text(c.placeholder_recording)
    } else if key == "placeholder-transcribing"@ {
        SettingValue::Text(c.placeholder_transcribing)
    } else if key == "placeholder-silent"@ {
        SettingValue::Text(c.placeholder_silent)
    } else if key == "provider"@ {
        SettingValue::Service(c.provider)
    } else if key == "api-base-url"@ {
        SettingValue::Text(c.api_base_url)
    } else if key == "model"@ {
        SettingValue::Text(c.model)
    } else if key == "audio-device"@ {
        SettingValue::Text(c.audio_device)
    } else if key == "audio-device-fallback"@ {
        SettingValue::Flag(c.audio_device_fallback)
    } else {
        SettingValue::Unknown
    }
}

/// The setting a line of rhisperrc writes, as (key, value): the trimmed
/// text before the line's first colon, and the text after it trimmed and
/// unquoted; nothing for a blank line, a comment, or a line without colon.
pub open spec fn line_setting(line: Seq<char>) -> Option<(Seq<char>, Seq<char>)> {
    let t = trim_start(line);
    if t.len() == 0 || t[0] == '#' {
        None
    } else {
        let i = find_char(line, ':');
        if i >= line.len() {
            None
        } else {
            Some((trim(line.take(i)), trimmed_value(line.skip(i + 1))))
        }
    }
}

/// Whether `line` writes the setting `key`.
pub open spec fn writes(line: Seq<char>, key: Seq<char>) -> bool {
    line_setting(line) matches Some(s) && s.0 == key
}

/// What each setting line does to its own setting: the text settings take
/// the value, the numeric ones take it when it is a number, and each
/// enumerated one takes the variant its value names, its default for any
/// other value.
pub proof fn lemma_setting_effect(c: ConfigView, key: Seq<char>, value: Seq<char>)
    ensures
        key == "long-recording-threshold"@ ==> with_setting(c, key, value).long_recording_threshold == (if is_float_literal(trim(value)) { trim(value) } else { c.long_recording_threshold }),
        key == "transcription-prompt"@ ==> with_setting(c, key, value).transcription_prompt == value,
        key == "language"@ ==> with_setting(c, key, value).language == value,
        key == "paste-mode"@ ==> with_setting(c, key, value).paste_mode == (if value == "clipboard"@ { PasteMode::Clipboard } else if value == "clipboard-restore"@ { PasteMode::ClipboardRestore } else { PasteMode::Type }),
        key == "non-ascii-initial-delay"@ ==> with_setting(c, key, value).non_ascii_initial_delay == (if is_float_literal(trim(value)) { trim(value) } else { c.non_ascii_initial_delay }),
        key == "non-ascii-default-delay"@ ==> with_setting(c, key, value).non_ascii_default_delay == (if is_float_literal(trim(value)) { trim(value) } else { c.non_ascii_default_delay }),
        key == "keyboard-layout"@ ==> with_setting(c, key, value).keyboard_layout == value,
        key == "silence-threshold"@ ==> with_setting(c, key, value).silence_threshold == (if is_float_literal(trim(value)) { trim(value) } else { c.silence_threshold }),
        key == "min-speech-seconds"@ ==> with_setting(c, key, value).min_speech_seconds == (if is_float_literal(trim(value)) { trim(value) } else { c.min_speech_seconds }),
        key == "placeholders"@ ==> with_setting(c, key, value).placeholders == (if value == "inline"@ { Setting::Inline } else if value == "notify"@ { Setting::Notify } else if value == "off"@ { Setting::Off } else { Setting::Auto }),
        key == "placeholder-recording"@ ==> with_setting(c, key, value).placeholder_recording == value,
        key == "placeholder-transcribing"@ ==> with_setting(c, key, value).placeholder_transcribing == value,
        key == "placeholder-silent"@ ==> with_setting(c, key, value).placeholder_silent == value,
        key == "provider"@ ==> with_setting(c, key, value).provider == (if value == "openai"@ { Provider::OpenAi } else if value == "custom"@ { Provider::Custom } else { Provider::Groq }),
        key == "api-base-url"@ ==> with_setting(c, key, value).api_base_url == value,
        key == "model"@ ==> with_setting(c, key, value).model == value,
        key == "audio-device"@ ==> with_setting(c, key, value).audio_device == value,
        key == "audio-device-fallback"@ ==> with_setting(c, key, value).audio_device_fallback == (value != "no"@),
{
    reveal_strlit("long-recording-threshold");
    reveal_strlit("transcription-prompt");
    reveal_strlit("language");
    reveal_strlit("paste-mode");
    reveal_strlit("non-ascii-initial-delay");
    reveal_strlit("non-ascii-default-delay");
    reveal_strlit("keyboard-layout");
    reveal_strlit("silence-threshold");
    reveal_strlit("min-speech-seconds");
    reveal_strlit("placeholders");
    reveal_strlit("placeholder-recording");
    reveal_strlit("placeholder-transcribing");
    reveal_strlit("placeholder-silent");
    reveal_strlit("provider");
    reveal_strlit("api-base-url");
    reveal_strlit("model");
    reveal_strlit("audio-device");
    reveal_strlit("audio-device-fallback");
    if key == "long-recording-threshold"@ {
        
    }
    if key == "transcription-prompt"@ {
        assert("transcription-prompt"@.len() != "long-recording-threshold"@.len());
        assert("transcription-prompt"@ != "long-recording-threshold"@);
    }
    if key == "language"@ {
        assert("language"@.len() != "long-recording-threshold"@.len());
        assert("language"@ != "long-recording-threshold"@);
        assert("language"@.len() != "transcription-prompt"@.len());
        assert("language"@ != "transcription-prompt"@);
    }
    if key == "paste-mode"@ {
        assert("paste-mode"@.len() != "long-recording-threshold"@.len());
        assert("paste-mode"@ != "long-recording-threshold"@);
        assert("paste-mode"@.len() != "transcription-prompt"@.len());
        assert("paste-mode"@ != "transcription-prompt"@);
        assert("paste-mode"@.len() != "language"@.len());
        assert("paste-mode"@ != "language"@);
    }
    if key == "non-ascii-initial-delay"@ {
        assert("non-ascii-initial-delay"@.len() != "long-recording-threshold"@.len());
        assert("non-ascii-initial-delay"@ != "long-recording-threshold"@);
        assert("non-ascii-initial-delay"@.len() != "transcription-prompt"@.len());
        assert("non-ascii-initial-delay"@ != "transcription-prompt"@);
        assert("non-ascii-initial-delay"@.len() != "language"@.len());
        assert("non-ascii-initial-delay"@ != "language"@);
        assert("non-ascii-initial-delay"@.len() != "paste-mode"@.len());
        assert("non-ascii-initial-delay"@ != "paste-mode"@);
    }
    if key == "non-ascii-default-delay"@ {
        assert("non-ascii-default-delay"@.len() != "long-recording-threshold"@.len());
        assert("non-ascii-default-delay"@ != "long-recording-threshold"@);
        assert("non-ascii-default-delay"@.len() != "transcription-prompt"@.len());
        assert("non-ascii-default-delay"@ != "transcription-prompt"@);
        assert("non-ascii-default-delay"@.len() != "language"@.len());
        assert("non-ascii-default-delay"@ != "language"@);
        assert("non-ascii-default-delay"@.len() != "paste-mode"@.len());
        assert("non-ascii-default-delay"@ != "paste-mode"@);
        assert("non-ascii-default-delay"@[10] != "non-ascii-initial-delay"@[10]);
        assert("non-ascii-default-delay"@ != "non-ascii-initial-delay"@);
    }
    if key == "keyboard-layout"@ {
        assert("keyboard-layout"@.len() != "long-recording-threshold"@.len());
        assert("keyboard-layout"@ != "long-recording-threshold"@);
        assert("keyboard-layout"@.len() != "transcription-prompt"@.len());
        assert("keyboard-layout"@ != "transcription-prompt"@);
        assert("keyboard-layout"@.len() != "language"@.len());
        assert("keyboard-layout"@ != "language"@);
        assert("keyboard-layout"@.len() != "paste-mode"@.len());
        assert("keyboard-layout"@ != "paste-mode"@);
        assert("keyboard-layout"@.len() != "non-ascii-initial-delay"@.len());
        assert("keyboard-layout"@ != "non-ascii-initial-delay"@);
        assert("keyboard-layout"@.len() != "non-ascii-default-delay"@.len());
        assert("keyboard-layout"@ != "non-ascii-default-delay"@);
    }
    if key == "silence-threshold"@ {
        assert("silence-threshold"@.len() != "long-recording-threshold"@.len());
        assert("silence-threshold"@ != "long-recording-threshold"@);
        assert("silence-threshold"@.len() != "transcription-prompt"@.len());
        assert("silence-threshold"@ != "transcription-prompt"@);
        assert("silence-threshold"@.len() != "language"@.len());
        assert("silence-threshold"@ != "language"@);
        assert("silence-threshold"@.len() != "paste-mode"@.len());
        assert("silence-threshold"@ != "paste-mode"@);
        assert("silence-threshold"@.len() != "non-ascii-initial-delay"@.len());
        assert("silence-threshold"@ != "non-ascii-initial-delay"@);
        assert("silence-threshold"@.len() != "non-ascii-default-delay"@.len());
        assert("silence-threshold"@ != "non-ascii-default-delay"@);
        assert("silence-threshold"@.len() != "keyboard-layout"@.len());
        assert("silence-threshold"@ != "keyboard-layout"@);
    }
    if key == "min-speech-seconds"@ {
        assert("min-speech-seconds"@.len() != "long-recording-threshold"@.len());
        assert("min-speech-seconds"@ != "long-recording-threshold"@);
        assert("min-speech-seconds"@.len() != "transcription-prompt"@.len());
        assert("min-speech-seconds"@ != "transcription-prompt"@);
        assert("min-speech-seconds"@.len() != "language"@.len());
        assert("min-speech-seconds"@ != "language"@);
        assert("min-speech-seconds"@.len() != "paste-mode"@.len());
        assert("min-speech-seconds"@ != "paste-mode"@);
        assert("min-speech-seconds"@.len() != "non-ascii-initial-delay"@.len());
        assert("min-speech-seconds"@ != "non-ascii-initial-delay"@);
        assert("min-speech-seconds"@.len() != "non-ascii-default-delay"@.len());
        assert("min-speech-seconds"@ != "non-ascii-default-delay"@);
        assert("min-speech-seconds"@.len() != "keyboard-layout"@.len());
        assert("min-speech-seconds"@ != "keyboard-layout"@);
        assert("min-speech-seconds"@.len() != "silence-threshold"@.len());
        assert("min-speech-seconds"@ != "silence-threshold"@);
    }
    if key == "placeholders"@ {
        assert("placeholders"@.len() != "long-recording-threshold"@.len());
        assert("placeholders"@ != "long-recording-threshold"@);
        assert("placeholders"@.len() != "transcription-prompt"@.len());
        assert("placeholders"@ != "transcription-prompt"@);
        assert("placeholders"@.len() != "language"@.len());
        assert("placeholders"@ != "language"@);
        assert("placeholders"@.len() != "paste-mode"@.len());
        assert("placeholders"@ != "paste-mode"@);
        assert("placeholders"@.len() != "non-ascii-initial-delay"@.len());
        assert("placeholders"@ != "non-ascii-initial-delay"@);
        assert("placeholders"@.len() != "non-ascii-default-delay"@.len());
        assert("placeholders"@ != "non-ascii-default-delay"@);
        assert("placeholders"@.len() != "keyboard-layout"@.len());
        assert("placeholders"@ != "keyboard-layout"@);
        assert("placeholders"@.len() != "silence-threshold"@.len());
        assert("placeholders"@ != "silence-threshold"@);
        assert("placeholders"@.len() != "min-speech-seconds"@.len());
        assert("placeholders"@ != "min-speech-seconds"@);
    }
    if key == "placeholder-recording"@ {
        assert("placeholder-recording"@.len() != "long-recording-threshold"@.len());
        assert("placeholder-recording"@ != "long-recording-threshold"@);
        assert("placeholder-recording"@.len() != "transcription-prompt"@.len());
        assert("placeholder-recording"@ != "transcription-prompt"@);
        assert("placeholder-recording"@.len() != "language"@.len());
        assert("placeholder-recording"@ != "language"@);
        assert("placeholder-recording"@.len() != "paste-mode"@.len());
        assert("placeholder-recording"@ != "paste-mode"@);
        assert("placeholder-recording"@.len() != "non-ascii-initial-delay"@.len());
        assert("placeholder-recording"@ != "non-ascii-initial-delay"@);
        assert("placeholder-recording"@.len() != "non-ascii-default-delay"@.len());
        assert("placeholder-recording"@ != "non-ascii-default-delay"@);
        assert("placeholder-recording"@.len() != "keyboard-layout"@.len());
        assert("placeholder-recording"@ != "keyboard-layout"@);
        assert("placeholder-recording"@.len() != "silence-threshold"@.len());
        assert("placeholder-recording"@ != "silence-threshold"@);
        assert("placeholder-recording"@.len() != "min-speech-seconds"@.len());
        assert("placeholder-recording"@ != "min-speech-seconds"@);
        assert("placeholder-recording"@.len() != "placeholders"@.len());
        assert("placeholder-recording"@ != "placeholders"@);
    }
    if key == "placeholder-transcribing"@ {
        assert("placeholder-transcribing"@[0] != "long-recording-threshold"@[0]);
        assert("placeholder-transcribing"@ != "long-recording-threshold"@);
        assert("placeholder-transcribing"@.len() != "transcription-prompt"@.len());
        assert("placeholder-transcribing"@ != "transcription-prompt"@);
        assert("placeholder-transcribing"@.len() != "language"@.len());
        assert("placeholder-transcribing"@ != "language"@);
        assert("placeholder-transcribing"@.len() != "paste-mode"@.len());
        assert("placeholder-transcribing"@ != "paste-mode"@);
        assert("placeholder-transcribing"@.len() != "non-ascii-initial-delay"@.len());
        assert("placeholder-transcribing"@ != "non-ascii-initial-delay"@);
        assert("placeholder-transcribing"@.len() != "non-ascii-default-delay"@.len());
        assert("placeholder-transcribing"@ != "non-ascii-default-delay"@);
        assert("placeholder-transcribing"@.len() != "keyboard-layout"@.len());
        assert("placeholder-transcribing"@ != "keyboard-layout"@);
        assert("placeholder-transcribing"@.len() != "silence-threshold"@.len());
        assert("placeholder-transcribing"@ != "silence-threshold"@);
        assert("placeholder-transcribing"@.len() != "min-speech-seconds"@.len());
        assert("placeholder-transcribing"@ != "min-speech-seconds"@);
        assert("placeholder-transcribing"@.len() != "placeholders"@.len());
        assert("placeholder-transcribing"@ != "placeholders"@);
        assert("placeholder-transcribing"@.len() != "placeholder-recording"@.len());
        assert("placeholder-transcribing"@ != "placeholder-recording"@);
    }
    if key == "placeholder-silent"@ {
        assert("placeholder-silent"@.len() != "long-recording-threshold"@.len());
        assert("placeholder-silent"@ != "long-recording-threshold"@);
        assert("placeholder-silent"@.len() != "transcription-prompt"@.len());
        assert("placeholder-silent"@ != "transcription-prompt"@);
        assert("placeholder-silent"@.len() != "language"@.len());
        assert("placeholder-silent"@ != "language"@);
        assert("placeholder-silent"@.len() != "paste-mode"@.len());
        assert("placeholder-silent"@ != "paste-mode"@);
        assert("placeholder-silent"@.len() != "non-ascii-initial-delay"@.len());
        assert("placeholder-silent"@ != "non-ascii-initial-delay"@);
        assert("placeholder-silent"@.len() != "non-ascii-default-delay"@.len());
        assert("placeholder-silent"@ != "non-ascii-default-delay"@);
        assert("placeholder-silent"@.len() != "keyboard-layout"@.len());
        assert("placeholder-silent"@ != "keyboard-layout"@);
        assert("placeholder-silent"@.len() != "silence-threshold"@.len());
        assert("placeholder-silent"@ != "silence-threshold"@);
        assert("placeholder-silent"@[0] != "min-speech-seconds"@[0]);
        assert("placeholder-silent"@ != "min-speech-seconds"@);
        assert("placeholder-silent"@.len() != "placeholders"@.len());
        assert("placeholder-silent"@ != "placeholders"@);
        assert("placeholder-silent"@.len() != "placeholder-recording"@.len());
        assert("placeholder-silent"@ != "placeholder-recording"@);
        assert("placeholder-silent"@.len() != "placeholder-transcribing"@.len());
        assert("placeholder-silent"@ != "placeholder-transcribing"@);
    }
    if key == "provider"@ {
        assert("provider"@.len() != "long-recording-threshold"@.len());
        assert("provider"@ != "long-recording-threshold"@);
        assert("provider"@.len() != "transcription-prompt"@.len());
        assert("provider"@ != "transcription-prompt"@);
        assert("provider"@[0] != "language"@[0]);
        assert("provider"@ != "language"@);
        assert("provider"@.len() != "paste-mode"@.len());
        assert("provider"@ != "paste-mode"@);
        assert("provider"@.len() != "non-ascii-initial-delay"@.len());
        assert("provider"@ != "non-ascii-initial-delay"@);
        assert("provider"@.len() != "non-ascii-default-delay"@.len());
        assert("provider"@ != "non-ascii-default-delay"@);
        assert("provider"@.len() != "keyboard-layout"@.len());
        assert("provider"@ != "keyboard-layout"@);
        assert("provider"@.len() != "silence-threshold"@.len());
        assert("provider"@ != "silence-threshold"@);
        assert("provider"@.len() != "min-speech-seconds"@.len());
        assert("provider"@ != "min-speech-seconds"@);
        assert("provider"@.len() != "placeholders"@.len());
        assert("provider"@ != "placeholders"@);
        assert("provider"@.len() != "placeholder-recording"@.len());
        assert("provider"@ != "placeholder-recording"@);
        assert("provider"@.len() != "placeholder-transcribing"@.len());
        assert("provider"@ != "placeholder-transcribing"@);
        assert("provider"@.len() != "placeholder-silent"@.len());
        assert("provider"@ != "placeholder-silent"@);
    }
    if key == "api-base-url"@ {
        assert("api-base-url"@.len() != "long-recording-threshold"@.len());
        assert("api-base-url"@ != "long-recording-threshold"@);
        assert("api-base-url"@.len() != "transcription-prompt"@.len());
        assert("api-base-url"@ != "transcription-prompt"@);
        assert("api-base-url"@.len() != "language"@.len());
        assert("api-base-url"@ != "language"@);
        assert("api-base-url"@.len() != "paste-mode"@.len());
        assert("api-base-url"@ != "paste-mode"@);
        assert("api-base-url"@.len() != "non-ascii-initial-delay"@.len());
        assert("api-base-url"@ != "non-ascii-initial-delay"@);
        assert("api-base-url"@.len() != "non-ascii-default-delay"@.len());
        assert("api-base-url"@ != "non-ascii-default-delay"@);
        assert("api-base-url"@.len() != "keyboard-layout"@.len());
        assert("api-base-url"@ != "keyboard-layout"@);
        assert("api-base-url"@.len() != "silence-threshold"@.len());
        assert("api-base-url"@ != "silence-threshold"@);
        assert("api-base-url"@.len() != "min-speech-seconds"@.len());
        assert("api-base-url"@ != "min-speech-seconds"@);
        assert("api-base-url"@[0] != "placeholders"@[0]);
        assert("api-base-url"@ != "placeholders"@);
        assert("api-base-url"@.len() != "placeholder-recording"@.len());
        assert("api-base-url"@ != "placeholder-recording"@);
        assert("api-base-url"@.len() != "placeholder-transcribing"@.len());
        assert("api-base-url"@ != "placeholder-transcribing"@);
        assert("api-base-url"@.len() != "placeholder-silent"@.len());
        assert("api-base-url"@ != "placeholder-silent"@);
        assert("api-base-url"@.len() != "provider"@.len());
        assert("api-base-url"@ != "provider"@);
    }
    if key == "model"@ {
        assert("model"@.len() != "long-recording-threshold"@.len());
        assert("model"@ != "long-recording-threshold"@);
        assert("model"@.len() != "transcription-prompt"@.len());
        assert("model"@ != "transcription-prompt"@);
        assert("model"@.len() != "language"@.len());
        assert("model"@ != "language"@);
        assert("model"@.len() != "paste-mode"@.len());
        assert("model"@ != "paste-mode"@);
        assert("model"@.len() != "non-ascii-initial-delay"@.len());
        assert("model"@ != "non-ascii-initial-delay"@);
        assert("model"@.len() != "non-ascii-default-delay"@.len());
        assert("model"@ != "non-ascii-default-delay"@);
        assert("model"@.len() != "keyboard-layout"@.len());
        assert("model"@ != "keyboard-layout"@);
        assert("model"@.len() != "silence-threshold"@.len());
        assert("model"@ != "silence-threshold"@);
        assert("model"@.len() != "min-speech-seconds"@.len());
        assert("model"@ != "min-speech-seconds"@);
        assert("model"@.len() != "placeholders"@.len());
        assert("model"@ != "placeholders"@);
        assert("model"@.len() != "placeholder-recording"@.len());
        assert("model"@ != "placeholder-recording"@);
        assert("model"@.len() != "placeholder-transcribing"@.len());
        assert("model"@ != "placeholder-transcribing"@);
        assert("model"@.len() != "placeholder-silent"@.len());
        assert("model"@ != "placeholder-silent"@);
        assert("model"@.len() != "provider"@.len());
        assert("model"@ != "provider"@);
        assert("model"@.len() != "api-base-url"@.len());
        assert("model"@ != "api-base-url"@);
    }
    if key == "audio-device"@ {
        assert("audio-device"@.len() != "long-recording-threshold"@.len());
        assert("audio-device"@ != "long-recording-threshold"@);
        assert("audio-device"@.len() != "transcription-prompt"@.len());
        assert("audio-device"@ != "transcription-prompt"@);
        assert("audio-device"@.len() != "language"@.len());
        assert("audio-device"@ != "language"@);
        assert("audio-device"@.len() != "paste-mode"@.len());
        assert("audio-device"@ != "paste-mode"@);
        assert("audio-device"@.len() != "non-ascii-initial-delay"@.len());
        assert("audio-device"@ != "non-ascii-initial-delay"@);
        assert("audio-device"@.len() != "non-ascii-default-delay"@.len());
        assert("audio-device"@ != "non-ascii-default-delay"@);
        assert("audio-device"@.len() != "keyboard-layout"@.len());
        assert("audio-device"@ != "keyboard-layout"@);
        assert("audio-device"@.len() != "silence-threshold"@.len());
        assert("audio-device"@ != "silence-threshold"@);
        assert("audio-device"@.len() != "min-speech-seconds"@.len());
        assert("audio-device"@ != "min-speech-seconds"@);
        assert("audio-device"@[0] != "placeholders"@[0]);
        assert("audio-device"@ != "placeholders"@);
        assert("audio-device"@.len() != "placeholder-recording"@.len());
        assert("audio-device"@ != "placeholder-recording"@);
        assert("audio-device"@.len() != "placeholder-transcribing"@.len());
        assert("audio-device"@ != "placeholder-transcribing"@);
        assert("audio-device"@.len() != "placeholder-silent"@.len());
        assert("audio-device"@ != "placeholder-silent"@);
        assert("audio-device"@.len() != "provider"@.len());
        assert("audio-device"@ != "provider"@);
        assert("audio-device"@[1] != "api-base-url"@[1]);
        assert("audio-device"@ != "api-base-url"@);
        assert("audio-device"@.len() != "model"@.len());
        assert("audio-device"@ != "model"@);
    }
    if key == "audio-device-fallback"@ {
        assert("audio-device-fallback"@.len() != "long-recording-threshold"@.len());
        assert("audio-device-fallback"@ != "long-recording-threshold"@);
        assert("audio-device-fallback"@.len() != "transcription-prompt"@.len());
        assert("audio-device-fallback"@ != "transcription-prompt"@);
        assert("audio-device-fallback"@.len() != "language"@.len());
        assert("audio-device-fallback"@ != "language"@);
        assert("audio-device-fallback"@.len() != "paste-mode"@.len());
        assert("audio-device-fallback"@ != "paste-mode"@);
        assert("audio-device-fallback"@.len() != "non-ascii-initial-delay"@.len());
        assert("audio-device-fallback"@ != "non-ascii-initial-delay"@);
        assert("audio-device-fallback"@.len() != "non-ascii-default-delay"@.len());
        assert("audio-device-fallback"@ != "non-ascii-default-delay"@);
        assert("audio-device-fallback"@.len() != "keyboard-layout"@.len());
        assert("audio-device-fallback"@ != "keyboard-layout"@);
        assert("audio-device-fallback"@.len() != "silence-threshold"@.len());
        assert("audio-device-fallback"@ != "silence-threshold"@);
        assert("audio-device-fallback"@.len() != "min-speech-seconds"@.len());
        assert("audio-device-fallback"@ != "min-speech-seconds"@);
        assert("audio-device-fallback"@.len() != "placeholders"@.len());
        assert("audio-device-fallback"@ != "placeholders"@);
        assert("audio-device-fallback"@[0] != "placeholder-recording"@[0]);
        assert("audio-device-fallback"@ != "placeholder-recording"@);
        assert("audio-device-fallback"@.len() != "placeholder-transcribing"@.len());
        assert("audio-device-fallback"@ != "placeholder-transcribing"@);
        assert("audio-device-fallback"@.len() != "placeholder-silent"@.len());
        assert("audio-device-fallback"@ != "placeholder-silent"@);
        assert("audio-device-fallback"@.len() != "provider"@.len());
        assert("audio-device-fallback"@ != "provider"@);
        assert("audio-device-fallback"@.len() != "api-base-url"@.len());
        assert("audio-device-fallback"@ != "api-base-url"@);
        assert("audio-device-fallback"@.len() != "model"@.len());
        assert("audio-device-fallback"@ != "model"@);
        assert("audio-device-fallback"@.len() != "audio-device"@.len());
        assert("audio-device-fallback"@ != "audio-device"@);
    }
}

/// Writing one setting leaves every other setting as it was.
proof fn lemma_other_settings_stay(c: ConfigView, key: Seq<char>, value: Seq<char>, other: Seq<char>)
    requires
        other != key,
    ensures
        field_for(with_setting(c, key, value), other) == field_for(c, other),
{
}

proof fn lemma_lines_without_key(c: ConfigView, ls: Seq<Seq<char>>, key: Seq<char>)
    requires
        forall|j: int| 0 <= j < ls.len() ==> !writes(#[trigger] ls[j], key),
    ensures
        field_for(with_lines(c, ls), key) == field_for(c, key),
    decreases ls.len(),
{
    if ls.len() > 0 {
        let init = ls.drop_last();
        assert forall|j: int| 0 <= j < init.len() implies !writes(#[trigger] init[j], key) by {
            assert(init[j] == ls[j]);
        }
        lemma_lines_without_key(c, init, key);
        let l = ls.last();
        assert(!writes(ls[ls.len() - 1], key));
        if let Some(s) = line_setting(l) {
            lemma_other_settings_stay(with_lines(c, init), s.0, s.1, key);
        }
    }
}

/// The last line that writes a setting decides it: whatever comes before,
/// and whatever lines for other settings come after, reading rhisperrc
/// gives that setting the value the line names, as
/// [`lemma_setting_effect`] describes.
pub proof fn lemma_last_line_decides(contents: Seq<char>, k: int, key: Seq<char>, value: Seq<char>)
    requires
        0 <= k < lines(contents).len(),
        line_setting(lines(contents)[k]) == Some((key, value)),
        forall|j: int| k < j < lines(contents).len() ==> !writes(#[trigger] lines(contents)[j], key),
    ensures
        key == "long-recording-threshold"@ ==> parsed(contents).long_recording_threshold == (if is_float_literal(trim(value)) { trim(value) } else { with_lines(default_view(), lines(contents).take(k)).long_recording_threshold }),
        key == "transcription-prompt"@ ==> parsed(contents).transcription_prompt == value,
        key == "language"@ ==> parsed(contents).language == value,
        key == "paste-mode"@ ==> parsed(contents).paste_mode == (if value == "clipboard"@ { PasteMode::Clipboard } else if value == "clipboard-restore"@ { PasteMode::ClipboardRestore } else { PasteMode::Type }),
        key == "non-ascii-initial-delay"@ ==> parsed(contents).non_ascii_initial_delay == (if is_float_literal(trim(value)) { trim(value) } else { with_lines(default_view(), lines(contents).take(k)).non_ascii_initial_delay }),
        key == "non-ascii-default-delay"@ ==> parsed(contents).non_ascii_default_delay == (if is_float_literal(trim(value)) { trim(value) } else { with_lines(default_view(), lines(contents).take(k)).non_ascii_default_delay }),
        key == "keyboard-layout"@ ==> parsed(contents).keyboard_layout == value,
        key == "silence-threshold"@ ==> parsed(contents).silence_threshold == (if is_float_literal(trim(value)) { trim(value) } else { with_lines(default_view(), lines(contents).take(k)).silence_threshold }),
        key == "min-speech-seconds"@ ==> parsed(contents).min_speech_seconds == (if is_float_literal(trim(value)) { trim(value) } else { with_lines(default_view(), lines(contents).take(k)).min_speech_seconds }),
        key == "placeholders"@ ==> parsed(contents).placeholders == (if value == "inline"@ { Setting::Inline } else if value == "notify"@ { Setting::Notify } else if value == "off"@ { Setting::Off } else { Setting::Auto }),
        key == "placeholder-recording"@ ==> parsed(contents).placeholder_recording == value,
        key == "placeholder-transcribing"@ ==> parsed(contents).placeholder_transcribing == value,
        key == "placeholder-silent"@ ==> parsed(contents).placeholder_silent == value,
        key == "provider"@ ==> parsed(contents).provider == (if value == "openai"@ { Provider::OpenAi } else if value == "custom"@ { Provider::Custom } else { Provider::Groq }),
        key == "api-base-url"@ ==> parsed(contents).api_base_url == value,
        key == "model"@ ==> parsed(contents).model == value,
        key == "audio-device"@ ==> parsed(contents).audio_device == value,
        key == "audio-device-fallback"@ ==> parsed(contents).audio_device_fallback == (value != "no"@),
{
    let ls = lines(contents);
    let before = with_lines(default_view(), ls.take(k));
    let c1 = with_setting(before, key, value);
    assert(with_line(before, ls[k]) == c1);
    let rest = ls.skip(k + 1);
    assert(ls.take(k + 1).drop_last() =~= ls.take(k));
    assert(ls.take(k + 1).last() == ls[k]);
    assert(ls =~= ls.take(k + 1) + rest);
    lemma_with_lines_concat(default_view(), ls.take(k + 1), rest);
    assert forall|j: int| 0 <= j < rest.len() implies !writes(#[trigger] rest[j], key) by {
        assert(rest[j] == ls[k + 1 + j]);
    }
    lemma_lines_without_key(c1, rest, key);
    lemma_setting_effect(before, key, value);
    let x = parsed(contents);
    assert(field_for(x, key) == field_for(c1, key));
    reveal_strlit("long-recording-threshold");
    reveal_strlit("transcription-prompt");
    reveal_strlit("language");
    reveal_strlit("paste-mode");
    reveal_strlit("non-ascii-initial-delay");
    reveal_strlit("non-ascii-default-delay");
    reveal_strlit("keyboard-layout");
    reveal_strlit("silence-threshold");
    reveal_strlit("min-speech-seconds");
    reveal_strlit("placeholders");
    reveal_strlit("placeholder-recording");
    reveal_strlit("placeholder-transcribing");
    reveal_strlit("placeholder-silent");
    reveal_strlit("provider");
    reveal_strlit("api-base-url");
    reveal_strlit("model");
    reveal_strlit("audio-device");
    reveal_strlit("audio-device-fallback");
    if key == "long-recording-threshold"@ {
            
            assert(field_for(x, key) == SettingValue::Text(x.long_recording_threshold));
        }
    if key == "transcription-prompt"@ {
            assert("transcription-prompt"@.len() != "long-recording-threshold"@.len());
            assert("transcription-prompt"@ != "long-recording-threshold"@);
            assert(field_for(x, key) == SettingValue::Text(x.transcription_prompt));
        }
    if key == "language"@ {
            assert("language"@.len() != "long-recording-threshold"@.len());
            assert("language"@ != "long-recording-threshold"@);
            assert("language"@.len() != "transcription-prompt"@.len());
            assert("language"@ != "transcription-prompt"@);
            assert(field_for(x, key) == SettingValue::Text(x.language));
        }
    if key == "paste-mode"@ {
            assert("paste-mode"@.len() != "long-recording-threshold"@.len());
            assert("paste-mode"@ != "long-recording-threshold"@);
            assert("paste-mode"@.len() != "transcription-prompt"@.len());
            assert("paste-mode"@ != "transcription-prompt"@);
            assert("paste-mode"@.len() != "language"@.len());
            assert("paste-mode"@ != "language"@);
            assert(field_for(x, key) == SettingValue::Paste(x.paste_mode));
        }
    if key == "non-ascii-initial-delay"@ {
            assert("non-ascii-initial-delay"@.len() != "long-recording-threshold"@.len());
            assert("non-ascii-initial-delay"@ != "long-recording-threshold"@);
            assert("non-ascii-initial-delay"@.len() != "transcription-prompt"@.len());
            assert("non-ascii-initial-delay"@ != "transcription-prompt"@);
            assert("non-ascii-initial-delay"@.len() != "language"@.len());
            assert("non-ascii-initial-delay"@ != "language"@);
            assert("non-ascii-initial-delay"@.len() != "paste-mode"@.len());
            assert("non-ascii-initial-delay"@ != "paste-mode"@);
            assert(field_for(x, key) == SettingValue::Text(x.non_ascii_initial_delay));
        }
    if key == "non-ascii-default-delay"@ {
            assert("non-ascii-default-delay"@.len() != "long-recording-threshold"@.len());
            assert("non-ascii-default-delay"@ != "long-recording-threshold"@);
            assert("non-ascii-default-delay"@.len() != "transcription-prompt"@.len());
            assert("non-ascii-default-delay"@ != "transcription-prompt"@);
            assert("non-ascii-default-delay"@.len() != "language"@.len());
            assert("non-ascii-default-delay"@ != "language"@);
            assert("non-ascii-default-delay"@.len() != "paste-mode"@.len());
            assert("non-ascii-default-delay"@ != "paste-mode"@);
            assert("non-ascii-default-delay"@[10] != "non-ascii-initial-delay"@[10]);
            assert("non-ascii-default-delay"@ != "non-ascii-initial-delay"@);
            assert(field_for(x, key) == SettingValue::Text(x.non_ascii_default_delay));
        }
    if key == "keyboard-layout"@ {
            assert("keyboard-layout"@.len() != "long-recording-threshold"@.len());
            assert("keyboard-layout"@ != "long-recording-threshold"@);
            assert("keyboard-layout"@.len() != "transcription-prompt"@.len());
            assert("keyboard-layout"@ != "transcription-prompt"@);
            assert("keyboard-layout"@.len() != "language"@.len());
            assert("keyboard-layout"@ != "language"@);
            assert("keyboard-layout"@.len() != "paste-mode"@.len());
            assert("keyboard-layout"@ != "paste-mode"@);
            assert("keyboard-layout"@.len() != "non-ascii-initial-delay"@.len());
            assert("keyboard-layout"@ != "non-ascii-initial-delay"@);
            assert("keyboard-layout"@.len() != "non-ascii-default-delay"@.len());
            assert("keyboard-layout"@ != "non-ascii-default-delay"@);
            assert(field_for(x, key) == SettingValue::Text(x.keyboard_layout));
        }
    if key == "silence-threshold"@ {
            assert("silence-threshold"@.len() != "long-recording-threshold"@.len());
            assert("silence-threshold"@ != "long-recording-threshold"@);
            assert("silence-threshold"@.len() != "transcription-prompt"@.len());
            assert("silence-threshold"@ != "transcription-prompt"@);
            assert("silence-threshold"@.len() != "language"@.len());
            assert("silence-threshold"@ != "language"@);
            assert("silence-threshold"@.len() != "paste-mode"@.len());
            assert("silence-threshold"@ != "paste-mode"@);
            assert("silence-threshold"@.len() != "non-ascii-initial-delay"@.len());
            assert("silence-threshold"@ != "non-ascii-initial-delay"@);
            assert("silence-threshold"@.len() != "non-ascii-default-delay"@.len());
            assert("silence-threshold"@ != "non-ascii-default-delay"@);
            assert("silence-threshold"@.len() != "keyboard-layout"@.len());
            assert("silence-threshold"@ != "keyboard-layout"@);
            assert(field_for(x, key) == SettingValue::Text(x.silence_threshold));
        }
    if key == "min-speech-seconds"@ {
            assert("min-speech-seconds"@.len() != "long-recording-threshold"@.len());
            assert("min-speech-seconds"@ != "long-recording-threshold"@);
            assert("min-speech-seconds"@.len() != "transcription-prompt"@.len());
            assert("min-speech-seconds"@ != "transcription-prompt"@);
            assert("min-speech-seconds"@.len() != "language"@.len());
            assert("min-speech-seconds"@ != "language"@);
            assert("min-speech-seconds"@.len() != "paste-mode"@.len());
            assert("min-speech-seconds"@ != "paste-mode"@);
            assert("min-speech-seconds"@.len() != "non-ascii-initial-delay"@.len());
            assert("min-speech-seconds"@ != "non-ascii-initial-delay"@);
            assert("min-speech-seconds"@.len() != "non-ascii-default-delay"@.len());
            assert("min-speech-seconds"@ != "non-ascii-default-delay"@);
            assert("min-speech-seconds"@.len() != "keyboard-layout"@.len());
            assert("min-speech-seconds"@ != "keyboard-layout"@);
            assert("min-speech-seconds"@.len() != "silence-threshold"@.len());
            assert("min-speech-seconds"@ != "silence-threshold"@);
            assert(field_for(x, key) == SettingValue::Text(x.min_speech_seconds));
        }
    if key == "placeholders"@ {
            assert("placeholders"@.len() != "long-recording-threshold"@.len());
            assert("placeholders"@ != "long-recording-threshold"@);
            assert("placeholders"@.len() != "transcription-prompt"@.len());
            assert("placeholders"@ != "transcription-prompt"@);
            assert("placeholders"@.len() != "language"@.len());
            assert("placeholders"@ != "language"@);
            assert("placeholders"@.len() != "paste-mode"@.len());
            assert("placeholders"@ != "paste-mode"@);
            assert("placeholders"@.len() != "non-ascii-initial-delay"@.len());
            assert("placeholders"@ != "non-ascii-initial-delay"@);
            assert("placeholders"@.len() != "non-ascii-default-delay"@.len());
            assert("placeholders"@ != "non-ascii-default-delay"@);
            assert("placeholders"@.len() != "keyboard-layout"@.len());
            assert("placeholders"@ != "keyboard-layout"@);
            assert("placeholders"@.len() != "silence-threshold"@.len());
            assert("placeholders"@ != "silence-threshold"@);
            assert("placeholders"@.len() != "min-speech-seconds"@.len());
            assert("placeholders"@ != "min-speech-seconds"@);
            assert(field_for(x, key) == SettingValue::Placeholders(x.placeholders));
        }
    if key == "placeholder-recording"@ {
            assert("placeholder-recording"@.len() != "long-recording-threshold"@.len());
            assert("placeholder-recording"@ != "long-recording-threshold"@);
            assert("placeholder-recording"@.len() != "transcription-prompt"@.len());
            assert("placeholder-recording"@ != "transcription-prompt"@);
            assert("placeholder-recording"@.len() != "language"@.len());
            assert("placeholder-recording"@ != "language"@);
            assert("placeholder-recording"@.len() != "paste-mode"@.len());
            assert("placeholder-recording"@ != "paste-mode"@);
            assert("placeholder-recording"@.len() != "non-ascii-initial-delay"@.len());
            assert("placeholder-recording"@ != "non-ascii-initial-delay"@);
            assert("placeholder-recording"@.len() != "non-ascii-default-delay"@.len());
            assert("placeholder-recording"@ != "non-ascii-default-delay"@);
            assert("placeholder-recording"@.len() != "keyboard-layout"@.len());
            assert("placeholder-recording"@ != "keyboard-layout"@);
            assert("placeholder-recording"@.len() != "silence-threshold"@.len());
            assert("placeholder-recording"@ != "silence-threshold"@);
            assert("placeholder-recording"@.len() != "min-speech-seconds"@.len());
            assert("placeholder-recording"@ != "min-speech-seconds"@);
            assert("placeholder-recording"@.len() != "placeholders"@.len());
            assert("placeholder-recording"@ != "placeholders"@);
            assert(field_for(x, key) == SettingValue::Text(x.placeholder_recording));
        }
    if key == "placeholder-transcribing"@ {
            assert("placeholder-transcribing"@[0] != "long-recording-threshold"@[0]);
            assert("placeholder-transcribing"@ != "long-recording-threshold"@);
            assert("placeholder-transcribing"@.len() != "transcription-prompt"@.len());
            assert("placeholder-transcribing"@ != "transcription-prompt"@);
            assert("placeholder-transcribing"@.len() != "language"@.len());
            assert("placeholder-transcribing"@ != "language"@);
            assert("placeholder-transcribing"@.len() != "paste-mode"@.len());
            assert("placeholder-transcribing"@ != "paste-mode"@);
            assert("placeholder-transcribing"@.len() != "non-ascii-initial-delay"@.len());
            assert("placeholder-transcribing"@ != "non-ascii-initial-delay"@);
            assert("placeholder-transcribing"@.len() != "non-ascii-default-delay"@.len());
            assert("placeholder-transcribing"@ != "non-ascii-default-delay"@);
            assert("placeholder-transcribing"@.len() != "keyboard-layout"@.len());
            assert("placeholder-transcribing"@ != "keyboard-layout"@);
            assert("placeholder-transcribing"@.len() != "silence-threshold"@.len());
            assert("placeholder-transcribing"@ != "silence-threshold"@);
            assert("placeholder-transcribing"@.len() != "min-speech-seconds"@.len());
            assert("placeholder-transcribing"@ != "min-speech-seconds"@);
            assert("placeholder-transcribing"@.len() != "placeholders"@.len());
            assert("placeholder-transcribing"@ != "placeholders"@);
            assert("placeholder-transcribing"@.len() != "placeholder-recording"@.len());
            assert("placeholder-transcribing"@ != "placeholder-recording"@);
            assert(field_for(x, key) == SettingValue::Text(x.placeholder_transcribing));
        }
    if key == "placeholder-silent"@ {
            assert("placeholder-silent"@.len() != "long-recording-threshold"@.len());
            assert("placeholder-silent"@ != "long-recording-threshold"@);
            assert("placeholder-silent"@.len() != "transcription-prompt"@.len());
            assert("placeholder-silent"@ != "transcription-prompt"@);
            assert("placeholder-silent"@.len() != "language"@.len());
            assert("placeholder-silent"@ != "language"@);
            assert("placeholder-silent"@.len() != "paste-mode"@.len());
            assert("placeholder-silent"@ != "paste-mode"@);
            assert("placeholder-silent"@.len() != "non-ascii-initial-delay"@.len());
            assert("placeholder-silent"@ != "non-ascii-initial-delay"@);
            assert("placeholder-silent"@.len() != "non-ascii-default-delay"@.len());
            assert("placeholder-silent"@ != "non-ascii-default-delay"@);
            assert("placeholder-silent"@.len() != "keyboard-layout"@.len());
            assert("placeholder-silent"@ != "keyboard-layout"@);
            assert("placeholder-silent"@.len() != "silence-threshold"@.len());
            assert("placeholder-silent"@ != "silence-threshold"@);
            assert("placeholder-silent"@[0] != "min-speech-seconds"@[0]);
            assert("placeholder-silent"@ != "min-speech-seconds"@);
            assert("placeholder-silent"@.len() != "placeholders"@.len());
            assert("placeholder-silent"@ != "placeholders"@);
            assert("placeholder-silent"@.len() != "placeholder-recording"@.len());
            assert("placeholder-silent"@ != "placeholder-recording"@);
            assert("placeholder-silent"@.len() != "placeholder-transcribing"@.len());
            assert("placeholder-silent"@ != "placeholder-transcribing"@);
            assert(field_for(x, key) == SettingValue::Text(x.placeholder_silent));
        }
    if key == "provider"@ {
            assert("provider"@.len() != "long-recording-threshold"@.len());
            assert("provider"@ != "long-recording-threshold"@);
            assert("provider"@.len() != "transcription-prompt"@.len());
            assert("provider"@ != "transcription-prompt"@);
            assert("provider"@[0] != "language"@[0]);
            assert("provider"@ != "language"@);
            assert("provider"@.len() != "paste-mode"@.len());
            assert("provider"@ != "paste-mode"@);
            assert("provider"@.len() != "non-ascii-initial-delay"@.len());
            assert("provider"@ != "non-ascii-initial-delay"@);
            assert("provider"@.len() != "non-ascii-default-delay"@.len());
            assert("provider"@ != "non-ascii-default-delay"@);
            assert("provider"@.len() != "keyboard-layout"@.len());
            assert("provider"@ != "keyboard-layout"@);
            assert("provider"@.len() != "silence-threshold"@.len());
            assert("provider"@ != "silence-threshold"@);
            assert("provider"@.len() != "min-speech-seconds"@.len());
            assert("provider"@ != "min-speech-seconds"@);
            assert("provider"@.len() != "placeholders"@.len());
            assert("provider"@ != "placeholders"@);
            assert("provider"@.len() != "placeholder-recording"@.len());
            assert("provider"@ != "placeholder-recording"@);
            assert("provider"@.len() != "placeholder-transcribing"@.len());
            assert("provider"@ != "placeholder-transcribing"@);
            assert("provider"@.len() != "placeholder-silent"@.len());
            assert("provider"@ != "placeholder-silent"@);
            assert(field_for(x, key) == SettingValue::Service(x.provider));
        }
    if key == "api-base-url"@ {
            assert("api-base-url"@.len() != "long-recording-threshold"@.len());
            assert("api-base-url"@ != "long-recording-threshold"@);
            assert("api-base-url"@.len() != "transcription-prompt"@.len());
            assert("api-base-url"@ != "transcription-prompt"@);
            assert("api-base-url"@.len() != "language"@.len());
            assert("api-base-url"@ != "language"@);
            assert("api-base-url"@.len() != "paste-mode"@.len());
            assert("api-base-url"@ != "paste-mode"@);
            assert("api-base-url"@.len() != "non-ascii-initial-delay"@.len());
            assert("api-base-url"@ != "non-ascii-initial-delay"@);
            assert("api-base-url"@.len() != "non-ascii-default-delay"@.len());
            assert("api-base-url"@ != "non-ascii-default-delay"@);
            assert("api-base-url"@.len() != "keyboard-layout"@.len());
            assert("api-base-url"@ != "keyboard-layout"@);
            assert("api-base-url"@.len() != "silence-threshold"@.len());
            assert("api-base-url"@ != "silence-threshold"@);
            assert("api-base-url"@.len() != "min-speech-seconds"@.len());
            assert("api-base-url"@ != "min-speech-seconds"@);
            assert("api-base-url"@[0] != "placeholders"@[0]);
            assert("api-base-url"@ != "placeholders"@);
            assert("api-base-url"@.len() != "placeholder-recording"@.len());
            assert("api-base-url"@ != "placeholder-recording"@);
            assert("api-base-url"@.len() != "placeholder-transcribing"@.len());
            assert("api-base-url"@ != "placeholder-transcribing"@);
            assert("api-base-url"@.len() != "placeholder-silent"@.len());
            assert("api-base-url"@ != "placeholder-silent"@);
            assert("api-base-url"@.len() != "provider"@.len());
            assert("api-base-url"@ != "provider"@);
            assert(field_for(x, key) == SettingValue::Text(x.api_base_url));
        }
    if key == "model"@ {
            assert("model"@.len() != "long-recording-threshold"@.len());
            assert("model"@ != "long-recording-threshold"@);
            assert("model"@.len() != "transcription-prompt"@.len());
            assert("model"@ != "transcription-prompt"@);
            assert("model"@.len() != "language"@.len());
            assert("model"@ != "language"@);
            assert("model"@.len() != "paste-mode"@.len());
            assert("model"@ != "paste-mode"@);
            assert("model"@.len() != "non-ascii-initial-delay"@.len());
            assert("model"@ != "non-ascii-initial-delay"@);
            assert("model"@.len() != "non-ascii-default-delay"@.len());
            assert("model"@ != "non-ascii-default-delay"@);
            assert("model"@.len() != "keyboard-layout"@.len());
            assert("model"@ != "keyboard-layout"@);
            assert("model"@.len() != "silence-threshold"@.len());
            assert("model"@ != "silence-threshold"@);
            assert("model"@.len() != "min-speech-seconds"@.len());
            assert("model"@ != "min-speech-seconds"@);
            assert("model"@.len() != "placeholders"@.len());
            assert("model"@ != "placeholders"@);
            assert("model"@.len() != "placeholder-recording"@.len());
            assert("model"@ != "placeholder-recording"@);
            assert("model"@.len() != "placeholder-transcribing"@.len());
            assert("model"@ != "placeholder-transcribing"@);
            assert("model"@.len() != "placeholder-silent"@.len());
            assert("model"@ != "placeholder-silent"@);
            assert("model"@.len() != "provider"@.len());
            assert("model"@ != "provider"@);
            assert("model"@.len() != "api-base-url"@.len());
            assert("model"@ != "api-base-url"@);
            assert(field_for(x, key) == SettingValue::Text(x.model));
        }
    if key == "audio-device"@ {
            assert("audio-device"@.len() != "long-recording-threshold"@.len());
            assert("audio-device"@ != "long-recording-threshold"@);
            assert("audio-device"@.len() != "transcription-prompt"@.len());
            assert("audio-device"@ != "transcription-prompt"@);
            assert("audio-device"@.len() != "language"@.len());
            assert("audio-device"@ != "language"@);
            assert("audio-device"@.len() != "paste-mode"@.len());
            assert("audio-device"@ != "paste-mode"@);
            assert("audio-device"@.len() != "non-ascii-initial-delay"@.len());
            assert("audio-device"@ != "non-ascii-initial-delay"@);
            assert("audio-device"@.len() != "non-ascii-default-delay"@.len());
            assert("audio-device"@ != "non-ascii-default-delay"@);
            assert("audio-device"@.len() != "keyboard-layout"@.len());
            assert("audio-device"@ != "keyboard-layout"@);
            assert("audio-device"@.len() != "silence-threshold"@.len());
            assert("audio-device"@ != "silence-threshold"@);
            assert("audio-device"@.len() != "min-speech-seconds"@.len());
            assert("audio-device"@ != "min-speech-seconds"@);
            assert("audio-device"@[0] != "placeholders"@[0]);
            assert("audio-device"@ != "placeholders"@);
            assert("audio-device"@.len() != "placeholder-recording"@.len());
            assert("audio-device"@ != "placeholder-recording"@);
            assert("audio-device"@.len() != "placeholder-transcribing"@.len());
            assert("audio-device"@ != "placeholder-transcribing"@);
            assert("audio-device"@.len() != "placeholder-silent"@.len());
            assert("audio-device"@ != "placeholder-silent"@);
            assert("audio-device"@.len() != "provider"@.len());
            assert("audio-device"@ != "provider"@);
            assert("audio-device"@[1] != "api-base-url"@[1]);
            assert("audio-device"@ != "api-base-url"@);
            assert("audio-device"@.len() != "model"@.len());
            assert("audio-device"@ != "model"@);
            assert(field_for(x, key) == SettingValue::Text(x.audio_device));
        }
    if key == "audio-device-fallback"@ {
            assert("audio-device-fallback"@.len() != "long-recording-threshold"@.len());
            assert("audio-device-fallback"@ != "long-recording-threshold"@);
            assert("audio-device-fallback"@.len() != "transcription-prompt"@.len());
            assert("audio-device-fallback"@ != "transcription-prompt"@);
            assert("audio-device-fallback"@.len() != "language"@.len());
            assert("audio-device-fallback"@ != "language"@);
            assert("audio-device-fallback"@.len() != "paste-mode"@.len());
            assert("audio-device-fallback"@ != "paste-mode"@);
            assert("audio-device-fallback"@.len() != "non-ascii-initial-delay"@.len());
            assert("audio-device-fallback"@ != "non-ascii-initial-delay"@);
            assert("audio-device-fallback"@.len() != "non-ascii-default-delay"@.len());
            assert("audio-device-fallback"@ != "non-ascii-default-delay"@);
            assert("audio-device-fallback"@.len() != "keyboard-layout"@.len());
            assert("audio-device-fallback"@ != "keyboard-layout"@);
            assert("audio-device-fallback"@.len() != "silence-threshold"@.len());
            assert("audio-device-fallback"@ != "silence-threshold"@);
            assert("audio-device-fallback"@.len() != "min-speech-seconds"@.len());
            assert("audio-device-fallback"@ != "min-speech-seconds"@);
            assert("audio-device-fallback"@.len() != "placeholders"@.len());
            assert("audio-device-fallback"@ != "placeholders"@);
            assert("audio-device-fallback"@[0] != "placeholder-recording"@[0]);
            assert("audio-device-fallback"@ != "placeholder-recording"@);
            assert("audio-device-fallback"@.len() != "placeholder-transcribing"@.len());
            assert("audio-device-fallback"@ != "placeholder-transcribing"@);
            assert("audio-device-fallback"@.len() != "placeholder-silent"@.len());
            assert("audio-device-fallback"@ != "placeholder-silent"@);
            assert("audio-device-fallback"@.len() != "provider"@.len());
            assert("audio-device-fallback"@ != "provider"@);
            assert("audio-device-fallback"@.len() != "api-base-url"@.len());
            assert("audio-device-fallback"@ != "api-base-url"@);
            assert("audio-device-fallback"@.len() != "model"@.len());
            assert("audio-device-fallback"@ != "model"@);
            assert("audio-device-fallback"@.len() != "audio-device"@.len());
            assert("audio-device-fallback"@ != "audio-device"@);
            assert(field_for(x, key) == SettingValue::Flag(x.audio_device_fallback));
        }
}

} // verus!
