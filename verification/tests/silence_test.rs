use rhisper_core::silence::{parse_silent_intervals, SilentInterval};

fn closed(start: &str, end: &str) -> SilentInterval {
    SilentInterval { start: start.to_string(), end: Some(end.to_string()) }
}

#[test]
fn fully_silent_clip_is_one_closed_interval() {
    let stderr = "[silencedetect @ 0x1] silence_start: 0\n\
                   [silencedetect @ 0x1] silence_end: 5.0 | silence_duration: 5.0\n";
    assert_eq!(parse_silent_intervals(stderr), vec![closed("0", "5.0")]);
}

#[test]
fn trailing_open_silence_runs_to_the_end() {
    let stderr = "[silencedetect @ 0x1] silence_start: 8.0\n";
    assert_eq!(
        parse_silent_intervals(stderr),
        vec![SilentInterval { start: "8.0".to_string(), end: None }]
    );
}

#[test]
fn no_silence_detected_means_no_intervals() {
    assert!(parse_silent_intervals("").is_empty());
    assert!(parse_silent_intervals("Input #0, wav, from '/tmp/rhisper.wav':\n").is_empty());
}

#[test]
fn speech_between_paddings_leaves_two_intervals() {
    let stderr = "[silencedetect @ 0x1] silence_start: 0\n\
                   [silencedetect @ 0x1] silence_end: 2.0 | silence_duration: 2.0\n\
                   [silencedetect @ 0x1] silence_start: 2.3\n\
                   [silencedetect @ 0x1] silence_end: 5.8 | silence_duration: 3.5\n";
    assert_eq!(
        parse_silent_intervals(stderr),
        vec![closed("0", "2.0"), closed("2.3", "5.8")]
    );
}

#[test]
fn an_end_without_a_start_or_a_number_closes_nothing() {
    let stderr = "silence_end: 1.0\n\
                  silence_start: x\n\
                  silence_end: 2.0\n\
                  silence_start: 3\n\
                  silence_end: soon\n";
    assert!(parse_silent_intervals(stderr).is_empty());
}

#[test]
fn crlf_reports_parse_the_same() {
    let stderr = "silence_start: 1\r\nsilence_end: 2 | silence_duration: 1\r\n";
    assert_eq!(parse_silent_intervals(stderr), vec![closed("1", "2")]);
}
