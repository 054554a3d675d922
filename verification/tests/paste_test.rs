use rhisper_core::paste::{chunk_for_typing, Chunk};

#[test]
fn empty_input_produces_no_chunks() {
    assert_eq!(chunk_for_typing(""), vec![]);
}

#[test]
fn all_ascii_produces_one_chunk_per_char() {
    let chunks = chunk_for_typing("abc");
    assert_eq!(
        chunks,
        vec![Chunk::Ascii(b'a'), Chunk::Ascii(b'b'), Chunk::Ascii(b'c'),]
    );
}

#[test]
fn all_non_ascii_produces_one_batched_chunk() {
    let chunks = chunk_for_typing("æøå");
    assert_eq!(chunks, vec![Chunk::NonAscii("æøå".to_string())]);
}

#[test]
fn alternating_ascii_and_non_ascii_batches_runs() {
    let chunks = chunk_for_typing("aæøb");
    assert_eq!(
        chunks,
        vec![
            Chunk::Ascii(b'a'),
            Chunk::NonAscii("æø".to_string()),
            Chunk::Ascii(b'b'),
        ]
    );
}

#[test]
fn trailing_non_ascii_run_is_flushed() {
    let chunks = chunk_for_typing("aæø");
    assert_eq!(
        chunks,
        vec![Chunk::Ascii(b'a'), Chunk::NonAscii("æø".to_string())]
    );
}

#[test]
fn control_and_del_are_treated_as_non_ascii() {
    // Only 32-126 is typed directly; everything else (control chars,
    // DEL, and non-ASCII) goes through the clipboard batching path -
    // matches keymap_lookup() returning -1 for those same codes.
    let chunks = chunk_for_typing("a\u{7f}b");
    assert_eq!(
        chunks,
        vec![
            Chunk::Ascii(b'a'),
            Chunk::NonAscii("\u{7f}".to_string()),
            Chunk::Ascii(b'b'),
        ]
    );
}

fn reassemble(chunks: &[Chunk]) -> String {
    let mut out = String::new();
    for c in chunks {
        match c {
            Chunk::Ascii(b) => out.push(*b as char),
            Chunk::NonAscii(s) => out.push_str(s),
        }
    }
    out
}

#[test]
fn chunks_reassemble_to_the_text() {
    for text in ["", "héllo wörld", "\tTab\nnewline", "日本語 and English", "~`!"] {
        assert_eq!(reassemble(&chunk_for_typing(text)), text);
    }
}

#[test]
fn no_two_clipboard_runs_are_adjacent() {
    let chunks = chunk_for_typing("ab\u{1}\u{2}c\u{e9}\u{e8}");
    assert_eq!(
        chunks,
        vec![
            Chunk::Ascii(b'a'),
            Chunk::Ascii(b'b'),
            Chunk::NonAscii("\u{1}\u{2}".to_string()),
            Chunk::Ascii(b'c'),
            Chunk::NonAscii("\u{e9}\u{e8}".to_string()),
        ]
    );
}
