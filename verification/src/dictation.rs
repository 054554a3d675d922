//! What a dictation does at the cursor: how a transcript is pasted in each
//! paste mode, and the sequence of a record/stop toggle.
//!
//! The functions here plan; the caller carries the plan out against the
//! clipboard, the keyboard and the recorder, in order.
use vstd::prelude::*;

use crate::config::{join_path, joined, PasteMode};
use crate::text::{chars_of, find_char, find_char_in, lemma_find_char_bounds, str_eq, string_of, trim, trim_string};
use crate::input::ModifierKey;
use crate::keymap::{keydef, lemma_tables_fit};
use crate::paste::{
    chunk_for_typing, chunk_text, chunk_views, chunks_of, chunks_text, lemma_chunks_reassemble,
    lemma_chunks_well_formed,
    Chunk, ChunkView,
};

verus! {

/// The platform the keystrokes go to.
#[derive(Debug, Clone, Copy, PartialEq, Eq, Structural)]
pub enum Platform {
    /// Keys typed through the uinput daemon, layout by layout.
    Linux,
    /// Unicode text posted directly, whatever the layout.
    MacOs,
}

/// Which configured delay a pause uses.
#[derive(Debug, Clone, Copy, PartialEq, Eq, Structural)]
pub enum Delay {
    /// `non-ascii-initial-delay`.
    Initial,
    /// `non-ascii-default-delay`.
    Default,
}

/// One step of pasting text at the cursor.
#[derive(Debug, Clone, PartialEq, Eq)]
pub enum PasteAction {
    /// Remember the current clipboard text.
    SaveClipboard,
    /// Put this text on the clipboard.
    SetClipboard(String),
    /// Put the remembered text back on the clipboard.
    RestoreClipboard,
    /// Wait for the configured delay.
    Pause(Delay),
    /// Press the paste shortcut.
    PasteShortcut,
    /// Press an input-switch key.
    PressModifier(ModifierKey),
    /// Type one printable ASCII character.
    TypeAscii(u8),
    /// Type a whole string at once.
    TypeText(String),
}

/// A [`PasteAction`] with its text as a character sequence.
pub enum PasteStep {
    SaveClipboard,
    SetClipboard(Seq<char>),
    RestoreClipboard,
    Pause(Delay),
    PasteShortcut,
    PressModifier(ModifierKey),
    TypeAscii(u8),
    TypeText(Seq<char>),
}

impl View for PasteAction {
    type V = PasteStep;

    open spec fn view(&self) -> PasteStep {
        match self {
            PasteAction::SaveClipboard => PasteStep::SaveClipboard,
            PasteAction::SetClipboard(s) => PasteStep::SetClipboard(s@),
            PasteAction::RestoreClipboard => PasteStep::RestoreClipboard,
            PasteAction::Pause(d) => PasteStep::Pause(*d),
            PasteAction::PasteShortcut => PasteStep::PasteShortcut,
            PasteAction::PressModifier(k) => PasteStep::PressModifier(*k),
            PasteAction::TypeAscii(b) => PasteStep::TypeAscii(*b),
            PasteAction::TypeText(s) => PasteStep::TypeText(s@),
        }
    }
}

/// The views of a list of actions.
pub open spec fn step_views(v: Seq<PasteAction>) -> Seq<PasteStep> {
    v.map_values(|a: PasteAction| a@)
}

/// The wrap key press, if there is a wrap key.
pub open spec fn wrap_steps(wrap_key: Option<ModifierKey>) -> Seq<PasteStep> {
    match wrap_key {
        Some(k) => seq![PasteStep::PressModifier(k)],
        None => Seq::empty(),
    }
}

/// Whether every chunk is a single typed character.
pub open spec fn all_typed(cs: Seq<ChunkView>) -> bool {
    forall|i: int| 0 <= i < cs.len() ==> #[trigger] cs[i] is Ascii
}

/// The steps for one chunk: a character is typed; a run of other
/// characters goes to the clipboard and is pasted after the initial delay
/// for the first such run, the default delay for later ones.
pub open spec fn chunk_steps(c: ChunkView, first: bool) -> Seq<PasteStep> {
    match c {
        ChunkView::Ascii(b) => seq![PasteStep::TypeAscii(b)],
        ChunkView::NonAscii(s) => seq![
            PasteStep::SetClipboard(s),
            PasteStep::Pause(if first { Delay::Initial } else { Delay::Default }),
            PasteStep::PasteShortcut,
        ],
    }
}

/// The steps for a list of chunks, in order.
pub open spec fn chunk_plan(cs: Seq<ChunkView>) -> Seq<PasteStep>
    decreases cs.len(),
{
    if cs.len() == 0 {
        Seq::empty()
    } else {
        chunk_plan(cs.drop_last()) + chunk_steps(cs.last(), all_typed(cs.drop_last()))
    }
}

/// How `text` is pasted.
///
/// In the clipboard modes the whole text goes through the clipboard in one
/// paste, `clipboard-restore` putting the earlier clipboard back afterwards.
/// In `type` mode on Linux, printable ASCII is typed key by key and other
/// runs are pasted through the clipboard, which is restored afterwards
/// whenever it was used; on macOS the text is typed in one go. The wrap key,
/// if any, is pressed before and after typing.
pub open spec fn paste_plan(
    mode: PasteMode,
    wrap_key: Option<ModifierKey>,
    text: Seq<char>,
    platform: Platform,
) -> Seq<PasteStep> {
    match mode {
        PasteMode::Type => match platform {
            Platform::MacOs => wrap_steps(wrap_key) + seq![PasteStep::TypeText(text)] + wrap_steps(
                wrap_key,
            ),
            Platform::Linux => seq![PasteStep::SaveClipboard] + wrap_steps(wrap_key) + chunk_plan(
                chunks_of(text),
            ) + wrap_steps(wrap_key) + if all_typed(chunks_of(text)) {
                Seq::empty()
            } else {
                seq![PasteStep::RestoreClipboard]
            },
        },
        _ => {
            let restore = mode == PasteMode::ClipboardRestore;
            (if restore {
                seq![PasteStep::SaveClipboard]
            } else {
                Seq::empty()
            }) + seq![
                PasteStep::SetClipboard(text),
                PasteStep::Pause(Delay::Initial),
                PasteStep::PasteShortcut,
            ] + if restore {
                seq![PasteStep::Pause(Delay::Initial), PasteStep::RestoreClipboard]
            } else {
                Seq::empty()
            }
        },
    }
}

fn append(plan: &mut Vec<PasteAction>, a: PasteAction)
    ensures
        step_views(final(plan)@) == step_views(old(plan)@).push(a@),
{
    let ghost v = a@;
    plan.push(a);
    assert(step_views(plan@) =~= step_views(old(plan)@).push(v));
}

fn add_wrap(plan: &mut Vec<PasteAction>, wrap_key: Option<ModifierKey>)
    ensures
        step_views(final(plan)@) == step_views(old(plan)@) + wrap_steps(wrap_key),
{
    match wrap_key {
        Some(k) => append(plan, PasteAction::PressModifier(k)),
        None => {
            assert(step_views(plan@) =~= step_views(plan@) + wrap_steps(wrap_key));
        },
    }
}

/// The steps that paste `text` in `mode`, wrapped in `wrap_key`, on
/// `platform`.
pub fn plan_paste(mode: PasteMode, wrap_key: Option<ModifierKey>, text: &str, platform: Platform) -> (plan: Vec<PasteAction>)
    ensures
        step_views(plan@) == paste_plan(mode, wrap_key, text@, platform),
{
    let mut plan: Vec<PasteAction> = Vec::new();
    match mode {
        PasteMode::Type => {
            match platform {
                Platform::MacOs => {
                    add_wrap(&mut plan, wrap_key);
                    append(&mut plan, PasteAction::TypeText(String::from_str(text)));
                    add_wrap(&mut plan, wrap_key);
                    assert(step_views(plan@) =~= paste_plan(mode, wrap_key, text@, platform));
                },
                Platform::Linux => {
                    append(&mut plan, PasteAction::SaveClipboard);
                    add_wrap(&mut plan, wrap_key);
                    let ghost head = step_views(plan@);
                    let chunks = chunk_for_typing(text);
                    let ghost cs = chunk_views(chunks@);
                    let mut first = true;
                    let mut i: usize = 0;
                    proof {
                        assert(cs.take(0) =~= Seq::<ChunkView>::empty());
                        assert(step_views(plan@) =~= head + chunk_plan(cs.take(0)));
                    }
                    while i < chunks.len()
                        invariant
                            i <= chunks@.len(),
                            cs == chunk_views(chunks@),
                            cs.len() == chunks@.len(),
                            step_views(plan@) == head + chunk_plan(cs.take(i as int)),
                            first == all_typed(cs.take(i as int)),
                        decreases chunks.len() - i,
                    {
                        let ghost before = step_views(plan@);
                        proof {
                            assert(cs[i as int] == chunks@[i as int]@);
                        }
                        match &chunks[i] {
                            Chunk::Ascii(c) => {
                                append(&mut plan, PasteAction::TypeAscii(*c));
                            },
                            Chunk::NonAscii(s) => {
                                append(&mut plan, PasteAction::SetClipboard(s.clone()));
                                append(&mut plan, PasteAction::Pause(if first { Delay::Initial } else { Delay::Default }));
                                append(&mut plan, PasteAction::PasteShortcut);
                                first = false;
                            },
                        }
                        proof {
                            let t = cs.take(i + 1);
                            assert(t.drop_last() =~= cs.take(i as int));
                            assert(t.last() == cs[i as int]);
                            assert(step_views(plan@) =~= before + chunk_steps(cs[i as int], all_typed(cs.take(i as int))));
                            assert(all_typed(t) == (all_typed(cs.take(i as int)) && cs[i as int] is Ascii)) by {
                                if all_typed(cs.take(i as int)) && cs[i as int] is Ascii {
                                    assert forall|k: int| 0 <= k < t.len() implies #[trigger] t[k] is Ascii by {
                                        if k < i {
                                            assert(t[k] == cs.take(i as int)[k]);
                                        }
                                    }
                                }
                                if all_typed(t) {
                                    assert(t[i as int] is Ascii);
                                    assert forall|k: int| 0 <= k < i implies #[trigger] cs.take(i as int)[k] is Ascii by {
                                        assert(t[k] == cs.take(i as int)[k]);
                                    }
                                }
                            }
                        }
                        i = i + 1;
                    }
                    proof {
                        assert(cs.take(cs.len() as int) =~= cs);
                    }
                    add_wrap(&mut plan, wrap_key);
                    if !first {
                        append(&mut plan, PasteAction::RestoreClipboard);
                    }
                    assert(step_views(plan@) =~= paste_plan(mode, wrap_key, text@, platform));
                },
            }
        },
        _ => {
            let restore = match mode {
                PasteMode::ClipboardRestore => true,
                _ => false,
            };
            if restore {
                append(&mut plan, PasteAction::SaveClipboard);
            }
            append(&mut plan, PasteAction::SetClipboard(String::from_str(text)));
            append(&mut plan, PasteAction::Pause(Delay::Initial));
            append(&mut plan, PasteAction::PasteShortcut);
            if restore {
                append(&mut plan, PasteAction::Pause(Delay::Initial));
                append(&mut plan, PasteAction::RestoreClipboard);
            }
            assert(step_views(plan@) =~= paste_plan(mode, wrap_key, text@, platform));
        },
    }
    plan
}

/// What a paste can change: the clipboard, the text remembered from it,
/// and what has reached the cursor.
pub struct Screen {
    pub clipboard: Seq<char>,
    pub saved: Seq<char>,
    pub typed: Seq<char>,
}

/// The effect of one step.
pub open spec fn after_step(s: Screen, a: PasteStep) -> Screen {
    match a {
        PasteStep::SaveClipboard => Screen { saved: s.clipboard, ..s },
        PasteStep::SetClipboard(t) => Screen { clipboard: t, ..s },
        PasteStep::RestoreClipboard => Screen { clipboard: s.saved, ..s },
        PasteStep::PasteShortcut => Screen { typed: s.typed + s.clipboard, ..s },
        PasteStep::TypeAscii(b) => Screen { typed: s.typed + seq![(b as u32) as char], ..s },
        PasteStep::TypeText(t) => Screen { typed: s.typed + t, ..s },
        PasteStep::Pause(_) => s,
        PasteStep::PressModifier(_) => s,
    }
}

/// The effect of a list of steps, in order.
pub open spec fn after_steps(s: Screen, plan: Seq<PasteStep>) -> Screen
    decreases plan.len(),
{
    if plan.len() == 0 {
        s
    } else {
        after_step(after_steps(s, plan.drop_last()), plan.last())
    }
}

proof fn lemma_after_steps_concat(s: Screen, a: Seq<PasteStep>, b: Seq<PasteStep>)
    ensures
        after_steps(s, a + b) == after_steps(after_steps(s, a), b),
    decreases b.len(),
{
    if b.len() == 0 {
        assert(a + b =~= a);
    } else {
        assert((a + b).drop_last() =~= a + b.drop_last());
        assert((a + b).last() == b.last());
        lemma_after_steps_concat(s, a, b.drop_last());
    }
}

proof fn lemma_wrap_steps_no_effect(s: Screen, wrap_key: Option<ModifierKey>)
    ensures
        after_steps(s, wrap_steps(wrap_key)) == s,
{
    reveal_with_fuel(after_steps, 2);
    if let Some(k) = wrap_key {
        assert(wrap_steps(wrap_key).drop_last() =~= Seq::<PasteStep>::empty());
    }
}

proof fn lemma_chunks_text_last(cs: Seq<ChunkView>)
    requires
        cs.len() > 0,
    ensures
        chunks_text(cs) == chunks_text(cs.drop_last()) + chunk_text(cs.last()),
    decreases cs.len(),
{
    if cs.len() == 1 {
        assert(cs.drop_last() =~= Seq::<ChunkView>::empty());
        assert(cs.drop_first() =~= Seq::<ChunkView>::empty());
        assert(chunk_text(cs[0]) + Seq::<char>::empty() =~= chunk_text(cs[0]));
        assert(Seq::<char>::empty() + chunk_text(cs[0]) =~= chunk_text(cs[0]));
    } else {
        let t = cs.drop_first();
        lemma_chunks_text_last(t);
        assert(t.drop_last() =~= cs.drop_last().drop_first());
        assert(cs.drop_last()[0] == cs[0]);
        assert(t.last() == cs.last());
        assert(chunk_text(cs[0]) + (chunks_text(t.drop_last()) + chunk_text(t.last())) =~= (chunk_text(cs[0]) + chunks_text(t.drop_last())) + chunk_text(t.last()));
    }
}

/// Typing the chunks of a text reproduces it and keeps the remembered
/// clipboard; the clipboard itself changes only when a chunk went through
/// it.
proof fn lemma_chunk_plan_effect(s: Screen, cs: Seq<ChunkView>)
    ensures
        after_steps(s, chunk_plan(cs)).typed == s.typed + chunks_text(cs),
        after_steps(s, chunk_plan(cs)).saved == s.saved,
        all_typed(cs) ==> after_steps(s, chunk_plan(cs)).clipboard == s.clipboard,
    decreases cs.len(),
{
    reveal_with_fuel(after_steps, 4);
    if cs.len() == 0 {
        assert(s.typed + Seq::<char>::empty() =~= s.typed);
    } else {
        let init = cs.drop_last();
        lemma_chunk_plan_effect(s, init);
        lemma_after_steps_concat(s, chunk_plan(init), chunk_steps(cs.last(), all_typed(init)));
        lemma_chunks_text_last(cs);
        let m = after_steps(s, chunk_plan(init));
        let st = chunk_steps(cs.last(), all_typed(init));
        match cs.last() {
            ChunkView::Ascii(b) => {
                assert(st.drop_last() =~= Seq::<PasteStep>::empty());
            },
            ChunkView::NonAscii(t) => {
                assert(st.drop_last().drop_last().drop_last() =~= Seq::<PasteStep>::empty());
                assert(st.drop_last().drop_last() =~= seq![PasteStep::SetClipboard(t)]);
                assert(st.drop_last() =~= seq![PasteStep::SetClipboard(t), st[1]]);
                assert(!all_typed(cs)) by {
                    assert(!(cs[cs.len() - 1] is Ascii));
                }
            },
        }
        assert(m.typed + chunk_text(cs.last()) =~= s.typed + chunks_text(cs)) by {
            assert(s.typed + chunks_text(init) + chunk_text(cs.last()) =~= s.typed + (chunks_text(init) + chunk_text(cs.last())));
        }
        if all_typed(cs) {
            assert forall|k: int| 0 <= k < init.len() implies #[trigger] init[k] is Ascii by {
                assert(init[k] == cs[k]);
            }
            assert(cs[cs.len() - 1] is Ascii);
        }
    }
}

/// What reaches the cursor is exactly the text, in every paste mode and on
/// every platform, whatever the clipboard held before.
pub proof fn lemma_paste_delivers_text(
    mode: PasteMode,
    wrap_key: Option<ModifierKey>,
    text: Seq<char>,
    platform: Platform,
    s: Screen,
)
    ensures
        after_steps(s, paste_plan(mode, wrap_key, text, platform)).typed == s.typed + text,
{
    lemma_paste_effect(mode, wrap_key, text, platform, s);
}

/// The clipboard after pasting: the text itself in `clipboard` mode, and
/// what it held before in `clipboard-restore` mode and in `type` mode.
pub proof fn lemma_paste_clipboard(
    mode: PasteMode,
    wrap_key: Option<ModifierKey>,
    text: Seq<char>,
    platform: Platform,
    s: Screen,
)
    ensures
        after_steps(s, paste_plan(mode, wrap_key, text, platform)).clipboard == if mode
            == PasteMode::Clipboard {
            text
        } else {
            s.clipboard
        },
{
    lemma_paste_effect(mode, wrap_key, text, platform, s);
}

proof fn lemma_paste_effect(
    mode: PasteMode,
    wrap_key: Option<ModifierKey>,
    text: Seq<char>,
    platform: Platform,
    s: Screen,
)
    ensures
        after_steps(s, paste_plan(mode, wrap_key, text, platform)).typed == s.typed + text,
        after_steps(s, paste_plan(mode, wrap_key, text, platform)).clipboard == if mode
            == PasteMode::Clipboard {
            text
        } else {
            s.clipboard
        },
{
    reveal_with_fuel(after_steps, 4);
    let w = wrap_steps(wrap_key);
    let plan = paste_plan(mode, wrap_key, text, platform);
    match mode {
        PasteMode::Type => {
            match platform {
                Platform::MacOs => {
                    let mid = seq![PasteStep::TypeText(text)];
                    lemma_after_steps_concat(s, w + mid, w);
                    lemma_after_steps_concat(s, w, mid);
                    lemma_wrap_steps_no_effect(s, wrap_key);
                    assert(mid.drop_last() =~= Seq::<PasteStep>::empty());
                    let s1 = after_steps(s, w + mid);
                    lemma_wrap_steps_no_effect(s1, wrap_key);
                },
                Platform::Linux => {
                    let cs = chunks_of(text);
                    let save = seq![PasteStep::SaveClipboard];
                    let tail = if all_typed(cs) {
                        Seq::<PasteStep>::empty()
                    } else {
                        seq![PasteStep::RestoreClipboard]
                    };
                    let p1 = save + w;
                    let p2 = p1 + chunk_plan(cs);
                    let p3 = p2 + w;
                    assert(plan == p3 + tail);
                    lemma_after_steps_concat(s, p3, tail);
                    lemma_after_steps_concat(s, p2, w);
                    lemma_after_steps_concat(s, p1, chunk_plan(cs));
                    lemma_after_steps_concat(s, save, w);
                    assert(save.drop_last() =~= Seq::<PasteStep>::empty());
                    let s0 = after_steps(s, save);
                    assert(s0 == Screen { saved: s.clipboard, ..s });
                    lemma_wrap_steps_no_effect(s0, wrap_key);
                    lemma_chunk_plan_effect(s0, cs);
                    lemma_chunks_reassemble(text);
                    let s2 = after_steps(s, p2);
                    lemma_wrap_steps_no_effect(s2, wrap_key);
                    if !all_typed(cs) {
                        assert(tail.drop_last() =~= Seq::<PasteStep>::empty());
                    }
                },
            }
        },
        _ => {
            let restore = mode == PasteMode::ClipboardRestore;
            let head = if restore {
                seq![PasteStep::SaveClipboard]
            } else {
                Seq::<PasteStep>::empty()
            };
            let mid = seq![
                PasteStep::SetClipboard(text),
                PasteStep::Pause(Delay::Initial),
                PasteStep::PasteShortcut,
            ];
            let tail = if restore {
                seq![PasteStep::Pause(Delay::Initial), PasteStep::RestoreClipboard]
            } else {
                Seq::<PasteStep>::empty()
            };
            assert(plan == head + mid + tail);
            lemma_after_steps_concat(s, head + mid, tail);
            lemma_after_steps_concat(s, head, mid);
            if restore {
                assert(head.drop_last() =~= Seq::<PasteStep>::empty());
                assert(tail.drop_last().drop_last() =~= Seq::<PasteStep>::empty());
            }
            assert(mid.drop_last().drop_last().drop_last() =~= Seq::<PasteStep>::empty());
            assert(mid.drop_last().drop_last() =~= seq![PasteStep::SetClipboard(text)]);
            assert(mid.drop_last() =~= seq![PasteStep::SetClipboard(text), PasteStep::Pause(Delay::Initial)]);
            if restore {
                assert(tail.drop_last() =~= seq![PasteStep::Pause(Delay::Initial)]);
            }
        },
    }
}

/// Which status text an action shows or clears.
#[derive(Debug, Clone, Copy, PartialEq, Eq, Structural)]
pub enum StatusKind {
    /// `placeholder-recording`.
    Recording,
    /// `placeholder-transcribing`.
    Transcribing,
    /// `placeholder-silent`.
    Silent,
    /// The transcription-failed notice.
    Failed,
}

/// What happened, for the toggle to decide its next actions.
#[derive(Debug, Clone, Copy, PartialEq, Eq, Structural)]
pub enum ToggleEvent {
    /// An invocation began; `recording` tells whether a recording of ours
    /// is running.
    Invoked { recording: bool },
    /// The silence check of the finished recording came back.
    SilenceChecked { silent: bool },
    /// The transcription request came back, successful or not.
    Transcribed { ok: bool },
}

/// One step of the record/stop toggle.
#[derive(Debug, Clone, Copy, PartialEq, Eq, Structural)]
pub enum ToggleAction {
    /// Stop the running recorder.
    StopRecorder,
    /// Wait this many milliseconds.
    WaitMillis(u64),
    /// Show a status that a later step clears.
    ShowStatus(StatusKind),
    /// Remove a status shown earlier.
    ClearStatus(StatusKind),
    /// Show a status that goes away on its own.
    ShowFinal(StatusKind),
    /// Check the recording for speech; answered by `SilenceChecked`.
    CheckSilence,
    /// Log that the recording held no speech.
    LogSilence,
    /// Send the recording for transcription; answered by `Transcribed`.
    Transcribe,
    /// Log the transcript.
    LogTranscript,
    /// Log the transcription error.
    LogFailure,
    /// Paste the transcript at the cursor.
    PasteTranscript,
    /// Delete the recording file.
    RemoveRecording,
    /// Start the recorder and wait until a later invocation stops it.
    StartRecorder,
}

/// The actions that follow an event.
///
/// A second invocation stops the recording, lets it flush, clears the
/// recording status and checks for speech; a recording without speech gets
/// the no-sound notice, any other is transcribed, and either way the
/// recording file goes. A first invocation shows the recording status and
/// starts the recorder.
pub open spec fn toggle_steps(event: ToggleEvent) -> Seq<ToggleAction> {
    match event {
        ToggleEvent::Invoked { recording } => if recording {
            seq![
                ToggleAction::StopRecorder,
                ToggleAction::WaitMillis(200),
                ToggleAction::ClearStatus(StatusKind::Recording),
                ToggleAction::CheckSilence,
            ]
        } else {
            seq![
                ToggleAction::WaitMillis(200),
                ToggleAction::ShowStatus(StatusKind::Recording),
                ToggleAction::StartRecorder,
            ]
        },
        ToggleEvent::SilenceChecked { silent } => if silent {
            seq![
                ToggleAction::LogSilence,
                ToggleAction::ShowFinal(StatusKind::Silent),
                ToggleAction::RemoveRecording,
            ]
        } else {
            seq![ToggleAction::ShowStatus(StatusKind::Transcribing), ToggleAction::Transcribe]
        },
        ToggleEvent::Transcribed { ok } => if ok {
            seq![
                ToggleAction::ClearStatus(StatusKind::Transcribing),
                ToggleAction::LogTranscript,
                ToggleAction::PasteTranscript,
                ToggleAction::RemoveRecording,
            ]
        } else {
            seq![
                ToggleAction::ClearStatus(StatusKind::Transcribing),
                ToggleAction::LogFailure,
                ToggleAction::ShowFinal(StatusKind::Failed),
                ToggleAction::RemoveRecording,
            ]
        },
    }
}

/// The actions that follow `event`.
pub fn toggle_next(event: ToggleEvent) -> (actions: Vec<ToggleAction>)
    ensures
        actions@ == toggle_steps(event),
{
    let v = match event {
        ToggleEvent::Invoked { recording } => if recording {
            vec![
                ToggleAction::StopRecorder,
                ToggleAction::WaitMillis(200),
                ToggleAction::ClearStatus(StatusKind::Recording),
                ToggleAction::CheckSilence,
            ]
        } else {
            vec![
                ToggleAction::WaitMillis(200),
                ToggleAction::ShowStatus(StatusKind::Recording),
                ToggleAction::StartRecorder,
            ]
        },
        ToggleEvent::SilenceChecked { silent } => if silent {
            vec![
                ToggleAction::LogSilence,
                ToggleAction::ShowFinal(StatusKind::Silent),
                ToggleAction::RemoveRecording,
            ]
        } else {
            vec![ToggleAction::ShowStatus(StatusKind::Transcribing), ToggleAction::Transcribe]
        },
        ToggleEvent::Transcribed { ok } => if ok {
            vec![
                ToggleAction::ClearStatus(StatusKind::Transcribing),
                ToggleAction::LogTranscript,
                ToggleAction::PasteTranscript,
                ToggleAction::RemoveRecording,
            ]
        } else {
            vec![
                ToggleAction::ClearStatus(StatusKind::Transcribing),
                ToggleAction::LogFailure,
                ToggleAction::ShowFinal(StatusKind::Failed),
                ToggleAction::RemoveRecording,
            ]
        },
    };
    assert(v@ =~= toggle_steps(event));
    v
}

/// Everything a stopping invocation does, given the answers of the
/// silence check and of the transcription.
pub open spec fn stop_run(silent: bool, ok: bool) -> Seq<ToggleAction> {
    toggle_steps(ToggleEvent::Invoked { recording: true }) + toggle_steps(
        ToggleEvent::SilenceChecked { silent },
    ) + if silent {
        Seq::empty()
    } else {
        toggle_steps(ToggleEvent::Transcribed { ok })
    }
}

/// A stopping invocation deletes the recording exactly once, as its last
/// action; pastes a transcript exactly when there was speech and the
/// transcription succeeded; clears every status it shows; and clears the
/// recording status the starting invocation showed before it shows any
/// other.
pub proof fn lemma_stop_run(silent: bool, ok: bool)
    ensures
        stop_run(silent, ok).last() == ToggleAction::RemoveRecording,
        forall|i: int|
            0 <= i < stop_run(silent, ok).len() - 1 ==> #[trigger] stop_run(silent, ok)[i]
                != ToggleAction::RemoveRecording,
        stop_run(silent, ok).contains(ToggleAction::PasteTranscript) <==> (!silent && ok),
        forall|i: int|
            0 <= i < stop_run(silent, ok).len() ==> (#[trigger] stop_run(silent, ok)[i] matches ToggleAction::ShowStatus(k) ==> exists|j: int|
                i < j < stop_run(silent, ok).len() && stop_run(silent, ok)[j]
                    == ToggleAction::ClearStatus(k)),
        toggle_steps(ToggleEvent::Invoked { recording: false }).contains(
            ToggleAction::ShowStatus(StatusKind::Recording),
        ),
        stop_run(silent, ok)[2] == ToggleAction::ClearStatus(StatusKind::Recording),
        forall|i: int|
            0 <= i < 2 ==> !(#[trigger] stop_run(silent, ok)[i] is ShowStatus || stop_run(
                silent,
                ok,
            )[i] is ShowFinal),
{
    let s = stop_run(silent, ok);
    let start = toggle_steps(ToggleEvent::Invoked { recording: false });
    assert(start[1] == ToggleAction::ShowStatus(StatusKind::Recording));
    if silent {
        assert(s =~= seq![
            ToggleAction::StopRecorder,
            ToggleAction::WaitMillis(200),
            ToggleAction::ClearStatus(StatusKind::Recording),
            ToggleAction::CheckSilence,
            ToggleAction::LogSilence,
            ToggleAction::ShowFinal(StatusKind::Silent),
            ToggleAction::RemoveRecording,
        ]);
    } else if ok {
        assert(s =~= seq![
            ToggleAction::StopRecorder,
            ToggleAction::WaitMillis(200),
            ToggleAction::ClearStatus(StatusKind::Recording),
            ToggleAction::CheckSilence,
            ToggleAction::ShowStatus(StatusKind::Transcribing),
            ToggleAction::Transcribe,
            ToggleAction::ClearStatus(StatusKind::Transcribing),
            ToggleAction::LogTranscript,
            ToggleAction::PasteTranscript,
            ToggleAction::RemoveRecording,
        ]);
        assert(s[8] == ToggleAction::PasteTranscript);
        assert forall|i: int| 0 <= i < s.len() implies (#[trigger] s[i] matches ToggleAction::ShowStatus(k) ==> exists|j: int| i < j < s.len() && s[j] == ToggleAction::ClearStatus(k)) by {
            assert(s[6] == ToggleAction::ClearStatus(StatusKind::Transcribing));
        }
    } else {
        assert(s =~= seq![
            ToggleAction::StopRecorder,
            ToggleAction::WaitMillis(200),
            ToggleAction::ClearStatus(StatusKind::Recording),
            ToggleAction::CheckSilence,
            ToggleAction::ShowStatus(StatusKind::Transcribing),
            ToggleAction::Transcribe,
            ToggleAction::ClearStatus(StatusKind::Transcribing),
            ToggleAction::LogFailure,
            ToggleAction::ShowFinal(StatusKind::Failed),
            ToggleAction::RemoveRecording,
        ]);
        assert forall|i: int| 0 <= i < s.len() implies (#[trigger] s[i] matches ToggleAction::ShowStatus(k) ==> exists|j: int| i < j < s.len() && s[j] == ToggleAction::ClearStatus(k)) by {
            assert(s[6] == ToggleAction::ClearStatus(StatusKind::Transcribing));
        }
    }
}

/// The flags that ask for an input-switch key around the typing.
#[derive(Debug, Clone, Copy, PartialEq, Eq)]
pub struct WrapFlags {
    pub leftalt: bool,
    pub rightalt: bool,
    pub leftctrl: bool,
    pub rightctrl: bool,
    pub leftshift: bool,
    pub rightshift: bool,
    pub super_key: bool,
}

/// More than one wrap key was asked for.
#[derive(Debug, Clone, Copy, PartialEq, Eq)]
pub struct MultipleWrapKeys;

impl MultipleWrapKeys {
    /// The message for the user.
    pub fn message(&self) -> (s: String)
        ensures
            s@ == "Error: Multiple wrap keys not yet supported"@,
    {
        String::from_str("Error: Multiple wrap keys not yet supported")
    }
}

/// The flags as (set, key) pairs, in the order the options are listed.
pub open spec fn flag_list(f: WrapFlags) -> Seq<(bool, ModifierKey)> {
    seq![
        (f.leftalt, ModifierKey::LeftAlt),
        (f.rightalt, ModifierKey::RightAlt),
        (f.leftctrl, ModifierKey::LeftCtrl),
        (f.rightctrl, ModifierKey::RightCtrl),
        (f.leftshift, ModifierKey::LeftShift),
        (f.rightshift, ModifierKey::RightShift),
        (f.super_key, ModifierKey::Super),
    ]
}

/// The keys whose flags are set, in order.
pub open spec fn chosen_keys(l: Seq<(bool, ModifierKey)>) -> Seq<ModifierKey>
    decreases l.len(),
{
    if l.len() == 0 {
        Seq::empty()
    } else {
        chosen_keys(l.drop_last()) + if l.last().0 {
            seq![l.last().1]
        } else {
            Seq::empty()
        }
    }
}

/// The wrap key: none when no flag is set, the key when one is, an error
/// when several are.
pub open spec fn wrap_key_of(f: WrapFlags) -> Result<Option<ModifierKey>, MultipleWrapKeys> {
    let keys = chosen_keys(flag_list(f));
    if keys.len() == 0 {
        Ok(None)
    } else if keys.len() == 1 {
        Ok(Some(keys[0]))
    } else {
        Err(MultipleWrapKeys)
    }
}

/// The one input-switch key asked for, if any.
pub fn resolve_wrap_key(flags: WrapFlags) -> (r: Result<Option<ModifierKey>, MultipleWrapKeys>)
    ensures
        r == wrap_key_of(flags),
{
    let list = vec![
        (flags.leftalt, ModifierKey::LeftAlt),
        (flags.rightalt, ModifierKey::RightAlt),
        (flags.leftctrl, ModifierKey::LeftCtrl),
        (flags.rightctrl, ModifierKey::RightCtrl),
        (flags.leftshift, ModifierKey::LeftShift),
        (flags.rightshift, ModifierKey::RightShift),
        (flags.super_key, ModifierKey::Super),
    ];
    assert(list@ =~= flag_list(flags));
    let mut set: Vec<ModifierKey> = Vec::new();
    let mut i: usize = 0;
    proof {
        assert(list@.take(0) =~= Seq::<(bool, ModifierKey)>::empty());
    }
    while i < list.len()
        invariant
            i <= list@.len(),
            list@ == flag_list(flags),
            set@ == chosen_keys(list@.take(i as int)),
        decreases list.len() - i,
    {
        let (on, key) = list[i];
        if on {
            set.push(key);
        }
        proof {
            assert(list@.take(i + 1).drop_last() =~= list@.take(i as int));
            assert(set@ =~= chosen_keys(list@.take(i + 1)));
        }
        i = i + 1;
    }
    proof {
        assert(list@.take(7) =~= list@);
    }
    if set.len() == 0 {
        Ok(None)
    } else if set.len() == 1 {
        Ok(Some(set[0]))
    } else {
        Err(MultipleWrapKeys)
    }
}

/// What to do about the daemon before typing.
#[derive(Debug, Clone, Copy, PartialEq, Eq, Structural)]
pub enum DaemonPlan {
    /// It runs with the configured layout.
    KeepRunning,
    /// It runs with another layout: stop it, then start it anew (it reads
    /// the layout only at startup).
    Restart,
    /// It does not run: start it.
    Start,
}

/// What to do about the daemon, given whether it runs, the layout file it
/// wrote, and the configured layout.
pub fn daemon_plan(alive: bool, layout_file: &str, layout: &str) -> (r: DaemonPlan)
    ensures
        r == (if !alive {
            DaemonPlan::Start
        } else if trim(layout_file@) == layout@ {
            DaemonPlan::KeepRunning
        } else {
            DaemonPlan::Restart
        }),
{
    if !alive {
        return DaemonPlan::Start;
    }
    let running = trim_string(layout_file);
    if str_eq(running.as_str(), layout) {
        DaemonPlan::KeepRunning
    } else {
        DaemonPlan::Restart
    }
}

/// The helper binary to run: next to this binary with `--local` (when its
/// directory is known), else looked up by name.
pub fn tool_path(name: &str, local: bool, exe_dir: Option<&str>) -> (r: String)
    ensures
        r@ == (match exe_dir {
            Some(d) if local => joined(d@, name@),
            _ => name@,
        }),
{
    match exe_dir {
        Some(d) if local => join_path(d, name),
        _ => String::from_str(name),
    }
}

/// `s` split at every `c`, as `str::split` gives it.
pub open spec fn split_on(s: Seq<char>, c: char) -> Seq<Seq<char>>
    decreases s.len(),
{
    let i = find_char(s, c);
    if i >= s.len() {
        seq![s]
    } else {
        proof {
            lemma_find_char_bounds(s, c);
        }
        seq![s.take(i)] + split_on(s.skip(i + 1), c)
    }
}

/// Where to look for a binary: the path itself when it holds a `/`, else
/// the name in each directory of `$PATH`, in order (nowhere when `$PATH` is
/// unset).
pub open spec fn binary_candidates_of(path_or_name: Seq<char>, path_var: Option<Seq<char>>) -> Seq<Seq<char>> {
    if path_or_name.contains('/') {
        seq![path_or_name]
    } else {
        match path_var {
            Some(p) => split_on(p, ':').map_values(|dir: Seq<char>| joined(dir, path_or_name)),
            None => Seq::empty(),
        }
    }
}

/// The paths to check for `path_or_name`, given `$PATH`.
pub fn binary_candidates(path_or_name: &str, path_var: Option<&str>) -> (r: Vec<String>)
    ensures
        r@.map_values(|s: String| s@) == binary_candidates_of(
            path_or_name@,
            match path_var {
                Some(p) => Some(p@),
                None => None,
            },
        ),
{
    let name = chars_of(path_or_name);
    let slash = find_char_in(&name, 0, name.len(), '/');
    proof {
        assert(name@.subrange(0, name@.len() as int) =~= name@);
        lemma_find_char_bounds(name@, '/');
        if slash < name.len() {
            assert(name@.contains('/'));
        } else {
            assert(!name@.contains('/')) by {
                if name@.contains('/') {
                    let k = choose|k: int| 0 <= k < name@.len() && name@[k] == '/';
                    assert(name@[k] != '/');
                }
            }
        }
    }
    let mut r: Vec<String> = Vec::new();
    if slash < name.len() {
        r.push(String::from_str(path_or_name));
        assert(r@.map_values(|s: String| s@) =~= seq![path_or_name@]);
        return r;
    }
    match path_var {
        None => {
            assert(r@.map_values(|s: String| s@) =~= Seq::<Seq<char>>::empty());
            r
        },
        Some(p) => {
            let v = chars_of(p);
            let n = v.len();
            let mut pos: usize = 0;
            let ghost all = split_on(p@, ':');
            proof {
                assert(v@.subrange(0, n as int) =~= v@);
                assert(r@.map_values(|s: String| s@) + split_on(v@.subrange(0, n as int), ':').map_values(|dir: Seq<char>| joined(dir, path_or_name@)) =~= all.map_values(|dir: Seq<char>| joined(dir, path_or_name@)));
            }
            loop
                invariant
                    v@ == p@,
                    path_var == Some(p),
                    !path_or_name@.contains('/'),
                    n == v@.len(),
                    pos <= n,
                    r@.map_values(|s: String| s@) + split_on(v@.subrange(pos as int, n as int), ':').map_values(
                        |dir: Seq<char>| joined(dir, path_or_name@),
                    ) == split_on(p@, ':').map_values(|dir: Seq<char>| joined(dir, path_or_name@)),
                decreases n - pos,
            {
                let ghost rest = v@.subrange(pos as int, n as int);
                let j = find_char_in(&v, pos, n, ':');
                let dir = string_of(&v, pos, pos + j);
                let full = join_path(dir.as_str(), path_or_name);
                let ghost before = r@.map_values(|s: String| s@);
                r.push(full);
                proof {
                    lemma_find_char_bounds(rest, ':');
                    assert(rest.take(j as int) =~= v@.subrange(pos as int, pos + j));
                    assert(r@.map_values(|s: String| s@) =~= before.push(joined(rest.take(j as int), path_or_name@)));
                }
                if j == n - pos {
                    proof {
                        assert(rest.take(j as int) =~= rest);
                        assert(split_on(rest, ':') == seq![rest]);
                        assert(split_on(rest, ':').map_values(|dir: Seq<char>| joined(dir, path_or_name@)) =~= seq![joined(rest, path_or_name@)]);
                        assert(r@.map_values(|s: String| s@) =~= before + seq![joined(rest, path_or_name@)]);
                        assert(r@.map_values(|s: String| s@) =~= split_on(p@, ':').map_values(|dir: Seq<char>| joined(dir, path_or_name@)));
                    }
                    return r;
                }
                proof {
                    let next = v@.subrange(pos + j + 1, n as int);
                    assert(rest.skip(j + 1) =~= next);
                    let f = |dir: Seq<char>| joined(dir, path_or_name@);
                    assert(split_on(rest, ':') == seq![rest.take(j as int)] + split_on(next, ':'));
                    assert(split_on(rest, ':').map_values(f) =~= seq![f(rest.take(j as int))] + split_on(next, ':').map_values(f));
                    assert(r@.map_values(|s: String| s@) + split_on(next, ':').map_values(f) =~= before + split_on(rest, ':').map_values(f));
                }
                pos = pos + j + 1;
            }
        },
    }
}

/// Every character the typing path types key by key has a key in every
/// layout, so nothing of the text is lost between chunking and the
/// keymap.
pub proof fn lemma_typed_chunks_have_keys(text: Seq<char>, layout: Seq<char>)
    ensures
        forall|i: int|
            0 <= i < chunks_of(text).len() ==> (#[trigger] chunks_of(text)[i] matches ChunkView::Ascii(b)
                ==> keydef(layout, b) != -1),
{
    lemma_chunks_well_formed(text);
    assert forall|i: int| 0 <= i < chunks_of(text).len() implies (#[trigger] chunks_of(text)[i] matches ChunkView::Ascii(b)
        ==> keydef(layout, b) != -1) by {
        if let ChunkView::Ascii(b) = chunks_of(text)[i] {
            assert(crate::paste::well_formed_chunk(chunks_of(text)[i]));
            lemma_tables_fit(layout, b);
        }
    }
}

/// Everything of `s` that `p` picks comes before everything `q` picks.
pub open spec fn all_before(s: Seq<ToggleAction>, p: spec_fn(ToggleAction) -> bool, q: spec_fn(ToggleAction) -> bool) -> bool {
    forall|i: int, j: int| 0 <= i < s.len() && 0 <= j < s.len() && p(#[trigger] s[i]) && q(#[trigger] s[j]) ==> i < j
}

/// The order of a toggle's steps, for every event: a status is cleared
/// before the transcript reaches the cursor; a status is shown before the
/// recorder starts or the transcription is sent; the recorder is stopped
/// and given time to flush before its recording is checked; a step that
/// waits for an answer (the silence check, the transcription, the
/// recorder) comes last; and deleting the recording comes last.
pub proof fn lemma_toggle_order(event: ToggleEvent)
    ensures
        all_before(toggle_steps(event), |a: ToggleAction| a is ClearStatus, |a: ToggleAction| a == ToggleAction::PasteTranscript),
        all_before(toggle_steps(event), |a: ToggleAction| a is ShowStatus, |a: ToggleAction| a == ToggleAction::StartRecorder || a == ToggleAction::Transcribe),
        all_before(toggle_steps(event), |a: ToggleAction| a == ToggleAction::StopRecorder, |a: ToggleAction| a is WaitMillis || a is ClearStatus || a == ToggleAction::CheckSilence),
        all_before(toggle_steps(event), |a: ToggleAction| a is WaitMillis, |a: ToggleAction| a == ToggleAction::CheckSilence),
        all_before(toggle_steps(event), |a: ToggleAction| a != ToggleAction::RemoveRecording, |a: ToggleAction| a == ToggleAction::RemoveRecording),
        forall|i: int| 0 <= i < toggle_steps(event).len() && (#[trigger] toggle_steps(event)[i] == ToggleAction::CheckSilence
            || toggle_steps(event)[i] == ToggleAction::Transcribe || toggle_steps(event)[i] == ToggleAction::StartRecorder)
            ==> i == toggle_steps(event).len() - 1,
        !(toggle_steps(event).contains(ToggleAction::PasteTranscript) && toggle_steps(event).contains(ToggleAction::ShowFinal(StatusKind::Failed))),
        toggle_steps(event).contains(ToggleAction::PasteTranscript) <==> event == (ToggleEvent::Transcribed { ok: true }),
{
    let s = toggle_steps(event);
    match event {
        ToggleEvent::Invoked { recording } => {
            if recording {
                assert(s =~= seq![
                    ToggleAction::StopRecorder,
                    ToggleAction::WaitMillis(200),
                    ToggleAction::ClearStatus(StatusKind::Recording),
                    ToggleAction::CheckSilence,
                ]);
            } else {
                assert(s =~= seq![
                    ToggleAction::WaitMillis(200),
                    ToggleAction::ShowStatus(StatusKind::Recording),
                    ToggleAction::StartRecorder,
                ]);
            }
        },
        ToggleEvent::SilenceChecked { silent } => {},
        ToggleEvent::Transcribed { ok } => {
            if ok {
                assert(s[2] == ToggleAction::PasteTranscript);
            } else {
                assert(s[2] == ToggleAction::ShowFinal(StatusKind::Failed));
            }
        },
    }
}

/// In a whole stopping invocation every status is cleared before the
/// transcript is pasted, so the backspaces that remove an inline status
/// never reach the transcript.
pub proof fn lemma_stop_run_clears_before_paste(silent: bool, ok: bool)
    ensures
        all_before(stop_run(silent, ok), |a: ToggleAction| a is ClearStatus, |a: ToggleAction| a == ToggleAction::PasteTranscript),
{
    let s = stop_run(silent, ok);
    if !silent && ok {
        assert(s =~= seq![
            ToggleAction::StopRecorder,
            ToggleAction::WaitMillis(200),
            ToggleAction::ClearStatus(StatusKind::Recording),
            ToggleAction::CheckSilence,
            ToggleAction::ShowStatus(StatusKind::Transcribing),
            ToggleAction::Transcribe,
            ToggleAction::ClearStatus(StatusKind::Transcribing),
            ToggleAction::LogTranscript,
            ToggleAction::PasteTranscript,
            ToggleAction::RemoveRecording,
        ]);
    } else {
        lemma_stop_run(silent, ok);
    }
}

/// Whether the flag for `key` is set.
pub open spec fn flag_set(f: WrapFlags, key: ModifierKey) -> bool {
    match key {
        ModifierKey::LeftAlt => f.leftalt,
        ModifierKey::RightAlt => f.rightalt,
        ModifierKey::LeftCtrl => f.leftctrl,
        ModifierKey::RightCtrl => f.rightctrl,
        ModifierKey::LeftShift => f.leftshift,
        ModifierKey::RightShift => f.rightshift,
        ModifierKey::Super => f.super_key,
    }
}

/// How many flags are set.
pub open spec fn flags_set(f: WrapFlags) -> int {
    (if f.leftalt { 1int } else { 0 }) + (if f.rightalt { 1int } else { 0 }) + (if f.leftctrl { 1int } else { 0 })
        + (if f.rightctrl { 1int } else { 0 }) + (if f.leftshift { 1int } else { 0 }) + (if f.rightshift {
        1int
    } else {
        0
    }) + (if f.super_key { 1int } else { 0 })
}

/// The wrap key is the key whose flag is set: none without flags, the
/// flagged key when exactly one is set, an error when several are.
pub proof fn lemma_wrap_key_is_the_flagged_key(f: WrapFlags)
    ensures
        flags_set(f) == 0 ==> wrap_key_of(f) == Ok::<Option<ModifierKey>, MultipleWrapKeys>(None),
        flags_set(f) >= 2 ==> wrap_key_of(f) == Err::<Option<ModifierKey>, MultipleWrapKeys>(MultipleWrapKeys),
        forall|k: ModifierKey| flag_set(f, k) && flags_set(f) == 1 ==> #[trigger] wrap_key_of(f) == Ok::<Option<ModifierKey>, MultipleWrapKeys>(Some(k)),
{
    reveal_with_fuel(chosen_keys, 8);
    let l = flag_list(f);
    assert(l.drop_last().drop_last().drop_last().drop_last().drop_last().drop_last().drop_last() =~= Seq::<(bool, ModifierKey)>::empty());
}

/// What each event brings about: a first invocation shows the recording
/// status and starts the recorder, and stops or deletes nothing; a second
/// one stops the recorder, clears the recording status and checks for
/// speech; silence gets the no-sound notice, is logged and never
/// transcribed; speech is transcribed under the transcribing status; a
/// transcript is logged and pasted; a failure is logged and announced and
/// nothing is pasted; and every outcome of a finished recording deletes it.
pub proof fn lemma_toggle_outcomes(event: ToggleEvent)
    ensures
        event == (ToggleEvent::Invoked { recording: false }) ==> {
            let s = toggle_steps(event);
            &&& s.contains(ToggleAction::ShowStatus(StatusKind::Recording))
            &&& s.contains(ToggleAction::StartRecorder)
            &&& !s.contains(ToggleAction::StopRecorder)
            &&& !s.contains(ToggleAction::RemoveRecording)
        },
        event == (ToggleEvent::Invoked { recording: true }) ==> {
            let s = toggle_steps(event);
            &&& s.contains(ToggleAction::StopRecorder)
            &&& s.contains(ToggleAction::ClearStatus(StatusKind::Recording))
            &&& s.contains(ToggleAction::CheckSilence)
            &&& !s.contains(ToggleAction::StartRecorder)
        },
        event == (ToggleEvent::SilenceChecked { silent: true }) ==> {
            let s = toggle_steps(event);
            &&& s.contains(ToggleAction::ShowFinal(StatusKind::Silent))
            &&& s.contains(ToggleAction::LogSilence)
            &&& s.contains(ToggleAction::RemoveRecording)
            &&& !s.contains(ToggleAction::Transcribe)
        },
        event == (ToggleEvent::SilenceChecked { silent: false }) ==> {
            let s = toggle_steps(event);
            &&& s.contains(ToggleAction::ShowStatus(StatusKind::Transcribing))
            &&& s.contains(ToggleAction::Transcribe)
            &&& !s.contains(ToggleAction::RemoveRecording)
            &&& !s.contains(ToggleAction::LogSilence)
        },
        event == (ToggleEvent::Transcribed { ok: true }) ==> {
            let s = toggle_steps(event);
            &&& s.contains(ToggleAction::ClearStatus(StatusKind::Transcribing))
            &&& s.contains(ToggleAction::LogTranscript)
            &&& s.contains(ToggleAction::PasteTranscript)
            &&& s.contains(ToggleAction::RemoveRecording)
            &&& !s.contains(ToggleAction::LogFailure)
        },
        event == (ToggleEvent::Transcribed { ok: false }) ==> {
            let s = toggle_steps(event);
            &&& s.contains(ToggleAction::ClearStatus(StatusKind::Transcribing))
            &&& s.contains(ToggleAction::LogFailure)
            &&& s.contains(ToggleAction::ShowFinal(StatusKind::Failed))
            &&& s.contains(ToggleAction::RemoveRecording)
            &&& !s.contains(ToggleAction::PasteTranscript)
            &&& !s.contains(ToggleAction::LogTranscript)
        },
{
    let s = toggle_steps(event);
    match event {
        ToggleEvent::Invoked { recording } => if recording {
            assert(s[0] == ToggleAction::StopRecorder);
            assert(s[2] == ToggleAction::ClearStatus(StatusKind::Recording));
            assert(s[3] == ToggleAction::CheckSilence);
        } else {
            assert(s[1] == ToggleAction::ShowStatus(StatusKind::Recording));
            assert(s[2] == ToggleAction::StartRecorder);
        },
        ToggleEvent::SilenceChecked { silent } => if silent {
            assert(s[0] == ToggleAction::LogSilence);
            assert(s[1] == ToggleAction::ShowFinal(StatusKind::Silent));
            assert(s[2] == ToggleAction::RemoveRecording);
        } else {
            assert(s[0] == ToggleAction::ShowStatus(StatusKind::Transcribing));
            assert(s[1] == ToggleAction::Transcribe);
        },
        ToggleEvent::Transcribed { ok } => if ok {
            assert(s[0] == ToggleAction::ClearStatus(StatusKind::Transcribing));
            assert(s[1] == ToggleAction::LogTranscript);
            assert(s[2] == ToggleAction::PasteTranscript);
            assert(s[3] == ToggleAction::RemoveRecording);
        } else {
            assert(s[0] == ToggleAction::ClearStatus(StatusKind::Transcribing));
            assert(s[1] == ToggleAction::LogFailure);
            assert(s[2] == ToggleAction::ShowFinal(StatusKind::Failed));
            assert(s[3] == ToggleAction::RemoveRecording);
        },
    }
}

/// Whether `plan` waits anywhere.
pub open spec fn has_pause(plan: Seq<PasteStep>) -> bool {
    exists|i: int| 0 <= i < plan.len() && (#[trigger] plan[i]) is Pause
}

/// The first wait of `plan` is the initial delay and every later wait the
/// default delay.
pub open spec fn first_wait_initial(plan: Seq<PasteStep>) -> bool {
    forall|i: int|
        0 <= i < plan.len() && (#[trigger] plan[i]) is Pause ==> (plan[i] == PasteStep::Pause(Delay::Initial)
            <==> !has_pause(plan.take(i)))
}

proof fn lemma_chunk_plan_waits(cs: Seq<ChunkView>)
    ensures
        first_wait_initial(chunk_plan(cs)),
        has_pause(chunk_plan(cs)) <==> !all_typed(cs),
    decreases cs.len(),
{
    if cs.len() > 0 {
        let init = cs.drop_last();
        lemma_chunk_plan_waits(init);
        let p = chunk_plan(init);
        let first = all_typed(init);
        let st = chunk_steps(cs.last(), first);
        let plan = chunk_plan(cs);
        assert(plan == p + st);
        assert(all_typed(cs) <==> (first && cs.last() is Ascii)) by {
            if first && cs.last() is Ascii {
                assert forall|k: int| 0 <= k < cs.len() implies #[trigger] cs[k] is Ascii by {
                    if k < init.len() {
                        assert(cs[k] == init[k]);
                    }
                }
            }
            if all_typed(cs) {
                assert(cs[cs.len() - 1] is Ascii);
                assert forall|k: int| 0 <= k < init.len() implies #[trigger] init[k] is Ascii by {
                    assert(init[k] == cs[k]);
                }
            }
        }
        assert forall|i: int| 0 <= i < p.len() implies plan[i] == p[i] && plan.take(i) =~= p.take(i) by {}
        match cs.last() {
            ChunkView::Ascii(b) => {
                assert(st =~= seq![PasteStep::TypeAscii(b)]);
                assert(has_pause(plan) <==> has_pause(p)) by {
                    if has_pause(plan) {
                        let i = choose|i: int| 0 <= i < plan.len() && (#[trigger] plan[i]) is Pause;
                        assert(i < p.len());
                        assert(p[i] is Pause);
                    }
                    if has_pause(p) {
                        let i = choose|i: int| 0 <= i < p.len() && (#[trigger] p[i]) is Pause;
                        assert(plan[i] is Pause);
                    }
                }
                assert forall|i: int| 0 <= i < plan.len() && (#[trigger] plan[i]) is Pause implies (plan[i]
                    == PasteStep::Pause(Delay::Initial) <==> !has_pause(plan.take(i))) by {
                    assert(i < p.len());
                    assert(p[i] is Pause);
                }
            },
            ChunkView::NonAscii(s) => {
                let n = p.len() as int;
                assert(plan[n + 1] is Pause);
                assert(has_pause(plan));
                assert(plan.take(n + 1) =~= p.push(PasteStep::SetClipboard(s)));
                assert(has_pause(plan.take(n + 1)) <==> has_pause(p)) by {
                    let q = plan.take(n + 1);
                    if has_pause(q) {
                        let i = choose|i: int| 0 <= i < q.len() && (#[trigger] q[i]) is Pause;
                        assert(i < n);
                        assert(p[i] is Pause);
                    }
                    if has_pause(p) {
                        let i = choose|i: int| 0 <= i < p.len() && (#[trigger] p[i]) is Pause;
                        assert(q[i] is Pause);
                    }
                }
                assert forall|i: int| 0 <= i < plan.len() && (#[trigger] plan[i]) is Pause implies (plan[i]
                    == PasteStep::Pause(Delay::Initial) <==> !has_pause(plan.take(i))) by {
                    if i < n {
                        assert(p[i] is Pause);
                    } else {
                        assert(i == n + 1);
                    }
                }
            },
        }
    }
}

proof fn lemma_waits_in_context(x: Seq<PasteStep>, p: Seq<PasteStep>, y: Seq<PasteStep>)
    requires
        first_wait_initial(p),
        !has_pause(x),
        !has_pause(y),
    ensures
        first_wait_initial(x + p + y),
{
    let t = x + p + y;
    let n = x.len() as int;
    assert forall|i: int| 0 <= i < t.len() && (#[trigger] t[i]) is Pause implies (t[i] == PasteStep::Pause(Delay::Initial)
        <==> !has_pause(t.take(i))) by {
        if i < n {
            assert(x[i] is Pause);
        } else if i >= n + p.len() {
            assert(y[i - n - p.len()] is Pause);
        } else {
            assert(p[i - n] is Pause);
            let q = t.take(i);
            let pq = p.take(i - n);
            assert(has_pause(q) <==> has_pause(pq)) by {
                if has_pause(q) {
                    let j = choose|j: int| 0 <= j < q.len() && (#[trigger] q[j]) is Pause;
                    if j < n {
                        assert(x[j] is Pause);
                    } else {
                        assert(pq[j - n] is Pause);
                    }
                }
                if has_pause(pq) {
                    let j = choose|j: int| 0 <= j < pq.len() && (#[trigger] pq[j]) is Pause;
                    assert(q[j + n] is Pause);
                }
            }
        }
    }
}

/// How long a paste waits before pressing the paste shortcut: when typing,
/// the first clipboard run waits the initial delay and every later one the
/// default delay; the clipboard modes wait the initial delay throughout.
pub proof fn lemma_paste_waits(
    mode: PasteMode,
    wrap_key: Option<ModifierKey>,
    text: Seq<char>,
    platform: Platform,
)
    ensures
        mode == PasteMode::Type ==> first_wait_initial(paste_plan(mode, wrap_key, text, platform)),
        mode != PasteMode::Type ==> forall|i: int|
            0 <= i < paste_plan(mode, wrap_key, text, platform).len() && (#[trigger] paste_plan(
                mode,
                wrap_key,
                text,
                platform,
            )[i]) is Pause ==> paste_plan(mode, wrap_key, text, platform)[i] == PasteStep::Pause(Delay::Initial),
{
    let w = wrap_steps(wrap_key);
    assert(!has_pause(w)) by {
        if has_pause(w) {
            let i = choose|i: int| 0 <= i < w.len() && (#[trigger] w[i]) is Pause;
        }
    }
    if mode == PasteMode::Type {
        match platform {
            Platform::MacOs => {
                let t = paste_plan(mode, wrap_key, text, platform);
                assert forall|i: int| 0 <= i < t.len() implies !((#[trigger] t[i]) is Pause) by {
                    if i < w.len() {
                        assert(t[i] == w[i]);
                    } else if i > w.len() {
                        assert(t[i] == w[i - w.len() - 1]);
                    }
                }
            },
            Platform::Linux => {
                let cs = chunks_of(text);
                lemma_chunk_plan_waits(cs);
                let x = seq![PasteStep::SaveClipboard] + w;
                let y = w + if all_typed(cs) {
                    Seq::<PasteStep>::empty()
                } else {
                    seq![PasteStep::RestoreClipboard]
                };
                assert(!has_pause(x)) by {
                    if has_pause(x) {
                        let i = choose|i: int| 0 <= i < x.len() && (#[trigger] x[i]) is Pause;
                        if i > 0 {
                            assert(x[i] == w[i - 1]);
                        }
                    }
                }
                assert(!has_pause(y)) by {
                    if has_pause(y) {
                        let i = choose|i: int| 0 <= i < y.len() && (#[trigger] y[i]) is Pause;
                        if i < w.len() {
                            assert(y[i] == w[i]);
                        }
                    }
                }
                lemma_waits_in_context(x, chunk_plan(cs), y);
                assert(paste_plan(mode, wrap_key, text, platform) =~= x + chunk_plan(cs) + y);
            },
        }
    }
}

} // verus!
