use rhisper_core::config::PasteMode;
use rhisper_core::dictation::{
    binary_candidates, daemon_plan, plan_paste, resolve_wrap_key, tool_path, toggle_next,
    DaemonPlan, Delay, MultipleWrapKeys, PasteAction, Platform, StatusKind, ToggleAction,
    ToggleEvent, WrapFlags,
};
use rhisper_core::input::{modifier_command, ModifierKey};
use rhisper_core::ipc::Command;

/// Carries a plan out against a clipboard and a cursor.
fn run(plan: &[PasteAction], clipboard: &str) -> (String, String) {
    let mut clip = clipboard.to_string();
    let mut saved = String::new();
    let mut typed = String::new();
    for a in plan {
        match a {
            PasteAction::SaveClipboard => saved = clip.clone(),
            PasteAction::SetClipboard(s) => clip = s.clone(),
            PasteAction::RestoreClipboard => clip = saved.clone(),
            PasteAction::PasteShortcut => typed.push_str(&clip),
            PasteAction::TypeAscii(b) => typed.push(*b as char),
            PasteAction::TypeText(s) => typed.push_str(s),
            PasteAction::Pause(_) | PasteAction::PressModifier(_) => {}
        }
    }
    (typed, clip)
}

#[test]
fn every_mode_delivers_the_text_and_keeps_the_clipboard_where_promised() {
    for text in ["", "hello", "grüße, 世界!", "a\u{7f}b", "ñ"] {
        for platform in [Platform::Linux, Platform::MacOs] {
            for wrap in [None, Some(ModifierKey::RightAlt)] {
                let (typed, clip) = run(&plan_paste(PasteMode::Type, wrap, text, platform), "old");
                assert_eq!(typed, text);
                assert_eq!(clip, "old");
                let (typed, clip) =
                    run(&plan_paste(PasteMode::ClipboardRestore, wrap, text, platform), "old");
                assert_eq!(typed, text);
                assert_eq!(clip, "old");
                let (typed, clip) = run(&plan_paste(PasteMode::Clipboard, wrap, text, platform), "old");
                assert_eq!(typed, text);
                assert_eq!(clip, text);
            }
        }
    }
}

#[test]
fn typing_on_linux_batches_non_ascii_through_the_clipboard() {
    let plan = plan_paste(PasteMode::Type, Some(ModifierKey::RightAlt), "aæøbå", Platform::Linux);
    assert_eq!(
        plan,
        vec![
            PasteAction::SaveClipboard,
            PasteAction::PressModifier(ModifierKey::RightAlt),
            PasteAction::TypeAscii(b'a'),
            PasteAction::SetClipboard("æø".to_string()),
            PasteAction::Pause(Delay::Initial),
            PasteAction::PasteShortcut,
            PasteAction::TypeAscii(b'b'),
            PasteAction::SetClipboard("å".to_string()),
            PasteAction::Pause(Delay::Default),
            PasteAction::PasteShortcut,
            PasteAction::PressModifier(ModifierKey::RightAlt),
            PasteAction::RestoreClipboard,
        ]
    );
    let ascii = plan_paste(PasteMode::Type, None, "ok", Platform::Linux);
    assert_eq!(
        ascii,
        vec![PasteAction::SaveClipboard, PasteAction::TypeAscii(b'o'), PasteAction::TypeAscii(b'k')]
    );
}

#[test]
fn clipboard_modes_paste_in_one_go() {
    assert_eq!(
        plan_paste(PasteMode::ClipboardRestore, None, "hi", Platform::Linux),
        vec![
            PasteAction::SaveClipboard,
            PasteAction::SetClipboard("hi".to_string()),
            PasteAction::Pause(Delay::Initial),
            PasteAction::PasteShortcut,
            PasteAction::Pause(Delay::Initial),
            PasteAction::RestoreClipboard,
        ]
    );
    assert_eq!(
        plan_paste(PasteMode::Type, Some(ModifierKey::Super), "hi", Platform::MacOs),
        vec![
            PasteAction::PressModifier(ModifierKey::Super),
            PasteAction::TypeText("hi".to_string()),
            PasteAction::PressModifier(ModifierKey::Super),
        ]
    );
}

#[test]
fn the_toggle_starts_then_stops() {
    assert_eq!(
        toggle_next(ToggleEvent::Invoked { recording: false }),
        vec![
            ToggleAction::WaitMillis(200),
            ToggleAction::ShowStatus(StatusKind::Recording),
            ToggleAction::StartRecorder,
        ]
    );
    assert_eq!(
        toggle_next(ToggleEvent::Invoked { recording: true }),
        vec![
            ToggleAction::StopRecorder,
            ToggleAction::WaitMillis(200),
            ToggleAction::ClearStatus(StatusKind::Recording),
            ToggleAction::CheckSilence,
        ]
    );
    assert_eq!(
        toggle_next(ToggleEvent::SilenceChecked { silent: true }),
        vec![
            ToggleAction::LogSilence,
            ToggleAction::ShowFinal(StatusKind::Silent),
            ToggleAction::RemoveRecording,
        ]
    );
    assert_eq!(
        toggle_next(ToggleEvent::Transcribed { ok: false }).last(),
        Some(&ToggleAction::RemoveRecording)
    );
    assert!(toggle_next(ToggleEvent::Transcribed { ok: true }).contains(&ToggleAction::PasteTranscript));
    assert!(!toggle_next(ToggleEvent::Transcribed { ok: false }).contains(&ToggleAction::PasteTranscript));
}

fn flags() -> WrapFlags {
    WrapFlags {
        leftalt: false,
        rightalt: false,
        leftctrl: false,
        rightctrl: false,
        leftshift: false,
        rightshift: false,
        super_key: false,
    }
}

#[test]
fn at_most_one_wrap_key() {
    assert_eq!(resolve_wrap_key(flags()), Ok(None));
    assert_eq!(
        resolve_wrap_key(WrapFlags { rightalt: true, ..flags() }),
        Ok(Some(ModifierKey::RightAlt))
    );
    assert_eq!(
        resolve_wrap_key(WrapFlags { super_key: true, ..flags() }),
        Ok(Some(ModifierKey::Super))
    );
    let err = resolve_wrap_key(WrapFlags { leftalt: true, leftshift: true, ..flags() });
    assert_eq!(err, Err(MultipleWrapKeys));
    assert_eq!(MultipleWrapKeys.message(), "Error: Multiple wrap keys not yet supported");
}

#[test]
fn modifier_keys_map_to_their_commands() {
    assert_eq!(modifier_command(ModifierKey::LeftAlt), Command::LeftAlt);
    assert_eq!(modifier_command(ModifierKey::RightCtrl), Command::RightCtrl);
    assert_eq!(modifier_command(ModifierKey::Super), Command::Super);
}

#[test]
fn daemon_is_restarted_only_for_another_layout() {
    assert_eq!(daemon_plan(false, "dk\n", "dk"), DaemonPlan::Start);
    assert_eq!(daemon_plan(true, "dk\n", "dk"), DaemonPlan::KeepRunning);
    assert_eq!(daemon_plan(true, "us\n", "dk"), DaemonPlan::Restart);
    assert_eq!(daemon_plan(true, "", "us"), DaemonPlan::Restart);
}

#[test]
fn helper_binaries_and_their_lookup() {
    assert_eq!(tool_path("rhispertool", true, Some("/opt/rhisper")), "/opt/rhisper/rhispertool");
    assert_eq!(tool_path("rhispertool", false, Some("/opt/rhisper")), "rhispertool");
    assert_eq!(tool_path("rhispertool", true, None), "rhispertool");
    assert_eq!(binary_candidates("./x", Some("/bin")), vec!["./x"]);
    assert_eq!(
        binary_candidates("ffmpeg", Some("/usr/bin:/bin/::rel")),
        vec!["/usr/bin/ffmpeg", "/bin/ffmpeg", "ffmpeg", "rel/ffmpeg"]
    );
    assert!(binary_candidates("ffmpeg", None).is_empty());
    assert_eq!(binary_candidates("ffmpeg", Some("")), vec!["ffmpeg"]);
}
