use rhisper_core::config::PasteMode;
use rhisper_core::placeholder::{
    after_notify, dismiss_args, expand, notification_id, notify_args, resolve, Mode,
    NotifyFollowUp, Placeholder, Setting, StatusAction,
};

#[test]
fn auto_prefers_notifications_for_clipboard_pastes() {
    assert_eq!(
        resolve(Setting::Auto, PasteMode::ClipboardRestore, true),
        Mode::Notify
    );
    assert_eq!(
        resolve(Setting::Auto, PasteMode::Clipboard, true),
        Mode::Notify
    );
}

#[test]
fn auto_stays_inline_when_typing_or_without_notify_send() {
    assert_eq!(resolve(Setting::Auto, PasteMode::Type, true), Mode::Inline);
    assert_eq!(
        resolve(Setting::Auto, PasteMode::ClipboardRestore, false),
        Mode::Inline
    );
}

#[test]
fn expands_the_device_variable() {
    assert_eq!(
        expand("🎤 ${device}", "Anua Mic CM 900"),
        "🎤 Anua Mic CM 900"
    );
    assert_eq!(expand("${device} hört zu", "Webcam"), "Webcam hört zu");
}

#[test]
fn leaves_plain_strings_and_unknown_names_alone() {
    assert_eq!(expand("(recording...)", "Mic"), "(recording...)");
    assert_eq!(expand("${nope}", "Mic"), "${nope}");
    assert_eq!(expand("cost: ${5}", "Mic"), "cost: ${5}");
}

#[test]
fn an_unterminated_variable_stays_literal() {
    // Better a visibly odd status than a silently truncated one.
    assert_eq!(expand("🎤 ${device", "Mic"), "🎤 ${device");
    assert_eq!(expand("${", "Mic"), "${");
}

#[test]
fn expands_every_occurrence_and_survives_an_unknown_device() {
    assert_eq!(expand("${device}/${device}", "A"), "A/A");
    assert_eq!(expand("🎤 ${device}", ""), "🎤 ");
}

#[test]
fn explicit_settings_ignore_paste_mode_and_availability() {
    assert_eq!(
        resolve(Setting::Notify, PasteMode::Type, false),
        Mode::Notify
    );
    assert_eq!(
        resolve(Setting::Inline, PasteMode::ClipboardRestore, true),
        Mode::Inline
    );
    assert_eq!(resolve(Setting::Off, PasteMode::Type, true), Mode::Off);
}

#[test]
fn expansion_edge_cases() {
    assert_eq!(expand("$", "X"), "$");
    assert_eq!(expand("$$", "X"), "$$");
    assert_eq!(expand("${}", "X"), "${}");
    assert_eq!(expand("${${device}}", "X"), "${${device}}");
    assert_eq!(expand("a${device}b${x}c${device", "D"), "aDb${x}c${device");
    assert_eq!(expand("${DEVICE}", "X"), "${DEVICE}");
    assert_eq!(expand("", "X"), "");
}

#[test]
fn stored_notification_ids_are_digits_only() {
    assert_eq!(notification_id("42\n"), Some("42".to_string()));
    assert_eq!(notification_id("  7 "), Some("7".to_string()));
    assert_eq!(notification_id(""), None);
    assert_eq!(notification_id("   "), None);
    assert_eq!(notification_id("4x2"), None);
    assert_eq!(notification_id("-1"), None);
}

#[test]
fn notify_send_arguments() {
    assert_eq!(
        notify_args("(recording...)", true, None),
        vec!["--print-id", "-i", "audio-input-microphone", "-t", "0", "rhisper", "(recording...)"]
    );
    assert_eq!(
        notify_args("done", false, Some("12".to_string())),
        vec!["--print-id", "-i", "audio-input-microphone", "-t", "3000", "-r", "12", "rhisper", "done"]
    );
}

#[test]
fn only_a_persistent_bubble_keeps_its_id() {
    assert_eq!(after_notify(true, true, " 17\n"), NotifyFollowUp::Store("17".to_string()));
    assert_eq!(after_notify(true, false, "17\n"), NotifyFollowUp::Forget);
    assert_eq!(after_notify(false, true, "17\n"), NotifyFollowUp::Forget);
    assert_eq!(after_notify(true, true, "  \n"), NotifyFollowUp::Forget);
}

#[test]
fn dismissal_closes_the_notification_by_id() {
    let args = dismiss_args("31".to_string());
    assert_eq!(args.last().unwrap(), "31");
    assert_eq!(args[0], "call");
    assert_eq!(args[7], "org.freedesktop.Notifications.CloseNotification");
    assert_eq!(args.len(), 9);
}

#[test]
fn inline_status_is_deleted_one_backspace_per_character() {
    let p = Placeholder::new(Setting::Inline, PasteMode::Type, true);
    assert_eq!(p.show("🎤 Mic"), vec![StatusAction::Paste("🎤 Mic".to_string())]);
    assert_eq!(p.clear("🎤 Mic"), vec![StatusAction::DeleteChars(5)]);
    assert_eq!(
        p.show_final("(no sound detected)"),
        vec![
            StatusAction::Paste("(no sound detected)".to_string()),
            StatusAction::PauseMillis(600),
            StatusAction::DeleteChars(19),
        ]
    );
}

#[test]
fn notified_status_is_dismissed_and_off_does_nothing() {
    let p = Placeholder::new(Setting::Auto, PasteMode::Clipboard, true);
    assert_eq!(p.mode, Mode::Notify);
    assert_eq!(
        p.show("x"),
        vec![StatusAction::Notify { message: "x".to_string(), persistent: true }]
    );
    assert_eq!(p.clear("x"), vec![StatusAction::Dismiss]);
    assert_eq!(
        p.show_final("y"),
        vec![StatusAction::Notify { message: "y".to_string(), persistent: false }]
    );
    let off = Placeholder::new(Setting::Off, PasteMode::Type, true);
    assert!(off.show("x").is_empty());
    assert!(off.clear("x").is_empty());
    assert!(off.show_final("x").is_empty());
}
