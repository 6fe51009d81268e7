use dictate::intent::{
    char_is_whitespace, Dictation, Press, is_blank, on_hotkey, on_session_finished, selection_for_session, text_after_transform, Act,
    Finish, HotkeyAction, SessionOutcome,
};
use dictate::streaming::SessionResult;

fn completed(text: &str, lang: Option<&str>) -> SessionOutcome {
    SessionOutcome::Completed(SessionResult {
        text: text.to_string(),
        language_code: lang.map(|l| l.to_string()),
    })
}

#[test]
fn hotkey_toggles() {
    assert!(matches!(on_hotkey(true), HotkeyAction::StopAndAct));
    assert!(matches!(on_hotkey(false), HotkeyAction::CaptureSelectionAndListen));
}

#[test]
fn nothing_selected_pastes_transcript_verbatim() {
    match on_session_finished(completed("Hello there.", Some("en")), None) {
        Finish::Act(Act::Paste(t)) => assert_eq!(t, "Hello there."),
        _ => panic!("expected a verbatim paste"),
    }
}

#[test]
fn selection_makes_transcript_a_command() {
    match on_session_finished(
        completed("make this more formal", Some("en")),
        Some("hey whats up".to_string()),
    ) {
        Finish::Act(Act::Transform { selected_text, instruction, instruction_language }) => {
            assert_eq!(selected_text, "hey whats up");
            assert_eq!(instruction, "make this more formal");
            assert_eq!(instruction_language.as_deref(), Some("en"));
        }
        _ => panic!("expected a transform"),
    }
}

#[test]
fn blank_transcript_does_nothing() {
    assert!(matches!(on_session_finished(completed("", None), None), Finish::EmptyTranscript));
    assert!(matches!(
        on_session_finished(completed("  \n\t ", None), Some("sel".into())),
        Finish::EmptyTranscript
    ));
}

#[test]
fn failed_sessions_do_nothing() {
    assert!(matches!(on_session_finished(SessionOutcome::Failed, None), Finish::SessionFailed));
    assert!(matches!(
        on_session_finished(SessionOutcome::Aborted, Some("x".into())),
        Finish::TaskAborted
    ));
}

#[test]
fn blank_follows_unicode_whitespace() {
    assert!(is_blank(""));
    assert!(is_blank(" \t\r\n"));
    assert!(is_blank("\u{3000}\u{a0}\u{2028}"));
    assert!(!is_blank("  a  "));
    assert!(!is_blank("\u{200b}"));
}

#[test]
fn failed_selection_check_means_plain_dictation() {
    let err: Result<Option<String>, String> = Err("clipboard unavailable".into());
    assert_eq!(selection_for_session(err), None);
    let ok: Result<Option<String>, String> = Ok(Some("picked".into()));
    assert_eq!(selection_for_session(ok), Some("picked".to_string()));
    let none: Result<Option<String>, String> = Ok(None);
    assert_eq!(selection_for_session(none), None);
}

#[test]
fn failed_transform_leaves_selection_untouched() {
    let failed: Result<String, String> = Err("500".into());
    assert_eq!(text_after_transform(failed), None);
    let ok: Result<String, String> = Ok("Good evening.".into());
    assert_eq!(text_after_transform(ok), Some("Good evening.".to_string()));
}

#[test]
fn whitespace_matches_std_for_every_char() {
    for u in 0..=0x10ffffu32 {
        if let Some(c) = char::from_u32(u) {
            assert_eq!(char_is_whitespace(c), c.is_whitespace(), "U+{u:04X}");
        }
    }
}

#[test]
fn toggle_starts_only_when_start_succeeds() {
    let mut d: Dictation<u32> = Dictation::new();
    assert!(matches!(d.press(), Press::Start));
    let failed: Result<u32, String> = Err("no microphone".into());
    d.started(Some("sel".into()), failed);
    assert!(!d.is_listening());
    assert!(matches!(d.press(), Press::Start));
    let ok: Result<u32, String> = Ok(7);
    d.started(None, ok);
    assert!(d.is_listening());
}

#[test]
fn selection_at_start_comes_back_at_stop() {
    let mut d: Dictation<u32> = Dictation::new();
    assert!(matches!(d.press(), Press::Start));
    let ok: Result<u32, String> = Ok(42);
    d.started(Some("picked text".into()), ok);
    match d.press() {
        Press::Stop { handle, selected_text } => {
            assert_eq!(handle, 42);
            assert_eq!(selected_text.as_deref(), Some("picked text"));
        }
        Press::Start => panic!("a recording was running"),
    }
    assert!(!d.is_listening());
    assert!(matches!(d.press(), Press::Start));
}
