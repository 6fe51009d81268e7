use dictate::streaming::{
    authorization_header, handle_message, AudioStep, Incoming, Next, ServerMessage,
    SessionResult, StreamSession, TranscriptEvent, FORCE_ENDPOINT_MESSAGE, WS_URL,
    trailing_silence, TRAILING_SILENCE_FRAMES, TRAILING_SILENCE_MS,
};

fn turn(text: &str, end_of_turn: bool, formatted: bool, lang: Option<&str>) -> Incoming {
    Incoming::Text(Some(ServerMessage::Turn {
        transcript: text.to_string(),
        end_of_turn,
        turn_is_formatted: formatted,
        language_code: lang.map(|l| l.to_string()),
    }))
}

#[test]
fn formatted_final_turn_becomes_result() {
    let mut result = SessionResult::default();
    let (open, event) = handle_message(turn("Hola, mundo.", true, true, Some("es")), &mut result);
    assert!(open);
    assert!(matches!(event, Some(TranscriptEvent::FinalTurn(t)) if t == "Hola, mundo."));
    assert_eq!(result.text, "Hola, mundo.");
    assert_eq!(result.language_code.as_deref(), Some("es"));
}

#[test]
fn partial_turn_is_surfaced_but_not_kept() {
    let mut result = SessionResult::default();
    let (open, event) = handle_message(turn("hola", false, false, None), &mut result);
    assert!(open);
    assert!(matches!(event, Some(TranscriptEvent::Partial(t)) if t == "hola"));
    assert_eq!(result.text, "");
    assert_eq!(result.language_code, None);
}

#[test]
fn unformatted_final_turn_is_ignored() {
    let mut result = SessionResult::default();
    let (open, event) = handle_message(turn("hola mundo", true, false, Some("es")), &mut result);
    assert!(open);
    assert!(event.is_none());
    assert_eq!(result.text, "");
}

#[test]
fn later_final_turn_replaces_earlier() {
    let mut result = SessionResult::default();
    handle_message(turn("First.", true, true, Some("en")), &mut result);
    handle_message(turn("ignored partial", false, false, None), &mut result);
    handle_message(turn("Second.", true, true, None), &mut result);
    assert_eq!(result.text, "Second.");
    assert_eq!(result.language_code, None);
}

#[test]
fn termination_close_end_and_error_finish() {
    let mut result = SessionResult::default();
    assert!(!handle_message(Incoming::Text(Some(ServerMessage::Termination)), &mut result).0);
    assert!(!handle_message(Incoming::Close, &mut result).0);
    assert!(!handle_message(Incoming::Ended, &mut result).0);
    assert!(!handle_message(Incoming::Error, &mut result).0);
}

#[test]
fn other_frames_keep_session_open() {
    let mut result = SessionResult::default();
    assert!(handle_message(Incoming::Other, &mut result).0);
    assert!(handle_message(Incoming::Text(None), &mut result).0);
    assert!(handle_message(Incoming::Text(Some(ServerMessage::Unknown)), &mut result).0);
    assert!(
        handle_message(Incoming::Text(Some(ServerMessage::Begin { id: Some("x".into()) })), &mut result).0
    );
}

#[test]
fn session_counts_frames_and_logs_every_twentieth() {
    let mut s = StreamSession::new();
    for i in 1..=40u64 {
        match s.on_audio(Some(3200)) {
            AudioStep::SendFrame { log_progress } => assert_eq!(log_progress, i % 20 == 0),
            AudioStep::EndOfAudio { .. } => panic!("audio has not ended"),
        }
    }
    assert_eq!(s.chunks_sent_total(), 40);
    assert_eq!(s.bytes_sent_total(), 128_000);
    assert!(!s.audio_done());
}

#[test]
fn end_of_audio_forces_endpoint_then_drains_and_closes() {
    let mut s = StreamSession::new();
    match s.on_audio(None) {
        AudioStep::EndOfAudio { silence } => {
            assert_eq!(silence.len(), 12);
            assert!(silence.iter().all(|f| f.len() == 3200 && f.iter().all(|&b| b == 0)));
        }
        AudioStep::SendFrame { .. } => panic!("audio has ended"),
    }
    assert!(s.audio_done());
    let (event, next) = s.on_message(turn("Done.", true, true, Some("en")));
    assert!(matches!(event, Some(TranscriptEvent::FinalTurn(_))));
    assert!(matches!(next, Next::KeepReading));
    let (_, next) = s.on_message(Incoming::Text(Some(ServerMessage::Termination)));
    assert!(matches!(next, Next::CloseAndReturn));
    let r = s.into_result();
    assert_eq!(r.text, "Done.");
}

#[test]
fn close_while_streaming_returns_without_close_frame() {
    let mut s = StreamSession::new();
    s.on_audio(Some(100));
    let (_, next) = s.on_message(Incoming::Close);
    assert!(matches!(next, Next::Return));
}

#[test]
fn failed_send_starts_draining() {
    let mut s = StreamSession::new();
    s.on_audio(Some(3200));
    s.on_send_failed();
    assert!(s.audio_done());
    assert!(matches!(s.on_drain_timeout(), Next::CloseAndReturn));
}

#[test]
fn finished_session_ignores_reads() {
    let mut s = StreamSession::new();
    s.on_message(Incoming::Ended);
    let (event, next) = s.on_message(turn("late", true, true, None));
    assert!(event.is_none());
    assert!(matches!(next, Next::Return));
    assert_eq!(s.into_result().text, "");
}

#[test]
fn authorization_header_accepts_plain_keys() {
    let v = authorization_header("abc123-KEY_xyz").ok().expect("valid key").into_value();
    assert_eq!(v.as_bytes(), b"abc123-KEY_xyz");
    let v = authorization_header("cl\u{e9}").ok().expect("valid key").into_value();
    assert_eq!(v.as_bytes(), "cl\u{e9}".as_bytes());
    assert!(authorization_header("key with\ttab").is_ok());
    assert!(authorization_header("cl\u{e9}").is_ok());
}

#[test]
fn authorization_header_rejects_control_bytes() {
    assert!(authorization_header("bad\nkey").is_err());
    assert!(authorization_header("bad\u{7f}key").is_err());
    assert!(authorization_header("\u{0}").is_err());
}

#[test]
fn protocol_constants() {
    assert_eq!(FORCE_ENDPOINT_MESSAGE, r#"{"type":"ForceEndpoint"}"#);
    assert!(WS_URL.starts_with("wss://streaming.assemblyai.com/v3/ws?sample_rate=16000"));
    assert!(WS_URL.contains("language_detection=true"));
}

#[test]
fn trailing_silence_is_1200_ms_of_zeros() {
    assert_eq!(TRAILING_SILENCE_MS, 1200);
    assert_eq!(TRAILING_SILENCE_FRAMES, 12);
    let frames = trailing_silence();
    let total: usize = frames.iter().map(|f| f.len()).sum();
    assert_eq!(total, 38400);
    assert!(frames.iter().all(|f| f.len() == 3200 && f.iter().all(|&b| b == 0)));
}
