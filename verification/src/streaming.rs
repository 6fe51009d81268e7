//! The speech-to-text session protocol: what the client does with each audio
//! frame and each server message, and what the session finally yields.

use vstd::prelude::*;
use vstd::string::StringSliceAdditionalSpecFns;
use crate::pcm::{accepted_frame_len, BYTES_PER_MS, MIN_SEND_MS, SEND_CHUNK_BYTES};
use tokio_tungstenite::tungstenite::http::header::{HeaderValue, InvalidHeaderValue};

verus! {

/// Streaming endpoint: 16 kHz PCM, formatted turns, multilingual model with
/// language detection.
pub const WS_URL: &'static str = "wss://streaming.assemblyai.com/v3/ws?sample_rate=16000&format_turns=true&speech_model=universal-3-5-pro&language_detection=true";

/// Text frame that asks the server to finalize the current turn now.
pub const FORCE_ENDPOINT_MESSAGE: &'static str = "{\"type\":\"ForceEndpoint\"}";

/// How long the client keeps reading after the audio has ended, in seconds.
pub const DRAIN_TIMEOUT_SECS: u64 = 5;

/// Silence sent after the last audio frame, in milliseconds.
pub const TRAILING_SILENCE_MS: usize = 1200;

/// Number of regular frames the trailing silence takes.
pub const TRAILING_SILENCE_FRAMES: usize = TRAILING_SILENCE_MS / MIN_SEND_MS;

/// A progress line is logged every this many frames.
pub const PROGRESS_LOG_EVERY: u64 = 20;

/// Events surfaced to the caller while a session is running.
pub enum TranscriptEvent {
    Partial(String),
    /// A formatted final turn (punctuated and cased): the text to act on.
    FinalTurn(String),
}

/// What a session produced: the last formatted final turn, and the language it
/// was detected to be spoken in, if the service reported one.
pub struct SessionResult {
    pub text: String,
    pub language_code: Option<String>,
}

/// The plain view of a session result.
pub struct SessionResultView {
    pub text: Seq<char>,
    pub language_code: Option<Seq<char>>,
}

pub open spec fn opt_string_view(s: Option<String>) -> Option<Seq<char>> {
    match s {
        Some(s) => Some(s@),
        None => None,
    }
}

impl View for SessionResult {
    type V = SessionResultView;

    open spec fn view(&self) -> SessionResultView {
        SessionResultView { text: self.text@, language_code: opt_string_view(self.language_code) }
    }
}

impl SessionResult {
    /// The empty result: no text and no detected language.
    pub open spec fn empty_view() -> SessionResultView {
        SessionResultView { text: Seq::empty(), language_code: None }
    }
}

impl Default for SessionResult {
    fn default() -> (r: Self)
        ensures
            r@ == SessionResult::empty_view(),
    {
        SessionResult { text: String::new(), language_code: None }
    }
}

/// A message from the server, as far as the session logic reads it.
pub enum ServerMessage {
    Begin { id: Option<String> },
    Turn {
        transcript: String,
        end_of_turn: bool,
        turn_is_formatted: bool,
        language_code: Option<String>,
    },
    Termination,
    Unknown,
}

/// One read from the socket.
pub enum Incoming {
    /// A text frame; `None` when it did not parse as a server message.
    Text(Option<ServerMessage>),
    /// The server closed the connection.
    Close,
    /// The stream ended.
    Ended,
    /// The socket reported an error.
    Error,
    /// Any other frame (binary, ping, pong).
    Other,
}

/// Whether the connection is still open after `incoming`.
pub open spec fn keeps_open(incoming: Incoming) -> bool {
    match incoming {
        Incoming::Text(Some(ServerMessage::Termination)) => false,
        Incoming::Text(_) => true,
        Incoming::Other => true,
        _ => false,
    }
}

/// Whether `incoming` is a formatted final turn.
pub open spec fn is_formatted_final(incoming: Incoming) -> bool {
    match incoming {
        Incoming::Text(Some(ServerMessage::Turn { end_of_turn, turn_is_formatted, .. })) => end_of_turn
            && turn_is_formatted,
        _ => false,
    }
}

/// The event that `incoming` surfaces to the caller.
pub open spec fn event_of(incoming: Incoming) -> Option<TranscriptEvent> {
    match incoming {
        Incoming::Text(
            Some(ServerMessage::Turn { transcript, end_of_turn, turn_is_formatted, .. }),
        ) => if end_of_turn && turn_is_formatted {
            Some(TranscriptEvent::FinalTurn(transcript))
        } else if !end_of_turn {
            Some(TranscriptEvent::Partial(transcript))
        } else {
            None
        },
        _ => None,
    }
}

/// The session result after `incoming`: a formatted final turn replaces it,
/// anything else leaves it as it was.
pub open spec fn result_after(r: SessionResultView, incoming: Incoming) -> SessionResultView {
    match incoming {
        Incoming::Text(
            Some(ServerMessage::Turn { transcript, end_of_turn, turn_is_formatted, language_code }),
        ) => if end_of_turn && turn_is_formatted {
            SessionResultView { text: transcript@, language_code: opt_string_view(language_code) }
        } else {
            r
        },
        _ => r,
    }
}

/// Applies one socket read to the session result. Returns whether the
/// connection is still open, and the event to surface, if any.
pub fn handle_message(incoming: Incoming, result: &mut SessionResult) -> (r: (
    bool,
    Option<TranscriptEvent>,
))
    ensures
        r.0 == keeps_open(incoming),
        r.1 == event_of(incoming),
        final(result)@ == result_after(old(result)@, incoming),
{
    match incoming {
        Incoming::Text(Some(message)) => {
            match message {
                ServerMessage::Turn { transcript, end_of_turn, turn_is_formatted, language_code } => {
                    if end_of_turn && turn_is_formatted {
                        result.text = transcript.clone();
                        result.language_code = language_code;
                        (true, Some(TranscriptEvent::FinalTurn(transcript)))
                    } else if !end_of_turn {
                        (true, Some(TranscriptEvent::Partial(transcript)))
                    } else {
                        (true, None)
                    }
                },
                ServerMessage::Termination => (false, None),
                ServerMessage::Begin { .. } => (true, None),
                ServerMessage::Unknown => (true, None),
            }
        },
        Incoming::Text(None) => (true, None),
        Incoming::Other => (true, None),
        Incoming::Close => (false, None),
        Incoming::Ended => (false, None),
        Incoming::Error => (false, None),
    }
}

/// After a formatted final turn the session result is that turn, whole: its
/// text is every character of the transcript, its language is the turn's
/// language code, and the event surfaced carries the same transcript.
pub proof fn lemma_final_turn_is_kept_whole(
    r: SessionResultView,
    transcript: String,
    language_code: Option<String>,
)
    ensures
        ({
            let incoming = Incoming::Text(
                Some(
                    ServerMessage::Turn {
                        transcript,
                        end_of_turn: true,
                        turn_is_formatted: true,
                        language_code,
                    },
                ),
            );
            let after = result_after(r, incoming);
            &&& after.text == transcript@
            &&& after.text.len() == transcript@.len()
            &&& (forall|i: int| 0 <= i < after.text.len() ==> after.text[i] == transcript@[i])
            &&& (language_code matches Some(l) ==> after.language_code == Some(l@))
            &&& (language_code is None ==> after.language_code is None)
            &&& event_of(incoming) == Some(TranscriptEvent::FinalTurn(transcript))
            &&& keeps_open(incoming)
        }),
{
}

/// The session result after a whole sequence of reads, starting from `r`.
pub open spec fn result_after_all(r: SessionResultView, reads: Seq<Incoming>) -> SessionResultView
    decreases reads.len(),
{
    if reads.len() == 0 {
        r
    } else {
        result_after(result_after_all(r, reads.drop_last()), reads.last())
    }
}

/// The result of a session is its last formatted final turn, or the empty
/// result when no read was a formatted final turn.
pub proof fn lemma_result_is_last_final_turn(reads: Seq<Incoming>)
    ensures
        (forall|i: int| 0 <= i < reads.len() ==> !is_formatted_final(#[trigger] reads[i]))
            ==> result_after_all(SessionResult::empty_view(), reads) == SessionResult::empty_view(),
        forall|i: int|
            0 <= i < reads.len() && is_formatted_final(#[trigger] reads[i]) && (forall|j: int|
                i < j < reads.len() ==> !is_formatted_final(#[trigger] reads[j])) ==> result_after_all(
                SessionResult::empty_view(),
                reads,
            ) == result_after(SessionResult::empty_view(), reads[i]),
    decreases reads.len(),
{
    if reads.len() > 0 {
        let init = reads.drop_last();
        lemma_result_is_last_final_turn(init);
        assert forall|i: int|
            0 <= i < reads.len() && is_formatted_final(#[trigger] reads[i]) && (forall|j: int|
                i < j < reads.len() ==> !is_formatted_final(#[trigger] reads[j])) implies result_after_all(
            SessionResult::empty_view(),
            reads,
        ) == result_after(SessionResult::empty_view(), reads[i]) by {
            if i < reads.len() - 1 {
                assert(!is_formatted_final(reads[reads.len() - 1]));
                assert(reads[i] == init[i]);
                assert forall|j: int| i < j < init.len() implies !is_formatted_final(
                    #[trigger] init[j],
                ) by {
                    assert(init[j] == reads[j]);
                }
            }
        }
        if forall|i: int| 0 <= i < reads.len() ==> !is_formatted_final(#[trigger] reads[i]) {
            assert forall|i: int| 0 <= i < init.len() implies !is_formatted_final(
                #[trigger] init[i],
            ) by {
                assert(init[i] == reads[i]);
            }
            assert(!is_formatted_final(reads[reads.len() - 1]));
        }
    }
}

/// Where a session is in its life.
pub enum Phase {
    /// Audio is being forwarded while messages are read.
    Streaming,
    /// The audio has ended; the last turn is awaited.
    Draining,
    /// The session is over.
    Finished,
}

/// What to do with the audio source's latest output.
pub enum AudioStep {
    /// Send the frame as a binary message; log progress when asked.
    SendFrame { log_progress: bool },
    /// The audio has ended: send the `silence` frames, then ask the server to
    /// finalize the turn. No close yet.
    EndOfAudio { silence: Vec<Vec<u8>> },
}

/// One frame of silence: `SEND_CHUNK_BYTES` zero bytes.
pub open spec fn silence_frame() -> Seq<u8> {
    Seq::new(SEND_CHUNK_BYTES as nat, |i: int| 0u8)
}

/// The trailing silence sent after the last audio frame, so that the server's
/// turn detection sees the speech end: `TRAILING_SILENCE_FRAMES` silent frames.
pub fn trailing_silence() -> (frames: Vec<Vec<u8>>)
    ensures
        frames@.len() == TRAILING_SILENCE_FRAMES,
        forall|i: int| 0 <= i < frames@.len() ==> #[trigger] frames@[i]@ == silence_frame(),
{
    let mut frames: Vec<Vec<u8>> = Vec::new();
    let mut k: usize = 0;
    while k < TRAILING_SILENCE_FRAMES
        invariant
            k <= TRAILING_SILENCE_FRAMES,
            frames@.len() == k,
            forall|i: int| 0 <= i < frames@.len() ==> #[trigger] frames@[i]@ == silence_frame(),
        decreases TRAILING_SILENCE_FRAMES - k,
    {
        let mut frame: Vec<u8> = Vec::new();
        let mut j: usize = 0;
        while j < SEND_CHUNK_BYTES
            invariant
                j <= SEND_CHUNK_BYTES,
                frame@.len() == j,
                forall|i: int| 0 <= i < j ==> #[trigger] frame@[i] == 0u8,
            decreases SEND_CHUNK_BYTES - j,
        {
            frame.push(0u8);
            j = j + 1;
        }
        assert(frame@ =~= silence_frame());
        frames.push(frame);
        k = k + 1;
    }
    frames
}

/// The trailing silence lasts `TRAILING_SILENCE_MS`, and each of its frames
/// lies in the duration window the service accepts.
pub proof fn lemma_trailing_silence_duration()
    ensures
        TRAILING_SILENCE_FRAMES * SEND_CHUNK_BYTES == TRAILING_SILENCE_MS * BYTES_PER_MS,
        accepted_frame_len(silence_frame().len() as int),
{
}

/// What to do after a read.
pub enum Next {
    KeepReading,
    /// Return the result as it stands.
    Return,
    /// Send a close frame, then return the result.
    CloseAndReturn,
}

/// The client side of one streaming session.
pub struct StreamSession {
    result: SessionResult,
    phase: Phase,
    bytes_sent: u64,
    chunks_sent: u64,
}

impl StreamSession {
    pub closed spec fn phase(&self) -> Phase {
        self.phase
    }

    pub closed spec fn bytes_sent(&self) -> nat {
        self.bytes_sent as nat
    }

    pub closed spec fn chunks_sent(&self) -> nat {
        self.chunks_sent as nat
    }

    pub closed spec fn result(&self) -> SessionResultView {
        self.result@
    }

    /// A session that has sent nothing and read nothing.
    pub fn new() -> (s: Self)
        ensures
            s.phase() == Phase::Streaming,
            s.bytes_sent() == 0,
            s.chunks_sent() == 0,
            s.result() == SessionResult::empty_view(),
    {
        StreamSession {
            result: SessionResult::default(),
            phase: Phase::Streaming,
            bytes_sent: 0,
            chunks_sent: 0,
        }
    }

    /// Whether the audio has ended (the session no longer forwards audio).
    pub fn audio_done(&self) -> (r: bool)
        ensures
            r == !(self.phase() is Streaming),
    {
        match self.phase {
            Phase::Streaming => false,
            _ => true,
        }
    }

    /// Total bytes of audio sent so far.
    pub fn bytes_sent_total(&self) -> (n: u64)
        ensures
            n == self.bytes_sent(),
    {
        self.bytes_sent
    }

    /// Number of audio frames sent so far.
    pub fn chunks_sent_total(&self) -> (n: u64)
        ensures
            n == self.chunks_sent(),
    {
        self.chunks_sent
    }

    /// The audio source produced a frame of `frame_len` bytes, or ended
    /// (`None`). Only a streaming session reads audio. The counters count the
    /// captured audio; the trailing silence is not counted.
    pub fn on_audio(&mut self, frame_len: Option<usize>) -> (step: AudioStep)
        requires
            old(self).phase() is Streaming,
            frame_len matches Some(n) ==> old(self).bytes_sent() + n <= u64::MAX
                && old(self).chunks_sent() < u64::MAX,
        ensures
            final(self).result() == old(self).result(),
            match frame_len {
                Some(n) => {
                    &&& final(self).bytes_sent() == old(self).bytes_sent() + n
                    &&& final(self).chunks_sent() == old(self).chunks_sent() + 1
                    &&& final(self).phase() == old(self).phase()
                    &&& step == AudioStep::SendFrame {
                        log_progress: final(self).chunks_sent() % (PROGRESS_LOG_EVERY as nat) == 0,
                    }
                },
                None => {
                    &&& final(self).bytes_sent() == old(self).bytes_sent()
                    &&& final(self).chunks_sent() == old(self).chunks_sent()
                    &&& final(self).phase() == Phase::Draining
                    &&& step matches AudioStep::EndOfAudio { silence }
                    &&& silence@.len() == TRAILING_SILENCE_FRAMES
                    &&& forall|i: int|
                        0 <= i < silence@.len() ==> #[trigger] silence@[i]@ == silence_frame()
                },
            },
    {
        match frame_len {
            Some(n) => {
                self.bytes_sent = self.bytes_sent + n as u64;
                self.chunks_sent = self.chunks_sent + 1;
                AudioStep::SendFrame { log_progress: self.chunks_sent % PROGRESS_LOG_EVERY == 0 }
            },
            None => {
                self.phase = Phase::Draining;
                AudioStep::EndOfAudio { silence: trailing_silence() }
            },
        }
    }

    /// Sending an audio frame failed: stop forwarding audio and drain.
    pub fn on_send_failed(&mut self)
        ensures
            final(self).phase() == Phase::Draining,
            final(self).result() == old(self).result(),
            final(self).bytes_sent() == old(self).bytes_sent(),
            final(self).chunks_sent() == old(self).chunks_sent(),
    {
        self.phase = Phase::Draining;
    }

    /// A read from the socket. While streaming, a closed connection returns the
    /// result at once; while draining, it is followed by a close frame. A
    /// finished session ignores further reads.
    pub fn on_message(&mut self, incoming: Incoming) -> (r: (Option<TranscriptEvent>, Next))
        ensures
            final(self).bytes_sent() == old(self).bytes_sent(),
            final(self).chunks_sent() == old(self).chunks_sent(),
            old(self).phase() is Finished ==> {
                &&& r.0 is None
                &&& r.1 == Next::Return
                &&& final(self).result() == old(self).result()
                &&& final(self).phase() == Phase::Finished
            },
            !(old(self).phase() is Finished) ==> {
                &&& r.0 == event_of(incoming)
                &&& final(self).result() == result_after(old(self).result(), incoming)
                &&& keeps_open(incoming) ==> r.1 == Next::KeepReading && final(self).phase()
                    == old(self).phase()
                &&& !keeps_open(incoming) ==> final(self).phase() == Phase::Finished && r.1 == (
                if old(self).phase() is Streaming {
                    Next::Return
                } else {
                    Next::CloseAndReturn
                })
            },
    {
        match self.phase {
            Phase::Finished => (None, Next::Return),
            Phase::Streaming => {
                let (open, event) = handle_message(incoming, &mut self.result);
                if open {
                    (event, Next::KeepReading)
                } else {
                    self.phase = Phase::Finished;
                    (event, Next::Return)
                }
            },
            Phase::Draining => {
                let (open, event) = handle_message(incoming, &mut self.result);
                if open {
                    (event, Next::KeepReading)
                } else {
                    self.phase = Phase::Finished;
                    (event, Next::CloseAndReturn)
                }
            },
        }
    }

    /// The drain timed out: close the connection and return the result.
    pub fn on_drain_timeout(&mut self) -> (next: Next)
        ensures
            next == Next::CloseAndReturn,
            final(self).phase() == Phase::Finished,
            final(self).result() == old(self).result(),
            final(self).bytes_sent() == old(self).bytes_sent(),
            final(self).chunks_sent() == old(self).chunks_sent(),
    {
        self.phase = Phase::Finished;
        Next::CloseAndReturn
    }

    /// The session's result.
    pub fn into_result(self) -> (r: SessionResult)
        ensures
            r@ == self.result(),
    {
        self.result
    }
}

/// Errors in setting up a session.
pub enum SessionError {
    /// The API key holds bytes that an HTTP header value cannot carry.
    InvalidApiKey,
}

#[verifier::external_type_specification]
#[verifier::external_body]
pub struct ExHeaderValue(HeaderValue);

#[verifier::external_type_specification]
#[verifier::external_body]
pub struct ExInvalidHeaderValue(InvalidHeaderValue);

/// A byte that an HTTP header value may hold: visible ASCII, any byte from
/// 128 up, or a tab.
pub open spec fn header_byte_valid(b: u8) -> bool {
    (b >= 32 && b != 127) || b == 9
}

/// An `Authorization` header value together with the bytes it carries.
pub struct AuthHeader {
    value: HeaderValue,
    bytes: Ghost<Seq<u8>>,
}

impl AuthHeader {
    /// The bytes the header value carries.
    pub closed spec fn bytes(&self) -> Seq<u8> {
        self.bytes@
    }

    /// The header value, ready to be inserted into a request.
    pub fn into_value(self) -> HeaderValue {
        self.value
    }
}

/// Calls `http::HeaderValue::from_str`, which succeeds exactly when every byte
/// of the UTF-8 encoding of `src` is a valid header byte, and then holds those
/// bytes.
#[verifier::external_body]
fn header_value_from_str(src: &str) -> (r: Result<AuthHeader, InvalidHeaderValue>)
    ensures
        r is Ok <==> forall|i: int|
            0 <= i < src.spec_bytes().len() ==> header_byte_valid(#[trigger] src.spec_bytes()[i]),
        r matches Ok(h) ==> h.bytes() == src.spec_bytes(),
{
    match HeaderValue::from_str(src) {
        Ok(value) => Ok(AuthHeader { value, bytes: Ghost(src.spec_bytes()) }),
        Err(e) => Err(e),
    }
}

/// The `Authorization` header value that carries `api_key`: its bytes are the
/// UTF-8 bytes of the key.
pub fn authorization_header(api_key: &str) -> (r: Result<AuthHeader, SessionError>)
    ensures
        r is Ok <==> forall|i: int|
            0 <= i < api_key.spec_bytes().len() ==> header_byte_valid(
                #[trigger] api_key.spec_bytes()[i],
            ),
        r matches Ok(h) ==> h.bytes() == api_key.spec_bytes(),
{
    match header_value_from_str(api_key) {
        Ok(v) => Ok(v),
        Err(_) => Err(SessionError::InvalidApiKey),
    }
}

} // verus!
