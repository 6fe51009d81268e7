//! What a press of the dictation hotkey does, and what becomes of a finished
//! recording. Nothing selected when listening starts means plain dictation:
//! the transcript is pasted verbatim. Text selected when listening starts means
//! the utterance is a command about that text: the selection is transformed
//! by it, and the result is pasted over the selection.

use vstd::prelude::*;
use crate::streaming::{
    SessionResult, Incoming, result_after_all, is_formatted_final, lemma_result_is_last_final_turn,
};

verus! {

broadcast use vstd::string::group_string_axioms;

/// Whether `c` has the Unicode `White_Space` property, which is what
/// `char::is_whitespace` reports: U+0009 to U+000D, U+0020, U+0085, U+00A0,
/// U+1680, U+2000 to U+200A, U+2028, U+2029, U+202F, U+205F and U+3000.
pub open spec fn unicode_white_space(c: char) -> bool {
    let u = c as u32;
    ||| 0x09 <= u <= 0x0d
    ||| u == 0x20
    ||| u == 0x85
    ||| u == 0xa0
    ||| u == 0x1680
    ||| 0x2000 <= u <= 0x200a
    ||| u == 0x2028
    ||| u == 0x2029
    ||| u == 0x202f
    ||| u == 0x205f
    ||| u == 0x3000
}

/// Whether `c` is whitespace in the sense of `unicode_white_space`.
pub fn char_is_whitespace(c: char) -> (r: bool)
    ensures
        r == unicode_white_space(c),
{
    let u = c as u32;
    (0x09 <= u && u <= 0x0d) || u == 0x20 || u == 0x85 || u == 0xa0 || u == 0x1680 || (0x2000
        <= u && u <= 0x200a) || u == 0x2028 || u == 0x2029 || u == 0x202f || u == 0x205f || u
        == 0x3000
}

/// A text is blank when every character in it is whitespace (the empty text
/// among them): trimming it leaves nothing.
pub open spec fn blank(s: Seq<char>) -> bool {
    forall|i: int| 0 <= i < s.len() ==> unicode_white_space(#[trigger] s[i])
}

/// Whether `text` is blank.
pub fn is_blank(text: &str) -> (r: bool)
    ensures
        r == blank(text@),
{
    let mut all_white = true;
    for c in it: text.chars()
        invariant
            it.seq() == text@,
            all_white == (forall|j: int|
                0 <= j < it.index() ==> unicode_white_space(#[trigger] it.seq()[j])),
    {
        if !char_is_whitespace(c) {
            all_white = false;
        }
    }
    all_white
}

/// A session in which no read was a formatted final turn yields a blank
/// transcript, so its recording pastes nothing and asks for no transform.
pub proof fn lemma_no_final_turn_pastes_nothing(reads: Seq<Incoming>)
    requires
        forall|i: int| 0 <= i < reads.len() ==> !is_formatted_final(#[trigger] reads[i]),
    ensures
        blank(result_after_all(SessionResult::empty_view(), reads).text),
{
    lemma_result_is_last_final_turn(reads);
}

/// What a press of the hotkey starts.
pub enum HotkeyAction {
    /// A recording is running: stop it, then act on what it produced.
    StopAndAct,
    /// Nothing is running: check for a selection, then start listening.
    CaptureSelectionAndListen,
}

/// The hotkey toggles: it stops a running recording and starts one otherwise.
pub fn on_hotkey(listening: bool) -> (a: HotkeyAction)
    ensures
        listening ==> a == HotkeyAction::StopAndAct,
        !listening ==> a == HotkeyAction::CaptureSelectionAndListen,
{
    if listening {
        HotkeyAction::StopAndAct
    } else {
        HotkeyAction::CaptureSelectionAndListen
    }
}

/// The selection that decides the mode of the next recording. When the check
/// for a selection failed, the recording is taken as plain dictation.
pub fn selection_for_session<E>(probe: Result<Option<String>, E>) -> (sel: Option<String>)
    ensures
        match probe {
            Ok(found) => sel == found,
            Err(_) => sel is None,
        },
{
    match probe {
        Ok(found) => found,
        Err(_) => None,
    }
}

/// How the recording task ended.
pub enum SessionOutcome {
    /// The session ran to its end and produced a result.
    Completed(SessionResult),
    /// The session returned an error.
    Failed,
    /// The task running the session did not finish (it panicked or was cancelled).
    Aborted,
}

/// What to do with a recording's transcript.
pub enum Act {
    /// Paste the transcript verbatim at the cursor.
    Paste(String),
    /// Transform `selected_text` by the spoken `instruction`, then paste the result.
    Transform { selected_text: String, instruction: String, instruction_language: Option<String> },
}

/// What becomes of a finished recording.
pub enum Finish {
    Act(Act),
    /// The transcript was blank: nothing to do.
    EmptyTranscript,
    /// The session failed: nothing to do.
    SessionFailed,
    /// The recording task did not finish: nothing to do.
    TaskAborted,
}

/// What becomes of a finished recording, given the selection captured when it
/// started.
pub open spec fn finish_of(outcome: SessionOutcome, selected_text: Option<String>) -> Finish {
    match outcome {
        SessionOutcome::Completed(result) => if blank(result.text@) {
            Finish::EmptyTranscript
        } else {
            match selected_text {
                None => Finish::Act(Act::Paste(result.text)),
                Some(selected) => Finish::Act(
                    Act::Transform {
                        selected_text: selected,
                        instruction: result.text,
                        instruction_language: result.language_code,
                    },
                ),
            }
        },
        SessionOutcome::Failed => Finish::SessionFailed,
        SessionOutcome::Aborted => Finish::TaskAborted,
    }
}

/// Routes a finished recording by the selection that was captured when it started.
pub fn on_session_finished(outcome: SessionOutcome, selected_text: Option<String>) -> (f: Finish)
    ensures
        f == finish_of(outcome, selected_text),
{
    match outcome {
        SessionOutcome::Completed(result) => {
            if is_blank(result.text.as_str()) {
                Finish::EmptyTranscript
            } else {
                match selected_text {
                    None => Finish::Act(Act::Paste(result.text)),
                    Some(selected) => Finish::Act(
                        Act::Transform {
                            selected_text: selected,
                            instruction: result.text,
                            instruction_language: result.language_code,
                        },
                    ),
                }
            }
        },
        SessionOutcome::Failed => Finish::SessionFailed,
        SessionOutcome::Aborted => Finish::TaskAborted,
    }
}

/// The text to paste once the transform has answered: its output, or nothing
/// when it failed, which leaves the selection untouched.
pub fn text_after_transform<E>(transformed: Result<String, E>) -> (paste: Option<String>)
    ensures
        match transformed {
            Ok(t) => paste == Some(t),
            Err(_) => paste is None,
        },
{
    match transformed {
        Ok(t) => Some(t),
        Err(_) => None,
    }
}

/// A running recording: the caller's handle on it, and the selection that was
/// captured when it started.
pub struct Listening<H> {
    pub handle: H,
    pub selected_text: Option<String>,
}

/// What a press of the hotkey asks the caller to do.
pub enum Press<H> {
    /// Stop this recording, then act on what it produced, routed by
    /// `selected_text`, the selection captured when it started.
    Stop { handle: H, selected_text: Option<String> },
    /// Nothing was running: check for a selection, then start a recording.
    Start,
}

/// The state after a press, and what the press asks for: a running recording
/// is always taken and ended; otherwise a new one is to be started.
pub open spec fn press_transition<H>(s: Option<Listening<H>>) -> (Option<Listening<H>>, Press<H>) {
    match s {
        Some(l) => (None, Press::Stop { handle: l.handle, selected_text: l.selected_text }),
        None => (None, Press::Start),
    }
}

/// The state after an attempt to start a recording with `selected_text`: it
/// runs exactly when the start succeeded.
pub open spec fn start_transition<H, E>(
    s: Option<Listening<H>>,
    selected_text: Option<String>,
    started: Result<H, E>,
) -> Option<Listening<H>> {
    match started {
        Ok(h) => Some(Listening { handle: h, selected_text }),
        Err(_) => s,
    }
}

/// The dictation toggle: idle, or running one recording.
pub struct Dictation<H> {
    session: Option<Listening<H>>,
}

impl<H> Dictation<H> {
    /// The running recording, if any.
    pub closed spec fn session(&self) -> Option<Listening<H>> {
        self.session
    }

    /// An idle toggle.
    pub fn new() -> (d: Self)
        ensures
            d.session() is None,
    {
        Dictation { session: None }
    }

    /// Whether a recording is running.
    pub fn is_listening(&self) -> (r: bool)
        ensures
            r == self.session() is Some,
    {
        self.session.is_some()
    }

    /// A press of the hotkey.
    pub fn press(&mut self) -> (p: Press<H>)
        ensures
            (final(self).session(), p) == press_transition(old(self).session()),
    {
        match on_hotkey(self.session.is_some()) {
            HotkeyAction::StopAndAct => {
                let running = self.session.take();
                match running {
                    Some(l) => Press::Stop { handle: l.handle, selected_text: l.selected_text },
                    None => Press::Start,
                }
            },
            HotkeyAction::CaptureSelectionAndListen => Press::Start,
        }
    }

    /// The outcome of starting a recording after a press that asked for it,
    /// with the selection captured just before.
    pub fn started<E>(&mut self, selected_text: Option<String>, started: Result<H, E>)
        requires
            old(self).session() is None,
        ensures
            final(self).session() == start_transition(old(self).session(), selected_text, started),
    {
        match started {
            Ok(h) => {
                self.session = Some(Listening { handle: h, selected_text });
            },
            Err(_) => {},
        }
    }
}

/// A press while a recording runs always ends it; a press while idle asks for
/// a start, and the toggle is then running exactly when the start succeeded.
pub proof fn lemma_toggle_runs_iff_started<H, E>(
    s: Option<Listening<H>>,
    selected_text: Option<String>,
    started: Result<H, E>,
)
    ensures
        s is Some ==> press_transition(s).0 is None && press_transition(s).1 is Stop,
        s is None ==> press_transition(s).1 is Start && (start_transition(
            press_transition(s).0,
            selected_text,
            started,
        ) is Some <==> started is Ok),
{
}

/// The selection captured when a recording starts, not anything at stop,
/// decides what its transcript becomes: with none it is pasted verbatim, with
/// one it is the instruction for transforming that selection.
pub proof fn lemma_selection_at_start_decides<H, E>(
    h: H,
    selected_text: Option<String>,
    result: SessionResult,
)
    requires
        !blank(result.text@),
    ensures
        ({
            let running = start_transition::<H, E>(None, selected_text, Ok(h));
            let (after, pressed) = press_transition(running);
            &&& after is None
            &&& pressed == Press::Stop { handle: h, selected_text }
            &&& selected_text is None ==> finish_of(SessionOutcome::Completed(result), selected_text)
                == Finish::Act(Act::Paste(result.text))
            &&& selected_text matches Some(sel) ==> finish_of(
                SessionOutcome::Completed(result),
                selected_text,
            ) == Finish::Act(
                Act::Transform {
                    selected_text: sel,
                    instruction: result.text,
                    instruction_language: result.language_code,
                },
            )
        }),
{
}

/// Visible ASCII characters (letters, digits, punctuation) are not whitespace,
/// while space, tab, line feed, carriage return and the ideographic space are.
pub proof fn lemma_white_space_samples(c: char)
    ensures
        0x21 <= (c as u32) <= 0x7e ==> !unicode_white_space(c),
        (c == ' ' || c == '\t' || c == '\n' || c == '\r' || c == '\u{3000}') ==> unicode_white_space(c),
{
}

/// A text holding any character that is not whitespace is not blank, and a
/// text of whitespace only (the empty text among them) is.
pub proof fn lemma_blank_exactly_white_space(s: Seq<char>, i: int)
    ensures
        0 <= i < s.len() && !unicode_white_space(s[i]) ==> !blank(s),
        0 <= i < s.len() && 0x21 <= (s[i] as u32) <= 0x7e ==> !blank(s),
        (forall|j: int| 0 <= j < s.len() ==> unicode_white_space(#[trigger] s[j])) ==> blank(s),
        blank(Seq::<char>::empty()),
{
    lemma_white_space_samples(s[i]);
}

/// A completed recording whose transcript holds a character that is not
/// whitespace, with nothing selected, pastes that transcript verbatim.
pub proof fn lemma_non_blank_dictation_is_pasted(result: SessionResult, i: int)
    requires
        0 <= i < result.text@.len(),
        !unicode_white_space(result.text@[i]),
    ensures
        finish_of(SessionOutcome::Completed(result), None) == Finish::Act(Act::Paste(result.text)),
{
    lemma_blank_exactly_white_space(result.text@, i);
}

/// A completed recording whose transcript holds a visible ASCII character
/// (a letter, a digit or punctuation), with nothing selected, pastes that
/// transcript verbatim.
pub proof fn lemma_visible_dictation_is_pasted(result: SessionResult, i: int)
    requires
        0 <= i < result.text@.len(),
        0x21 <= (result.text@[i] as u32) <= 0x7e,
    ensures
        finish_of(SessionOutcome::Completed(result), None) == Finish::Act(Act::Paste(result.text)),
{
    lemma_white_space_samples(result.text@[i]);
    lemma_non_blank_dictation_is_pasted(result, i);
}

} // verus!
