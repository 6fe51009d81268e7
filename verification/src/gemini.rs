//! The selection-transform request: where it goes, what it asks, and where the
//! answer is read from the reply.

use vstd::prelude::*;
use vstd::string::StringExecFns;
use crate::json::{JsonValue, json_field, json_element, json_text, get_field, get_element, get_text};

verus! {

/// The model that transforms selections.
pub const MODEL: &'static str = "gemini-3.7-flash";

/// Reasoning effort requested from the model.
pub const THINKING_LEVEL: &'static str = "low";

/// Instructions given to the model with every request.
pub const SYSTEM_PROMPT: &'static str = "You transform the given TEXT according to the user's spoken INSTRUCTION. Preserve the original language TEXT is written in \u{2014} do not translate or switch languages, even if INSTRUCTION was spoken in a different language \u{2014} unless INSTRUCTION explicitly asks for a translation or language change. Return ONLY the transformed text \u{2014} no preamble, no explanation, no quotes or markdown fencing around it, since it is pasted directly in place of the original.";

pub open spec fn endpoint_text(api_key: Seq<char>) -> Seq<char> {
    "https://generativelanguage.googleapis.com/v1beta/models/"@ + MODEL@ + ":generateContent?key="@
        + api_key
}

/// The URL of the content-generation call, carrying `api_key`.
pub fn endpoint(api_key: &str) -> (url: String)
    ensures
        url@ == endpoint_text(api_key@),
{
    let mut url = String::from_str("https://generativelanguage.googleapis.com/v1beta/models/");
    url.append(MODEL);
    url.append(":generateContent?key=");
    url.append(api_key);
    url
}

pub open spec fn instruction_prompt_text(
    selected_text: Seq<char>,
    instruction: Seq<char>,
    instruction_language: Option<Seq<char>>,
) -> Seq<char> {
    match instruction_language {
        Some(lang) => "INSTRUCTION (spoken in language \""@ + lang + "\"): "@ + instruction
            + "\n\nTEXT:\n"@ + selected_text,
        None => "INSTRUCTION: "@ + instruction + "\n\nTEXT:\n"@ + selected_text,
    }
}

/// The user turn of the request: the spoken instruction, the language it was
/// spoken in when known, and the selected text to transform.
pub fn instruction_prompt(
    selected_text: &str,
    instruction: &str,
    instruction_language: Option<&str>,
) -> (prompt: String)
    ensures
        prompt@ == instruction_prompt_text(
            selected_text@,
            instruction@,
            match instruction_language {
                Some(l) => Some(l@),
                None => None,
            },
        ),
{
    match instruction_language {
        Some(lang) => {
            let mut p = String::from_str("INSTRUCTION (spoken in language \"");
            p.append(lang);
            p.append("\"): ");
            p.append(instruction);
            p.append("\n\nTEXT:\n");
            p.append(selected_text);
            p
        },
        None => {
            let mut p = String::from_str("INSTRUCTION: ");
            p.append(instruction);
            p.append("\n\nTEXT:\n");
            p.append(selected_text);
            p
        },
    }
}

/// `v` is the string `s`.
pub open spec fn is_str(v: JsonValue, s: Seq<char>) -> bool {
    json_text(v) == Some(s)
}

/// `v` is an object with exactly one member, named `key`, whose value meets `p`.
pub open spec fn is_object1(v: JsonValue, key: Seq<char>, p: spec_fn(JsonValue) -> bool) -> bool {
    match v {
        JsonValue::Object(m) => m@.len() == 1 && m@[0].0@ == key && p(m@[0].1),
        _ => false,
    }
}

/// `v` is an array with exactly one element, which meets `p`.
pub open spec fn is_array1(v: JsonValue, p: spec_fn(JsonValue) -> bool) -> bool {
    match v {
        JsonValue::Array(a) => a@.len() == 1 && p(a@[0]),
        _ => false,
    }
}

/// `v` is `[{"text": text}]`.
pub open spec fn is_text_parts(v: JsonValue, text: Seq<char>) -> bool {
    is_array1(v, |part: JsonValue| is_object1(part, "text"@, |t: JsonValue| is_str(t, text)))
}

/// `v` is `{"role": "user", "parts": [{"text": text}]}`.
pub open spec fn is_user_content(v: JsonValue, text: Seq<char>) -> bool {
    match v {
        JsonValue::Object(m) => {
            &&& m@.len() == 2
            &&& m@[0].0@ == "role"@
            &&& is_str(m@[0].1, "user"@)
            &&& m@[1].0@ == "parts"@
            &&& is_text_parts(m@[1].1, text)
        },
        _ => false,
    }
}

/// `b` is the request body
/// `{"system_instruction": {"parts": [{"text": system}]},
///   "contents": [{"role": "user", "parts": [{"text": user}]}],
///   "generationConfig": {"thinkingConfig": {"thinking_level": THINKING_LEVEL}}}`.
pub open spec fn is_request_body(b: JsonValue, system: Seq<char>, user: Seq<char>) -> bool {
    match b {
        JsonValue::Object(m) => {
            &&& m@.len() == 3
            &&& m@[0].0@ == "system_instruction"@
            &&& is_object1(m@[0].1, "parts"@, |p: JsonValue| is_text_parts(p, system))
            &&& m@[1].0@ == "contents"@
            &&& is_array1(m@[1].1, |c: JsonValue| is_user_content(c, user))
            &&& m@[2].0@ == "generationConfig"@
            &&& is_object1(
                m@[2].1,
                "thinkingConfig"@,
                |t: JsonValue| is_object1(t, "thinking_level"@, |l: JsonValue| is_str(l, THINKING_LEVEL@)),
            )
        },
        _ => false,
    }
}

/// `[{"text": text}]`.
fn text_parts(text: String) -> (v: JsonValue)
    ensures
        is_text_parts(v, text@),
{
    let mut part: Vec<(String, JsonValue)> = Vec::new();
    part.push((String::from_str("text"), JsonValue::Str(text)));
    let mut parts: Vec<JsonValue> = Vec::new();
    parts.push(JsonValue::Object(part));
    JsonValue::Array(parts)
}

/// The body of the content-generation request: the system prompt, one user
/// turn holding the instruction prompt, and the thinking level.
pub fn request_body(
    selected_text: &str,
    instruction: &str,
    instruction_language: Option<&str>,
) -> (b: JsonValue)
    ensures
        is_request_body(
            b,
            SYSTEM_PROMPT@,
            instruction_prompt_text(
                selected_text@,
                instruction@,
                match instruction_language {
                    Some(l) => Some(l@),
                    None => None,
                },
            ),
        ),
{
    let user_text = instruction_prompt(selected_text, instruction, instruction_language);

    let mut system_instruction: Vec<(String, JsonValue)> = Vec::new();
    system_instruction.push((String::from_str("parts"), text_parts(String::from_str(SYSTEM_PROMPT))));

    let mut content: Vec<(String, JsonValue)> = Vec::new();
    content.push((String::from_str("role"), JsonValue::Str(String::from_str("user"))));
    content.push((String::from_str("parts"), text_parts(user_text)));
    let mut contents: Vec<JsonValue> = Vec::new();
    contents.push(JsonValue::Object(content));

    let mut thinking: Vec<(String, JsonValue)> = Vec::new();
    thinking.push((String::from_str("thinking_level"), JsonValue::Str(String::from_str(THINKING_LEVEL))));
    let mut generation: Vec<(String, JsonValue)> = Vec::new();
    generation.push((String::from_str("thinkingConfig"), JsonValue::Object(thinking)));

    let mut body: Vec<(String, JsonValue)> = Vec::new();
    body.push((String::from_str("system_instruction"), JsonValue::Object(system_instruction)));
    body.push((String::from_str("contents"), JsonValue::Array(contents)));
    body.push((String::from_str("generationConfig"), JsonValue::Object(generation)));
    JsonValue::Object(body)
}

/// The answer text in a reply: `candidates[0].content.parts[0].text`.
pub open spec fn reply_text_of(reply: JsonValue) -> Option<Seq<char>> {
    match json_field(reply, "candidates"@) {
        Some(candidates) => match json_element(candidates, 0) {
            Some(candidate) => match json_field(candidate, "content"@) {
                Some(content) => match json_field(content, "parts"@) {
                    Some(parts) => match json_element(parts, 0) {
                        Some(part) => match json_field(part, "text"@) {
                            Some(text) => json_text(text),
                            None => None,
                        },
                        None => None,
                    },
                    None => None,
                },
                None => None,
            },
            None => None,
        },
        None => None,
    }
}

/// Errors in reading a reply.
pub enum GeminiError {
    /// The reply does not carry a text answer where one is expected.
    UnexpectedResponseShape,
}

/// Reads the transformed text out of a reply.
pub fn reply_text(reply: &JsonValue) -> (r: Result<String, GeminiError>)
    ensures
        match reply_text_of(*reply) {
            Some(t) => r matches Ok(s) && s@ == t,
            None => r matches Err(GeminiError::UnexpectedResponseShape),
        },
{
    let candidates_key = String::from_str("candidates");
    let content_key = String::from_str("content");
    let parts_key = String::from_str("parts");
    let text_key = String::from_str("text");
    let candidates = match get_field(reply, &candidates_key) {
        Some(v) => v,
        None => return Err(GeminiError::UnexpectedResponseShape),
    };
    let candidate = match get_element(candidates, 0) {
        Some(v) => v,
        None => return Err(GeminiError::UnexpectedResponseShape),
    };
    let content = match get_field(candidate, &content_key) {
        Some(v) => v,
        None => return Err(GeminiError::UnexpectedResponseShape),
    };
    let parts = match get_field(content, &parts_key) {
        Some(v) => v,
        None => return Err(GeminiError::UnexpectedResponseShape),
    };
    let part = match get_element(parts, 0) {
        Some(v) => v,
        None => return Err(GeminiError::UnexpectedResponseShape),
    };
    let text = match get_field(part, &text_key) {
        Some(v) => v,
        None => return Err(GeminiError::UnexpectedResponseShape),
    };
    match get_text(text) {
        Some(s) => Ok(s.clone()),
        None => Err(GeminiError::UnexpectedResponseShape),
    }
}

/// The URL carries the whole key: it is the URL for the empty key followed by
/// every character of `api_key`, so its length is that prefix's length plus
/// the key's length.
pub proof fn lemma_endpoint_carries_whole_key(api_key: Seq<char>)
    ensures
        endpoint_text(api_key) == endpoint_text(Seq::empty()) + api_key,
        endpoint_text(api_key).len() == endpoint_text(Seq::empty()).len() + api_key.len(),
        endpoint_text(api_key).subrange(
            endpoint_text(Seq::empty()).len() as int,
            endpoint_text(api_key).len() as int,
        ) == api_key,
{
    assert(endpoint_text(Seq::empty()) + api_key =~= endpoint_text(api_key));
    assert(endpoint_text(api_key).subrange(
        endpoint_text(Seq::empty()).len() as int,
        endpoint_text(api_key).len() as int,
    ) =~= api_key);
}

/// The prompt ends with the whole selected text, after a prefix that depends
/// only on the instruction and its language: the prompt for the empty
/// selection, which ends with the `TEXT:` header.
pub proof fn lemma_prompt_ends_with_whole_selection(
    selected_text: Seq<char>,
    instruction: Seq<char>,
    instruction_language: Option<Seq<char>>,
)
    ensures
        ({
            let prompt = instruction_prompt_text(selected_text, instruction, instruction_language);
            let prefix = instruction_prompt_text(Seq::empty(), instruction, instruction_language);
            &&& prompt == prefix + selected_text
            &&& prompt.len() == prefix.len() + selected_text.len()
            &&& prompt.subrange(prefix.len() as int, prompt.len() as int) == selected_text
            &&& prefix.len() >= 8
            &&& prefix.subrange(prefix.len() - 8, prefix.len() as int) == "\n\nTEXT:\n"@
        }),
{
    reveal_strlit("\n\nTEXT:\n");
    let prompt = instruction_prompt_text(selected_text, instruction, instruction_language);
    let prefix = instruction_prompt_text(Seq::empty(), instruction, instruction_language);
    assert(prefix + selected_text =~= prompt);
    assert(prompt.subrange(prefix.len() as int, prompt.len() as int) =~= selected_text);
    assert(prefix.subrange(prefix.len() - 8, prefix.len() as int) =~= "\n\nTEXT:\n"@);
}

/// Wherever a reply holds the string `s` at `candidates[0].content.parts[0].text`,
/// the answer read from it is every character of `s`, whatever other members
/// the reply holds.
pub proof fn lemma_reply_text_is_whole_answer(
    reply: JsonValue,
    candidates: JsonValue,
    candidate: JsonValue,
    content: JsonValue,
    parts: JsonValue,
    part: JsonValue,
    s: String,
)
    requires
        json_field(reply, "candidates"@) == Some(candidates),
        json_element(candidates, 0) == Some(candidate),
        json_field(candidate, "content"@) == Some(content),
        json_field(content, "parts"@) == Some(parts),
        json_element(parts, 0) == Some(part),
        json_field(part, "text"@) == Some(JsonValue::Str(s)),
    ensures
        reply_text_of(reply) == Some(s@),
        reply_text_of(reply) matches Some(t) && t.len() == s@.len() && forall|i: int|
            0 <= i < t.len() ==> t[i] == s@[i],
{
}

} // verus!
