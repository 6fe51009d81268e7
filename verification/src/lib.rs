//! Dictation core: the decisions behind hotkey-driven dictation and
//! select-to-edit, separated from the microphone, network, clipboard and UI.

pub mod config;
pub mod gemini;
pub mod intent;
pub mod json;
pub mod pcm;
pub mod selection;
pub mod streaming;
