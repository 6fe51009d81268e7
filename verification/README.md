# dictate

The core of a hotkey-driven dictation tool, verified with Verus.

- `src/` — the library: audio framing and PCM16 encoding (`pcm`), the
  speech-to-text session protocol (`streaming`), routing between plain
  dictation and select-to-edit (`intent`), the selection-transform request (URL,
  prompt and JSON body) and the reading of its reply (`gemini`, `json`), selection detection by clipboard probe
  (`selection`) and key configuration (`config`).
- `app/` — the tray application around it: microphone capture, resampling,
  the WebSocket and HTTP clients, clipboard and keystroke simulation, and the
  Tauri setup.
- `tests/` — tests of the library on concrete values.
