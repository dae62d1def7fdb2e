# phantom

A desktop assistant that answers what is on the screen or in a conversation:
it captures the screen or records audio, recognises text and speech, and asks
a generative-language API for an answer, while keeping its own windows out of
screen captures.

## Layout

- `src/` is the verified library. Each module states its behaviour over a
  mathematical model (`Seq<char>` for text, `StateView` for the application
  state) and proves it:
  - `state`: the settings and session state, with read-after-write laws;
  - `commands`, `recording`, `panels`, `watcher`, `dodge`: how each user
    action, each step of the screen watcher and each poll of the panel that
    moves out of the pointer's way change the state;
  - `vad`: the voice-activity state machine that cuts audio into utterances;
  - `hallucination`, `whisper`: which recognised segments are kept and how
    they become a transcript;
  - `gemini`: request bodies, prompts and the outcome of each reply;
  - `proctor`, `env_report`, `display`, `capture`, `network`, `audio`,
    `usage_db`: scans and reports computed from what the system reports;
  - `text`: the character-level utilities the others are stated over.
- `app/` is the program around the library: windows, shortcuts, device and
  network I/O, the worker loops, and the floating-point audio and geometry.
- `tests/` runs the library on concrete values.
