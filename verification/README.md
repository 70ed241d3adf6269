# n501_tts_lite

Verified core of a desktop dictation tool (hotkey → record → local Whisper
transcription → clipboard).

- `src/` — the library, verified with Verus:
  - `text` — character-level string helpers (`trim`, suffix stripping, …);
  - `error` — application and engine errors;
  - `config` — configuration, model description, cache key, and the
    bookkeeping that tells own writes of the config file from outside edits;
  - `hotkey` — parsing of hotkey texts such as `Cmd+Shift+V`;
  - `model_files` — model source checks, base URL of accompanying files,
    download size limit, SHA-256 digest check;
  - `transcription` — weights format, input checks, resampler chunks, mel
    filter layout, greedy decoding loop over token ids;
  - `audio` — decisions of the recording thread;
  - `worker` — decisions of the transcription task (engine reuse, events).
- `tests/` — tests of the library.
- `app/` — the Tauri application around the library: audio capture, the
  candle model, downloads, files, clipboard and the user interface.
