# voicetype

The decision logic of a push-to-talk voice typing assistant, verified with Verus:
hold a hotkey, speak, release, and the recognised (optionally translated) text is
typed into the focused window.

## Layout

- `src/` — the verified library.
  - `text` — character-sequence helpers (trimming, splitting, joining, number parsing)
    with their specifications.
  - `hotkey`, `hotkey_laws`, `hotkey_display` — hotkey strings: parsing, matching,
    display names, and the laws they obey (case-insensitive reading, the shape of a
    parsed hotkey, display names that read back to the same hotkey).
  - `keyboard`, `input` — the key-event state machine that decides when recording
    starts, stops, and which work follows.
  - `streaming`, `records`, `transcript` — streaming voice-activity bookkeeping,
    history records, subtitle formats.
  - `gpu`, `driver`, `platform` — backend choice, driver version checks, per-platform
    directories.
  - `models`, `scan`, `recognizer` — the model catalogue, downloads and deletions, model
    discovery and recogniser settings.
  - `assistant`, `replies`, `json`, `stats` — configuration, reading service replies,
    usage statistics.
  - `typing` — paste keystrokes, AppleScript quoting, cursor-position parsing.
- `tests/` — tests on concrete values.
- `app/` — the desktop shell around the library: windowing, audio capture, the
  keyboard hook, HTTP, the database and the speech engine.
