# kute_clip_core

The core of a clipboard-history manager, written in Verus: the functions of
the library under `src/` carry `requires`/`ensures` contracts that Verus
proves, except a few small helpers with nothing to state and the trusted
wrappers around outside calls described below.

## Layout

- `src/models/` — stored entries (`ClipboardHistoryItem` and its row), the
  user's preference and its global shortcut, the application metadata row.
- `src/actions/clipboard_changed.rs` — the history list and its active entry,
  and every transition on them (load, copy, move, remove, paste, trim).
- `src/actions/history_laws.rs` — properties that span those transitions:
  what each keeps of a well-formed history, and how they combine.
- `src/actions/preference.rs`, `keyboard.rs`, `window.rs` — the preference in
  force, key presses in the history window, focus and shortcut handling.
- `src/views/` — the view models the UI renders (clipped texts, byte-size
  labels, key hints).
- `src/utils.rs` — RGBA bytes to PNG, and PNG to Base64 text.
- `src/repositories.rs`, `src/libs.rs`, `src/result.rs`, `src/platform.rs` —
  the database location, the platform service interfaces, the error type, and
  the keyboard-layout decision of the paste keystroke.
- `tests/` — scenario tests of the whole flow and unit tests of each function.
- `app/` — ordinary Rust around the library: SQLite storage, the system
  clipboard and its listener, the paste keystroke, the view-model runtime and
  its controllers.

Calls into outside crates (`global_hotkey`, `image`, `base64`, `std::path`)
sit behind small trusted wrappers whose doc comments say what their contracts
claim of the outside code.
