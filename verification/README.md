# ocpncord_tui

The state machine of a terminal client for a coding-agent server, written in
Verus: key handling, the prompt, the Ctrl+X chords, dialogs, the streamed
transcript, the queue of submissions and the reactions to server events, each
with a contract that Verus proves.

## Layout

- `src/` – the verified library.
  - `app.rs` – `AppState`, the application: `handle_event` takes a key, a
    server event or a tick and returns the next state and the operations the
    server must carry out (`BackendOp`); the `handle_*_result` functions take
    their answers back.
  - `chat.rs` – the transcript and the merging of streamed parts and deltas.
  - `transcript.rs`, `part_renderer.rs` – the text of each part, line by line.
  - `prompt_bar.rs`, `key_chord.rs`, `command_palette.rs`, `modal.rs` – input
    and dialogs.
  - `backend_ops.rs` – how each queued operation is carried out: the server
    calls it makes one at a time (`start_op`, `continue_op`) and the result
    the state takes back.
  - `user_work.rs` – a queue of work waiting for a session.
  - `model.rs`, `event.rs`, `screen.rs`, `text.rs` – data and string helpers.
- `app/` – ordinary Rust: ratatui drawing, the theme, and the driver loop that
  makes the server calls the library asks for and feeds events to the state.
- `tests/` – tests of the library.
