# rhd_chat

The chat and scenario engine of the rhd daemon, written in Verus. The
functions in `src/` carry contracts that Verus proves, except the small
wrappers marked `#[verifier::external_body]` around calls into `tokio`,
`tokio_util`, `serde_json` and `std`: their contracts are trusted, and each
one's doc comment says what it claims of the outside code.

## Layout

- `src/` — the verified library.
  - `stream_fsm.rs`, `state.rs`, `manager.rs` — the stream lifecycle (run,
    pause, resume, abort, queued messages) and the table of active streams.
  - `turn.rs`, `event.rs` — one chat turn: streamed chunks, how a stream ends,
    the tool loop's checks, and the events reported to listeners.
  - `tools.rs`, `builtin.rs`, `todo.rs` — tool names and routing, tool-call
    ids, the built-in TODO and role tools and their definitions, the TODO
    checklist and the environment details.
  - `history.rs` — a chat's stored history with tool calls as the AI receives
    it, and the stored texts of tool-call turns and tool results.
  - `projects.rs` — attaching projects, conflicts, role prompts.
  - `scenario.rs`, `placeholder.rs`, `executor.rs` — scenarios, their
    validation, `%step.field%` placeholders and the executor's decisions.
  - `session.rs` — the WebSocket session's decisions.
  - `chat_log.rs` — the text of the chat log.
  - `templates.rs` — the embedded prompt templates.
  - `text.rs`, `keyed.rs` — verified string operations and a string-keyed map.
  - `runtime.rs` — declarations of the runtime types (`tokio`, `tokio_util`),
    the few calls made on them, and the log of the tokens cancelled and
    notifiers woken.
- `tests/` — tests of the library.
- `app/` — the parts that do I/O: scenario files (YAML), log files, command
  processes, WebSocket payloads, error messages.

The library reads no clock: times such as a queued message's `queued_at` or a
stored message's `created_at` are arguments, read by the caller.

Run `cargo test` for the tests; Verus verifies `src/lib.rs`.
