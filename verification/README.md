# live_poll

A live polling server. A presenter creates a poll, starts it and stops it; the
audience votes over a WebSocket; screens show the counts, which they are sent
once a second.

- `src/` is the library, written and proved in Verus: the polls, the counting of
  votes, the connections, the messages and the answers to requests. The handlers
  in `src/state.rs` are specified by the state machine in `src/model.rs`, and
  `src/laws.rs` proves what holds of it.
- `app/` is the server itself: HTTP routes and WebSockets around the library. It
  serves the pages and scripts that it finds under `static/`.
- `tests/` runs the library on examples.

JSON is read and written by `serde_json`. What is believed of it stands in
`src/json.rs`.
