# tuiserve

A terminal application served over SSH. Every client sees a sidebar and a
counter shared by all clients; the running server answers `q` (leave) and the
left and right arrows (change the shared counter).

The library also holds the key handling of every pane (the sidebar, the
counter pane, a games list with Wordle, and the first steps of Snake), which
the server does not yet route keys to.

- `src/` is the library, verified with Verus: key handling for every pane,
  the Wordle rules and word lists, the Snake board, the byte-level input
  parser, and the redraw bookkeeping of a client session.
- `app/` is the program around it: the SSH server (russh), the tokio event
  loop, and drawing with ratatui.
- `tests/` runs the library on concrete inputs.
