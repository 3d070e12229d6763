# den

A text editor for the terminal, with a file tree, a shell in a pane, and a debugger that speaks the
debug adapter protocol.

- `src/` is the editor itself: a state machine that takes in input, the outcomes of actions and the
  messages of a debug session, and asks for actions. It is verified with Verus, down to the calls
  into the standard library and `serde_json` that are taken for granted.
- `app/` is the program around it. It waits for input, performs the actions, and draws the screen.
  The text view, the bars, the file tree, the panes and the debug adapters are given to it through
  the traits in `app/parts.rs`.
- `tests/` runs the library.

## Where to look

| What | Where |
| --- | --- |
| The state, and what always holds of it | `src/editor.rs` |
| What a key, a paste or a command does | `src/dispatch.rs`, `src/panels.rs`, `src/debugging.rs` |
| What a debug session says | `src/debug_events.rs`, `src/dap.rs` |
| What follows from the outcome of an action | `src/replies.rs` |
| What is drawn | `src/screen.rs`, `src/layout.rs` |
| How a program is launched | `src/launch.rs`, `src/paths.rs` |
| What a path is made of, and how paths are joined | `src/components.rs`, `src/paths.rs` |
| Where a new file or folder is put | `src/paths.rs`, `src/placement.rs` |
| Breakpoints, and how an adapter is told of them | `src/breakpoints.rs`, `src/sync.rs` |
| What holds across commands | `src/laws.rs` |
| The calls into `serde_json`, and what is taken for granted of them | `src/json.rs` |

Numbers that a debug adapter sends as floating point numbers are read in `app/convert.rs`; the
library gets their whole parts, and tells by how they are printed which have a fraction.

Paths that are no Unicode text get a text of their own in `app/convert.rs`, by which the library
knows them, and are found again by it.
