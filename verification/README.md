# procmux

A terminal process manager: it starts every process of a Procfile in its own
pseudo-terminal and shows them side by side, two panes to a row, or one
fullscreen under a tab bar.

- `src/` is the verified library. It decides what every key does
  (`app.rs`), which bytes an interactive pane forwards (`keys.rs`), how the
  screen is divided and what each pane shows (`ui.rs`), and which processes a
  Procfile declares (`procfile.rs`). `laws.rs` states properties that hold
  across keys and states.
- `app/` is the program around it: terminal set-up, the event loop, the
  ptys, and drawing with ratatui.
- `tests/` runs the library on concrete inputs.
