# frond_tui

The navigation, scrolling, keybinding and editing logic of `frond`, a terminal chat
client whose conversations branch: a dialogue holds trees, a tree holds alternative
branches, a branch holds messages.

- `src/` is the library, verified with Verus. It holds the state of the interface and
  every decision taken on it: which branch or tree is shown, which message is focused,
  how the view scrolls, how keys map to actions, what the editor does with a key, what
  leaving the editor asks of the dialogue engine, how rows and areas are measured. An
  action that needs the world outside (the dialogue engine, the desktop clipboard)
  comes back as an `Effect`; its outcome is handed back to the library.
- `app/` is the terminal program around it: it reads keys, performs the effects with
  the dialogue engine and the clipboard, and draws with ratatui what the library lays
  out.
- `tests/` runs the library on concrete states.
