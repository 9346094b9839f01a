# clip_relay

A two-window clipboard relay for Windows: the user binds two windows to
slots A and B; a copy (or Ctrl+Shift+C) in one of them is pasted into the
other, and focus returns.

- `src/` is the verified library (Verus): the shared state and the window
  procedure's decisions (`relay`), the paste routine as a state machine
  with its proved plan (`paste`), the injected key and focus sequences
  (`keys`, `focus`), the UTF-16 clipboard format and retry policy
  (`clipboard`), and window titles and styles (`window`).
- `app/` is the Tauri application and the Win32 calls; it performs the
  actions the library decides on.
- `tests/` runs the library on concrete values.
