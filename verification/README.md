# datafox

The core of a small SQL editor for Windows built on the Scintilla edit
control, written in Verus.

- `src/` is the verified library: reading `#RRGGBB` colours into Scintilla's
  encoding (`color`), the messages the editor sends to the control (`sci`),
  how the control is built and set up and how the editor answers its replies
  and notifications (`scintilla`), text helpers (`text`), window placement
  (`layout`) and SQL parsing through `sqlparser` (`sql_formatter`).
- `app/` is the Windows program around it: the window built with
  native-windows-gui, the FFI calls into Scintilla and Lexilla, and the
  database pool.
- `tests/` runs the library on concrete values.
