# todo_iced_sqlite

A todo list kept in SQLite beside a small piano-roll editor, with the
application's decisions written and proved in Verus.

- `src/text.rs` — Unicode white-space trimming and decimal rendering.
- `src/db.rs` — the todo store on top of `rusqlite`: the statements it sends
  (each built by a function whose contract fixes its text and parameter), a
  ghost log of every statement handed to SQLite with what came back, and how
  rows become todos.
- `src/todos.rs` — the todo panel: what typing, adding, toggling and deleting
  do to the list, the input and the status line.
- `src/pitch.rs` — the window of visible pitches and the rows pitches occupy.
- `src/notes.rs` — the notes of the piano roll, their ids and the edits made
  to them.
- `src/piano_grid.rs` — how the piano-grid widget reacts to the mouse.
- `app/` — the iced program: windows, widgets, drawing, and the floating-point
  geometry of the grid.

Beat positions and lengths are floats in the program; the library carries
them as a type parameter and leaves every computation on them to closures the
program hands in.
