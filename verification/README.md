# grade_tui

The logic of a terminal dashboard for course grades, verified with Verus.

- `src/app.rs` — the dashboard's state machine: `App::update` takes an event (a key
  press, a resize, a timer tick or the result of background work) and gives the next
  state and the background work to run (`Action`).
- `src/model.rs` — the course data the dashboard reads, as plain values, and lookups,
  category extraction and code-point sorting over it.
- `src/editor.rs` — the text fields, backed by `tui_textarea`.
- `src/text.rs` — trimming, word splitting and name layout.
- `src/display.rs` — layout decisions of the screens: column widths, scroll windows,
  bar lengths and colour families.
- `src/theme.rs` — the default palette and theme file overrides.
- `src/protocol.rs` — how replies of the grading back end are read.
- `src/laws.rs` — properties that hold across events.

`app/` is the terminal program: it runs the background work (Python subprocesses), reads
the theme file, and draws the screens with `ratatui`.
