# prm

A terminal project repository manager: a local index of repositories, with
per-project todos (in its SQLite database or in the project's `TODO.md`),
git status badges, history and release information, and shortcuts to
lazygit and tmux.

## Layout

- `src/` is the verified library (Verus). It holds the interface's state
  machine (`app::state`), text-field editing (`app::input`), the todo file
  format (`fs::markdown`), the settings file (`settings`), the decisions of
  the store (`db::repo`), the git probes and parsers (`git`), the launch
  decisions for lazygit and tmux (`launch`), and what the panes show
  (`ui`). Each public function states its result exactly; the `law_*`
  proof functions state what holds across calls.
- The state machine asks for outside work through `Request` values and is
  handed the answer with `AppState::resume`; the git probes work the same
  way, one command at a time.
- `app/` is the program around it: the command line, the SQLite store, file
  and process I/O, and the terminal drawing.
- `tests/` runs the library on concrete values.
