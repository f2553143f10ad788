# verco

A terminal client for Git, Mercurial and Plastic SCM driven by keyboard shortcuts,
with its logic verified by Verus.

- `src/` is the library, verified but for four small trusted calls into std and `regex`:
  the screens and their state
  machines (`mode`, `application`, `next`), the key handling (`platform`, `input`, `tui`,
  `select`, `scroll_view`, `add_remove`), the byte-exact drawing (`ui`, `next::ui`), the
  command lines each version control system is asked to run and the parsers of their
  output (`backend`, `git_actions`, `hg_actions`, `version_control_actions`), and the
  bookkeeping of running actions (`worker`, `action_cache`).
- `app/` is the program around it: it reads the terminal, runs the commands the library
  plans, hands their output back to the library and writes what the library draws.
- `tests/` runs the library on concrete values.

Commands are plain values (`ProcessCommand`, `ProcessPlan`); parsing takes what a command
printed as a `String`, so every step between a key press and the command it starts, and
between a command's output and what the screen shows, is proved.
