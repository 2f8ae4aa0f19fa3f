# ract

`ract` is a conversational command line tool for GenUI and Makepad projects:
it checks and installs the toolchain, keeps its configuration, creates, runs
and packages projects, and starts Makepad Studio or a WASM build.

## Layout

- `src/` — the verified library (Verus).
  - `app/` — the terminal components: run states (`state`), the text field
    (`input`), selection lists (`select`), tabs, key-value lines, timelines,
    the dashboard frame, and the plan that orders a command's dialogs
    (`runner`).
  - `cli/` — the command line's subcommands and the dialogs behind them
    (`check`, `init`, `install`, `config`, `studio`, `wasm`, `uninstall`),
    each a state machine that takes keys and the outcomes of the work it asks
    for.
  - `service/` — the question-and-answer commands: what `check` finds, what
    `pkg` reads from `Cargo.toml`, what `run` and `wasm` run, what `add` and
    `config` write into TOML files.
  - `common/` — TOML documents (read and edited through `toml_edit`) and
    project directories.
- `tests/` — tests of the library.
- `app/` — the executable: argument parsing, the terminal, files and
  processes.
