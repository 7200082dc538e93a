# skopio

A local-first activity tracker's core, written in Verus: the decisions a
desktop tracker and an editor-plugin helper take are executable Rust with
`requires`/`ensures` contracts proved by Verus.

- `src/` — the verified library. Each module states its behaviour over
  spec functions on sequences and integers:
  - `afk`, `event_tracker`, `input`, `heartbeat`, `buffer`, `shutdown`:
    tracker state machines (one step per event) and the laws they keep;
  - `monitored_app`, `ax`, `language`: classification of the frontmost
    application, its document, browser tab and project;
  - `paths`, `locations`, `duration`, `text`, `clock`, `network`:
    path components, database locations, formatting and instants;
  - `server`, `goals`, `cli`, `sync`, `commands`: server installation
    decisions, time goals, and the records the apps store and send.
  Calls into `url`, `percent-encoding`, `tokei`, `sha2`, `zip`, `semver`,
  `chrono` and `dashmap` stand behind small trusted wrappers whose
  contracts are documented where they are declared.
- `tests/` — tests of the library on concrete values.
- `app/` — the editor-plugin helper program: command-line parsing, the
  SQLite store, the configuration file and the upload to the local server.
