# warpgate_connect

A terminal client for [Warpgate](https://github.com/warp-tech/warpgate) SSH bastions: it fetches
the SSH targets, lets the user search them and filter them by group, and opens an `ssh` or
`sftp` session through the bastion. A `list` command prints the targets as tab-separated values.

The decision logic is a library verified with Verus (`src/`); the terminal, the network, the
settings file and process spawning live in a thin front end (`app/`).

- `src/app.rs` — the client's state, and what each key press and each event does to it
  (`App::handle_key_global`, `App::handle_app_event`), stated over spec functions.
- `src/laws.rs` — properties proved over those contracts: highlights stay inside their lists,
  the list holds only fetched SSH targets of the chosen group, `Ctrl+N`, `Tab` and `F1` come
  back where they started, `Esc` closes dialogs and leaves the settings unsaved, and others.
- `src/filter.rs`, `src/fuzzy.rs` — narrowing and fuzzy ranking of the targets
  (`nucleo_matcher` does the scoring).
- `src/groups.rs` — the group picker's rows, counted and sorted.
- `src/screens.rs` — what the screens show: status, empty-list messages, highlighted name runs,
  column widths.
- `src/config.rs`, `src/utils.rs`, `src/numbers.rs`, `src/list.rs`, `src/update.rs` — settings,
  host and login derivation, port text, the `list` output, and the release comparison.
- `src/input.rs`, `src/selection.rs`, `src/text.rs` — the text inputs (`ratatui_textarea`), table
  highlights (`ratatui`'s `TableState`) and string helpers, behind small trusted wrappers.

`tests/` runs the library against the real outside crates.
