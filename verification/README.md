# vim_engine

A Vim command parser written as a verified finite state machine, together
with the grid game that it drives.

- `src/parser` — `VimParser::feed` reads one key at a time and answers
  `Incomplete`, `Success(command)` or `Invalid(error)`. Each mode has its
  handler under `src/parser/modes`; the key tables are in
  `src/parser/mapping.rs`. Every handler's contract is its transition
  (`normal_step`, `operator_pending_step`, `resolve_step`, `feed_step`, ...),
  and `src/parser/laws.rs` proves what holds of every key: resolved commands
  clear the context, operator counts multiply, counts are decimal numbers,
  invalid input aborts a waiting operator, and so on.
- `src/game` — the map and the player's moves (`map.rs`, `movement.rs`),
  the editor state that feeds keys to the parser and carries out commands
  (`vim.rs`), keyboard translation (`input.rs`) and the status-line badge
  (`badge.rs`).
- `app/` — the Bevy program around the library: plugins, ECS systems,
  rendering and the Houdini asset export.
- `tests/` — the parser's scenarios, the movement scenarios and further
  checks of the contracts on concrete values.
