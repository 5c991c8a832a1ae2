# query_rs

The logic of a terminal AI chat client, verified with Verus.

- `src/config.rs` — providers, model entries and the registry of models
  keyed by name (no name twice), with the selected model.
- `src/session.rs` — the session state; slash commands (`/model`, `/switch`,
  `/remove`, `/rename`, `/help`, `/clear`), key and mouse handling, answers
  to chat requests, and the contents of each frame.
- `src/layout.rs` — screen areas (through ratatui's layout solver), hit
  tests, wrapped line counts (through textwrap) and scroll offsets.
- `src/text.rs` — whitespace splitting, prefixes, equality, ordering and
  single-character edits over strings.
- `src/laws.rs` — properties across operations.
- `app/` — the terminal program: configuration file, HTTP requests,
  event loop and drawing.
