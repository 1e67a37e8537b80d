# qmem

The verified core of QMem, a desktop memo app: open, write, and it saves by
itself. Memos and settings live in SQLite (through rusqlite); the desktop
shell around it is a Tauri program.

Layout:

- `src/text.rs`: blank bodies, ASCII lower case, finding one text in another.
- `src/note.rs`, `src/search.rs`: memos, the search order and the search
  itself over the rows of the notes table.
- `src/settings.rs`: settings, their defaults and their validation.
- `src/storage.rs`: the database: a model of the two tables, the calls into
  rusqlite behind contracts, and `initialize`, `save`, `search`,
  `load_settings`, `save_settings`.
- `src/settings_change.rs`: applying new settings to the desktop as a state
  machine that undoes its effects when a step fails.
- `src/lifecycle.rs`: the decisions about closing, quitting and reopening.
- `app/`: the Tauri program that performs what the library decides.
