# ind_persistence

The Postgres persistence layer of the reading app, split in two:

- `src/` is the verified core, written in Verus. It holds what the repositories decide and
  compute: the SQL that the Library filter language compiles to, the text codes of the stored
  enumerations, the acknowledgement of Obsidian export runs, the admission of search reindexes,
  the hand-off of job-outbox rows, the save/restore rules of Library entries, the sanitising of
  remote feed text, and the smaller rules of the other repositories. Each public function states
  its result in its contract, and the laws that relate several functions are proof functions.
- `app/` holds the Postgres adapters: they run the statements the core builds with `sqlx`,
  answer the facts the core asks for, and perform the writes it chooses.
- `tests/` runs the core on concrete values.

The calls into outside crates that the core makes (chrono's timestamp reading and day
arithmetic, uuid parsing, Unicode lower-casing) are in `src/outside.rs` and `src/text.rs`,
each with the contract it is trusted to meet.
