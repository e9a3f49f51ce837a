# moto_workshop

The rules of a motorcycle workshop's desktop application — customers,
motorcycles, service visits and their parts, inventory and invoices — as a
Verus-verified library, with the database and command plumbing around it.

- `src/domain/` — the entities and their validation rules: every constructor
  and mutator states exactly what it produces or refuses, and the service
  visit lifecycle, part voiding and invoice totals carry proved laws.
- `src/application/` — the decisions each use case takes between reading
  and writing the database (which record is inserted, which error is
  returned), as functions of what was read. A failed database operation is
  kept as a `DatabaseError`: the database's own words and SQLite's extended
  result code, read once through rusqlite where the failure is recorded, so
  that messages and duplicate-key refusals are stated over plain values.
- `src/commands.rs`, `src/diagnostics.rs` — the errors the user interface is
  shown, and the messages of the application errors.
- `src/storage.rs`, `src/text.rs` — stored status texts, `LIKE` escaping,
  trimming, control-character checks and decimal rendering.
- `app/` — SQLite access with rusqlite, the schema migrations, the use-case
  services that run the library's decisions inside transactions, and the
  serde-facing command handlers.
- `tests/` — concrete cases for every module.
