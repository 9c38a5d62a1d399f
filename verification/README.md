# backend

The backend of a Kanban board service: boards with role-based members
(Owner, Editor, Viewer), ordered columns with To Do / WIP limits, items with
a full history of their moves, and lead-time / cycle-time metrics.

- `src/` is the library, verified with Verus: the domain rules
  (`domain/`), the board, column, item and metrics use cases as step
  functions from a stage and what the storage answered to the next stage and
  action, so that the order of their reads, checks and writes is verified,
  and the decisions of registration, login and token refresh
  (`application/`), the stored
  and transmitted forms of the data and their checks (`adapters/`), and the
  configuration (`infrastructure/`). Identifiers are the 128-bit values of
  UUIDs; instants are microseconds since the Unix epoch.
- `app/` is the server around it: the Axum routes, the PostgreSQL storage
  (sqlx) and the loops that run the use cases' steps against it, JSON forms
  of the data, JWT handling and start-up.
- `tests/` runs the library on concrete cases.
