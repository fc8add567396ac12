# caldav_server

A CalDAV server with an MCP (Model Context Protocol) endpoint, written as a
verified library (`src/`) and a thin executable around it (`app/`).

`src/` holds the logic, each function with a Verus contract:

- `ical` — building VEVENT/VCALENDAR text and reading fields back from it
  (with the proof that a built event reads back to its fields);
- `caldav` — request dispatch, Basic authentication, path handling, the
  PROPFIND / PROPPATCH / MKCALENDAR / PUT / REPORT decisions, and the
  multistatus XML that answers them (`caldav/xml`: scanning with quick-xml,
  namespace resolution, property sets and filtering, the response writer);
- `db` — the row types, permissions, password and token hashing (argon2),
  identifiers and tags, sorting of shared calendars, migration scripts;
- `mcp` — JSON-RPC error objects, method names, sessions, bearer tokens, the
  tool definitions and the reading of tool arguments;
- `config`, `error`, `text`, `ids` — configuration values, application
  errors, string helpers and UUID generation.

`app/` holds what Verus does not see: the axum routers and handlers, the
SQLite queries (sqlx), the command line (clap), JSON (serde) and logging.
