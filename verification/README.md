# impedanz-server

The backend of impedanz.net: it serves the static Astro build of the site
with its security and cache headers, and hosts the IMPEDANZ member API
(login with server-side sessions, user management, event publishing,
artwork upload).

## Layout

- `src/` — the library, checked by the verifier. It holds the server's
  decisions: request validation, who may do what, what a stored row
  converts to, which events a viewer sees, the last-admin guard and the
  order of an account update, session tokens and cookies, password
  hashing through argon2, how each configuration override is applied and
  in which order, error statuses and messages, and the headers of static
  responses. The proof functions state the properties that span several
  operations (the last-admin guard keeps an admin, drafts stay hidden from
  the public, a login cookie finds its session, a created account is
  found at login, later configuration sources win, 5xx details stay in
  the log).
- `app/` — the program around it: axum routing and extractors, SQLite via
  sqlx, the file system, the environment (including the `_FILE` fallback
  reads), the clock and the log. It also holds the two checks the library
  cannot make: the coordinate range test, which compares floating-point
  numbers, and the parse of the listen address.
- `tests/` — tests of the library on concrete values.
