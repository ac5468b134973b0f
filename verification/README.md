# user_api

The rules of a small user-management HTTP API (users, Firebase phone
login, session JWTs), written as a Verus library with their contracts
proved, and a thin Rocket server around it.

- `src/` — the verified library: response envelope (`response`), paging
  (`pagination`), text primitives (`text`), session tokens (`jwt`),
  Firebase ID-token decisions (`firebase`), user endpoint rules (`users`),
  the login step machine (`login`), the bearer guard (`auth`), database
  settings (`db`) and the plain endpoints' answers (`routes`).
- `app/` — Rocket routes and guards, the SeaORM entity and pool, the
  Firebase key fetch, environment reading, and serde copies of the
  library's types.
- `tests/` — tests of the library on concrete values.
