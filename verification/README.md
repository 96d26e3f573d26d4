# server

The core of a small authentication API (login, refresh tokens, logout, current
user, roles), written in Verus with its behaviour proved against contracts.

Layout:

- `src/` — the verified library.
  - `error_handler.rs` — the error model and the response that answers each
    error (status, code, message, field details); database failures mapped to
    errors.
  - `validators.rs` — field-by-field request checks, their reports, and the
    acceptance of a JSON body (`ValidatedJson`).
  - `handlers.rs` — request types and their checks; the decisions of the login,
    refresh and logout flows and their responses.
  - `middleware.rs` — bearer-token extraction, token authentication, and the
    current user of a request.
  - `models.rs` — stored rows, instants and the clock.
  - `utils.rs`, `utils/password.rs`, `utils/jwt.rs` — response builders, token
    digests (SHA-256, hexadecimal), Argon2id password hashing, access tokens
    (claims framed as JSON, signed as HS256 JWTs).
  - `text.rs` — verified string helpers.
- `tests/` — tests of the library on concrete values.
- `app/` — the HTTP server around the library: axum routes and extractors,
  sqlx queries, serde copies of the library's types, and `main`.

Calls into argon2 (and its `OsRng`), sha2, jsonwebtoken, serde_json, uuid,
validator and `std::time` sit behind small trusted wrappers. Each wrapper's doc
comment says what its contract claims of the outside call; results that depend
on the clock or the random source are stated only as far as they hold of every
outcome, and a clock before the Unix epoch or a failing random source is
reported as an error rather than a panic. The token decoder is configured not
to read the clock: the library reads it once and checks a token's expiry
itself. A stored password hash whose parallelism is written with nine or more
digits is refused before Argon2 sees it. Everything else in `src/` is
verified.
