# yuehai_bookmark

A bookmark service's authentication core, written in Verus.

- `src/` is the verified library: the registration and login request checks (trimming,
  email normalization, the email rule, length limits), session tokens (32 random bytes in
  lowercase hex, stored only as their HMAC-SHA-256), Argon2 password hashing and
  verification, the bearer-header reading, the start-up settings, the error and reply
  envelopes, and the decision steps of registration, login and token authentication as
  state machines whose database work is left to the caller.
- `app/` is the HTTP server around it (axum, sqlx, tokio): configuration from the
  environment, the connection pool, the SQL, the handlers (register, login and the
  current user), and the loops that run the library's steps against the database.
- `tests/` runs the library on concrete values.

Calls into `argon2`, `hmac`/`sha2`, `getrandom`, `str::to_lowercase` and `String::push` stand behind
small trusted wrappers whose contracts are stated in their doc comments.
