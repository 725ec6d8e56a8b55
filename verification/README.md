# mkk_basis

A task-tracking service for teams: registration with e-mail confirmation, login with
cookie-borne JWT tokens, users with avatars, teams and invitations, tasks with a change
history, and comments.

- `src/` is the library, verified with Verus: the rules of every use case (who may do
  what, what a request is refused with and why), the SQL each table runs with its
  placeholders, the cookies, the mappers between layers, and the answers to failures.
  Calls into outside crates (uuid, chrono, argon2, email_address, rand, lettre, image,
  http) stand behind small trusted wrappers whose contracts say what those crates
  document.
- `app/` is the program around it: configuration, logging, the PostgreSQL connection
  (sqlx), SMTP, token signing (jsonwebtoken), and the HTTP server (axum).
- `tests/` runs the library on concrete values.
