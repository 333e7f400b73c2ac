# sumire

The request-handling rules of the sumire notes service, verified with Verus.

- `src/` is the library. `api/` holds one module per endpoint group
  (`users`, `notes`, `token`, `wah`, `health`) and the field rules in
  `api/validation.rs`; each endpoint is a chain of step functions that take
  what the database answered and say what to do next. `grammar.rs` holds the
  accepted e-mail and username shapes, `text.rs` white space, trimming and
  decimal rendering, `smtp.rs` the code e-mail, and `outside.rs` the calls into
  `argon2`, `uuid`, `chrono`, `rand`, `lettre` and std that the rules use.
- `app/` is the server: axum routes, cookies, SQL queries, SMTP delivery,
  configuration. It hands plain values to the library's step functions and
  turns their answers into HTTP responses.
- `tests/` runs the library on concrete values.
