# ferrum

The verified core of the Ferrum chat backend (the REST service and the
websocket service of Geplauder), written in Verus.

- `src/` is the library. Every function in it is verified against its
  contract; the few calls into `validator`, `argon2`, `jsonwebtoken` and
  `std` string functions go through trusted wrappers whose contracts are documented
  where they are declared (`validation.rs`, `password.rs`, `jwt.rs`,
  `text.rs`).
  - `domain/`: validated names, emails, passwords and message contents, and
    the records sent to clients.
  - `settings.rs`: settings records, database connection parameters, the
    broker address and the settings environment.
  - `jwt.rs`: claims, token secret, signing and checking tokens, and the
    authorization of a request from its header and query string.
  - `routes/`: request bodies and their validation, the checks that refuse a
    request, the route errors with their HTTP statuses, the events each
    route publishes, and the order of check, write and event (`flow.rs`).
  - `websocket/`: the websocket server (which user is connected on which
    session, and who is told about each event), the plan for each broker
    event (`dispatch.rs`) and the per-connection session.
- `tests/` exercises the library on concrete values.
- `app/` is the program around it: HTTP routes, database queries, the message
  broker, the clock for a token's issue time, websocket connections and
  settings files.
