# taskboard

The backend of a task board (boards, groups of cards, cards, card metadata,
board members with roles, and accounts), with its rules proved in Verus.

- `src/` is the library. Every HTTP handler of the service is a state
  machine: given the outcomes of what it asked the outside world so far
  (`flow::Outcome`), it says what to ask next (`flow::Request`) or what to
  answer. Its contract gives that step for every transcript of outcomes.
  The board handlers share one course (`boards::api::gate`): authenticate
  the bearer token, find the board, fetch the caller's role, check it, then
  do the work. The laws proved there include that no handler asks for a
  change of stored data before the caller is authenticated and holds the
  required role, and that refused callers get the refusal whatever follows.
  Password hashing (`rust-argon2`, `rand`) and lower-casing are called
  through small trusted wrappers whose contracts are stated in
  `auth/utils.rs` and `text.rs`.
- `app/` is the program: the axum routes, the SQLite statements (sqlx),
  JWT encoding and decoding (jsonwebtoken, with serde), the clock and the
  environment. It carries out each request a handler makes and feeds the
  outcome back.
- `tests/` runs the handlers on concrete transcripts.
