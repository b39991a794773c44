# etas_host

Host-side rules of the Etas runtime, written in Verus: the functions in
`src/` are verified against their contracts, except the small trusted
wrappers around outside code described below.

- `src/value.rs`, `src/error.rs` — host values, JSON documents and typed errors.
- `src/session/` — session messages and their record envelopes, generation and
  version tokens, session configuration JSON, write receipts and the receipt
  ledger's row rules, and the SQLite-backed operations as state machines
  whose queries run outside: history pages, retention passes, context
  publication, recorded writes with their resolve, append and reconcile
  branches, transaction settling and rollback cleanup.
- `src/storage/` — storage limits and the value budget, admission accounting,
  operation keys and references, memory versions, write outcomes, receipt
  byte accounting.
- `src/stream/` — stream handles, the slot lifecycle (open, upgrading, closing,
  closed, with generations), the read-ahead buffer and reads up to a limit.
- `src/transport/`, `src/tls.rs`, `src/tool/` — HTTP endpoint authority, the
  checks on the addresses an endpoint resolves to,
  timeouts, retries, authentication headers, TLS upgrade results and tool
  responses.
- `app/` — the I/O around the library: tokio streams and TLS, reqwest HTTP,
  SQLite queries and schema driven by the library's state machines, the
  connection-owning worker, endpoint lookup, serde records and JSON conversion, test fixtures.
- `tests/` — tests of the library's behaviour on concrete values.

Outside crates are reached only through small trusted wrappers (`blake3`,
`getrandom`, `url` through `reqwest`, and a few std functions). Each has a
doc comment naming the outside function; where its result can be stated it
carries that contract, where it is a function of its arguments alone it is
given a name, and where it rests on the clock or chance nothing is promised
of it.
