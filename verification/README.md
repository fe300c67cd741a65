# light_house

A personal-finance bookkeeping service: users record incomes, payments and
transfers against their assets, and each asset keeps a balance sheet.

- `src/` is the verified library (Verus). The ledger workflows
  (`ledger::workflow`) are state machines: each handler takes the outcome of
  the database work it asked for and answers with the next action, with a
  contract that pins that action down. `ledger::plan` states which balance
  adjustments each operation makes and proves the bookkeeping laws over them
  (deleting undoes recording, a transfer conserves the total, changing is
  deleting then recording). The other modules hold the decisions of the
  repositories and handlers (`catalog`, `account`, `balance`, `http`) and the
  error vocabulary (`soc`).
- Calls into `uuid`, `rust_decimal`, `bcrypt`, `rand` (salts and tokens)
  and `jsonwebtoken` (signing, verifying, encoding and decoding tokens) go
  through small trusted wrappers; a stored password is
  stated to be bcrypt's hash of exactly that password under a drawn salt.
- `app/` holds the program around the library: start-up (configuration,
  the database connection, Rocket), the JSON envelope, the request guards,
  the OpenAPI documents, and the database work of the ledger and user
  repositories (sign-up, sign-in, profile changes, MCP tokens). It mounts no
  HTTP handlers yet, and the catalog, balance and role repositories are not
  written in it.
- `tests/` runs the library, including the workflows against an in-memory
  database.
