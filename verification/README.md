# Simple Accounts

A small account service: a client solves a hashcash proof-of-work
challenge, opens an account that authenticates with TOTP (OpenPGP keys are
refused for now), gets a session, and has a wallet whose balance the
administrator can change.

## Layout

- `src/` — the verified library (Verus).
  - `configuration`, `randoms`, `text`: settings and their printed form,
    random identifiers, string helpers.
  - `users/models`, `users/openpgp`, `wallets/models`, `tokens/models`, `tokens/stamps`,
    `sessions/models`: the data and its rules (account creation, TOTP
    provisioning, balance changes, stamp validation).
  - `protocol`: the commands an endpoint issues to the database and cache,
    the answers it takes back, and the replies it ends with.
  - `*/endpoints/*`: one flow per HTTP endpoint, each with the laws it keeps
    (what must have happened before an account, a solved challenge or a
    balance is written, and that every request is answered).
- `app/` — the HTTP server (actix-web), PostgreSQL (sqlx) and Redis (r2d2)
  access, the settings file, and the JSON forms of the library's types. It
  runs each flow: performs the command, hands back the answer.
- `tests/` — tests of the library on concrete values.

The service reads `Settings.toml` (writing a default one with a random
administrator key when it is missing) and the environment variables
`SIMPLEACCOUNTS_PSQL_URI` and `SIMPLEACCOUNTS_REDIS_URI`.
