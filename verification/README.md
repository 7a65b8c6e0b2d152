# emm_server

The server of a small money manager: users register and log in, and keep
records of money flows in sheets grouped into collections, stored in SQLite.

- `src/` is the verified library (Verus). It holds the decisions of the
  request handlers, session tokens (bearer header, SHA-256 hashing, random
  generation, expiry), password hashing with Argon2, calendar dates as the
  database stores them, the default layout of a new account, the import of
  records and the assembly of a user's bootstrap.
- `app/` is the program around it: the axum routes, the SQLite queries
  (rusqlite), JSON shapes and logging.
- `tests/` exercises the library on concrete values.
