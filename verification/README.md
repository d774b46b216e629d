# auth_service

An authentication service: sign-up, log-in with an optional second factor
(a six-digit code e-mailed to the user), session tokens carried in a cookie,
token checks and log-out.

- `src/` is the library, verified with Verus. It holds the domain types
  (addresses, passwords, users, attempt identifiers, codes), the store
  interfaces and the in-memory stores, the decisions of the PostgreSQL and
  Redis stores (rows, keys, values, password hashing), and the request
  handlers as functions from a request and the stores to an answer. The
  contracts describe each store by a model (`account`/`accepts` for users,
  `codes()` for pending attempts, `banned()` for banned tokens), and the
  proof functions named `law_*` state what holds across calls.
- `app/` is the HTTP server around it: configuration from the environment,
  the PostgreSQL and Redis connections, token signing and decoding, cookies
  and JSON bodies.
- `tests/` exercises the library on concrete values.
