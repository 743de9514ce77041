# ocas

An authorization server for institute accounts (registration, login,
refresh-token rotation, an OAuth2 authorization-code flow with PKCE, a JWKS
endpoint and a jti blocklist), and the client library that applications use
to sign their users in through it.

- `src/` is the library, verified with Verus: email parsing, password and
  token hashing, JWT claims, the blocklist and the rate limiter, the
  decisions of every endpoint, cookies, the client's caches and its
  token-verification state machine. Calls into outside crates (argon2, sha2,
  base64, hex, rsa, jsonwebtoken, dashmap, chrono, uuid, rand) stand behind
  small trusted wrappers whose contracts are stated next to them.
- `app/` is the server and client plumbing around it: HTTP handlers, the
  database, environment variables, serde and token signing.
- `tests/` runs the library on concrete values.
