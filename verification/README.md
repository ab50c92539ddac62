# upgo

The services of the upgo stack — authentication, API gateway, configuration
management over RNacos, and the S3-backed file repository — with their logic
in a library verified by Verus.

## Layout

- `src/` — the verified library.
  - Authentication domain: `session`, `email_verification`, `account_deletion`,
    `password`, `jwt`, `jwt_service`, `events`, `error`, `ids`, `time`, `digest`,
    `mail`, `account_client`.
  - The authentication service as state machines: `flow` (effects and
    replies), `login_flow`, `account_flow`, `refresh_flow`, `sessions_flow`,
    `cleanup_flow`. Each operation asks for one effect at a time (a store
    query, a call to the account service, an e-mail, an event) and is resumed
    with the reply; the decisions of each step are taken, and specified, there.
  - Edges: `middleware` (request authentication), `grpc` (status mapping and
    request fields), `gateway` (routing, forwarding, static assets),
    `config_mgr` and `config_cache` (RNacos URLs, listener protocol, local
    cache), `frs` (file handler decisions and settings).
  - `text` — verified string helpers the others build on.
- `tests/` — tests of the library, run against the real outside crates.
- `app/` — the programs around the library (`auth`, `gateway`, `config-mgr`,
  `frs`, chosen by the first argument): PostgreSQL, SMTP, NATS, HTTP and S3
  calls, and the loop that performs the effects the flows ask for.
