# gmud_backend

REST backend for managing GMUDs (change requests), with cookie-based JWT
authentication and role-based access control. The service logic is a Verus
library under `src/`; the HTTP server, MongoDB access and JSON (de)serialization
live in `app/`.

## Layout

- `src/` — verified library
  - `config.rs`, `cors.rs`: settings read from environment variable values
    (defaults, number and boolean parsing), bind address, allowed browser
    origins (`CORS_ALLOWED_ORIGINS`, plus `localhost`, `127.0.0.1`, `sslip.io`).
  - `roles.rs`, `access.rs`: roles, their names, the role each endpoint admits,
    login against the configured credentials.
  - `tokens.rs`, `json.rs`: token claims, their JSON text, signing (HS256) and
    verification, acceptance by kind (access / refresh).
  - `session.rs`: login decision (stored user first, configured credentials
    otherwise), login / refresh / logout cookies.
  - `user.rs`, `gmud.rs`, `ids.rs`, `validation.rs`: records, input rules, the
    `$set` document of an update, listing plans and pages, object ids.
  - `response.rs`, `error.rs`: response envelopes, error texts, status codes.
  - `text.rs`: decimal text, unsigned parsing, whitespace trimming.
- `app/` — actix-web server, MongoDB queries, serde forms of the library's types.
- `tests/` — tests of the library.

## Access control

| endpoint              | admin | developer | approver |
|-----------------------|:-----:|:---------:|:--------:|
| `GET /gmuds`, `GET /gmuds/{id}` | ✓ | ✓ | ✓ |
| `POST /gmuds`, `PUT /gmuds/{id}` | ✓ | ✓ |   |
| `DELETE /gmuds/{id}`  | ✓     |           |          |
| `POST /users`         | ✓     |           |          |
| `GET /users`          | ✓     |           | ✓        |
