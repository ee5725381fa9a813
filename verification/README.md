# fund_transparency

Verified core of a community fundraising portal with spending transparency: donations and
refunds, project spending disclosure, receipts, fulfillment verification, comment
moderation, notifications, analytics events and webhooks.

- `src/` is the library, written in Verus. Every function there carries a contract that
  Verus proves; calls into outside crates (argon2, HMAC-SHA256, SHA-256, AES-GCM, base64,
  uuid, rand, chrono, url, qrcode, csv, serde_json) go through small trusted wrappers
  whose contracts say what the crates' sources show.
- `tests/` runs the library with the real outside crates linked.
- `app/` is the HTTP server around it (axum, SQLite through rusqlite, key files): it reads
  requests and the store, asks the library for each decision, and writes the answers.

Modules of the library: `account` (registration, login, password re-entry, two-step
confirmation), `access` (tokens, rate-limit keys, nonces, roles, ownership), `auth`
(password hashing, session tokens, nonces), `crypto` (encryption at rest), `donations`,
`receipts`, `fulfillment`, `moderation`, `notify` (do-not-disturb deferral), `webhooks`,
`events`, `queries` (paging, filters, export), `display` (what the pages show and send),
`ratelimit`, `enums`, `types`, `codec`, `text`.
