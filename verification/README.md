# client_decision_receipt

The verified core of a small service with which a freelancer sends a client a
proposal link, and the client accepts it, asks for changes or declines it.
The decision is recorded once, sealed with the SHA-256 digest of a canonical
JSON document, and announced by e-mail to both parties.

- `src/` is the library, verified with Verus: input rules (`model`), errors
  (`error`), link tokens and the seal (`seal`), the canonical receipt
  document (`json`, `receipt`), recording a decision (`decision`), the
  e-mail queue (`delivery`), the stored record and its views (`store`),
  the CSV export (`export`), HTTP rules (`web`), storage failures
  (`database`), the demo workspace (`demo`), and properties that span these
  operations (`laws`).
- `app/` is the HTTP service around it (axum, SQLite through sqlx, SMTP
  through lettre, rate limiting through tower_governor).
- `tests/` exercise the library on concrete values.
