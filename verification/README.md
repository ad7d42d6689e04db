# referral

A referral service: owners get a referral code (`adjective-color-animal`)
derived from their identifier, and redemptions of codes are recorded and
exported per project.

- `src/` is the verified library (Verus). `referral_code` maps identifiers to
  codes and proves that the map is one to one between the identifiers
  `0..=MAX_ID` and the word combinations; `words` holds the three word tables
  and proves them sorted, duplicate-free and free of the separator. The other
  modules hold the service's decisions: request validation (`handlers`),
  repository and service error handling (`repo`, `service`), the CSV export
  (`export`) and the arguments of the code listing program (`cli`).
- `app/` is the program around it: the HTTP API (axum), the database access
  (Diesel on PostgreSQL), and the `referral_code` listing, run when the
  program is invoked under that name.
- `tests/` exercises the library, including the check that all codes are
  distinct.
