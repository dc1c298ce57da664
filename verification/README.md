# doodoo_logistics

The domain core of a logistics back end, written in Verus: shipments and
their status life cycle, proofs of delivery, payments and the gateway reports
that settle them, complaints and their comments, user accounts with bcrypt
passwords, access-token claims, the answers given to failed requests and the
route table of the web service.

## Layout

- `src/` — the verified library. Each type has a view (`@`) that the
  contracts speak of; validation functions state the exact list of problems
  they report; status machines are spec functions with laws proved about
  them (no move from a final status, moves only go forward, names read back
  to the same status). The rules that the services apply between storage
  calls (`*_rules.rs`) take the storage results as arguments.
- `src/ids.rs`, `src/clock.rs`, `src/money.rs`, `src/user.rs`, `src/text.rs` —
  the calls into `uuid`, `chrono`, `rust_decimal`, `bcrypt` and `std` that the
  library makes, each behind a small function whose contract is trusted.
- `tests/` — scenario tests run against the compiled library.
- `app/` — the web server: actix-web handlers, sqlx repositories, serde
  shapes, JWT signing, and the floating-point parcel measures.

Identifiers are the 128-bit values of UUIDs, instants are microseconds since
the Unix epoch, calendar days are counted from the common era, and amounts
are decimal mantissa and scale.

The error variants `ComplaintNotFound`, `UserNotFound`, `UserNotFoundWithId`,
`UserWithEmailAlreadyExist`, `UserStatusIsNotActive`,
`UserIsNotServiceProvider` and `InvalidCredentials` carry texts of this
project's own choosing (see `DomainError::text`).
