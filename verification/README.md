# auth_lib

An authentication library for PostgreSQL-backed services: configuration,
input validation, the registration flow, Argon2id password hashing, the
mapping of storage failures to domain errors, and the decisions of a
database setup program.

## Layout

- `src/` — the library, verified with Verus.
  - `utils/config.rs` — builders and conversion of a `RawConfig` snapshot,
    the environment loader, the one-time configuration slot, and the derived
    connection strings.
  - `auth/password.rs` — hashing and verification through the `argon2` crate.
  - `auth/register.rs` — email and password validation, and registration as
    a state machine: each step takes the answer to the previous storage
    request and says what to do next.
  - `storage/` — SQL text and the mapping of database failures to errors.
  - `setup.rs` — env-file parsing, splitting a migration script into
    statements, and the scan for existing data.
  - `utils/text.rs` — character-level helpers with their specifications.
- `app/` — the I/O around the library: the process-wide configuration, the
  sqlx and deadpool-postgres repositories, the async auth service that runs
  the registration steps, and the two setup programs (sqlx and a single
  tokio-postgres client).
- `tests/` — tests of the library on concrete values.
