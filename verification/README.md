# simple_rest_api

An in-memory registry of users behind a small CRUD REST service, with its
storage and business rules verified by Verus.

- `src/timestamp.rs`: creation times, read from the system clock and rendered by chrono.
- `src/entity.rs`: the stored user record and its model.
- `src/dto.rs`: the request and response bodies; a stored user becomes a response without its password hash.
- `src/repository.rs`: the store, a `HashMap` keyed by identifiers assigned from 1 and never reused, with its model `RepoState`.
- `src/service.rs`: unique email addresses, hashed passwords, not-found errors.
- `src/laws.rs`: properties that span the operations, over single calls and over whole histories of calls (read after write, delete undoes create, identifiers that only increase, unique emails).
- `app/main.rs`: the axum server, JSON bodies, OpenAPI docs, request logging, and the lock that shares the service between handlers.
