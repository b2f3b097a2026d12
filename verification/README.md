# apqp

The domain core of an APQP task service, verified with Verus.

- `src/` — the verified library: task and status models with the workflow
  rules (`models`), the service's error type (`errors`, `error`), events and
  the outbox (`events`), the repository's queries and decisions
  (`repository`), the write commands as a state machine that commits each
  write together with its outbox entry in one transaction (`command`),
  request handling and the health probes (`service`), tenants (`tenant`),
  configuration (`config`), what the browser client derives and shows
  (`client`), the state of its task page and form (`ui`), and laws that tie
  these together (`laws`, `models::task_laws`).
- `tests/` — tests on concrete values.
- `app/` — the HTTP service around the library: Axum handlers, SurrealDB
  round trips, and the serde forms of the library's types.
