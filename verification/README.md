# banking_graphql

The verified core of a banking GraphQL service (users, orders, deposits),
written in Verus.

- `src/` is the library, verified by Verus:
  - `domain/` users, orders, deposits and the domain errors;
  - `application/` commands and the user-creation use case as a step function
    (make the user, save it, publish `USER_CREATED`, answer);
  - `adapters/inbound/graph_ql/` the GraphQL inputs and views and their mapping;
  - `adapters/outbound/postgres.rs` the stored rows, their mapping, and what a lookup answers;
  - `adapters/outbound/kafka_service.rs` the published event and the consumer's decisions;
  - `config/` the database configuration read from setting values;
  - `ids.rs`, `clock.rs`, `money.rs`, `text.rs` identifiers (UUIDs as `u128`),
    instants, decimal amounts and text rules, with the calls into `uuid`,
    `chrono`, `rust_decimal`, `serde_json` and std behind trusted wrappers.
- `app/` is the program: Actix and async-graphql, the Postgres repository (sqlx),
  the Kafka producer and consumer (rdkafka), and the wiring in `main.rs`.
- `tests/` exercise the library.
