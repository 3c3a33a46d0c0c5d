# extrittio_backend

Business rules of the Extrittio IoT backend, written in Verus and proved
against their contracts.

- `src/` is the verified library: pagination, the persistence failure
  taxonomy, device shadows (JSON merge and delta), firmware versions and OTA
  deployment policy, rule-action outbox framing and envelope decoding, metric
  value storage, alert and blueprint decisions, zone shapes, and the other
  decisions that persistence adapters take inside their transactions. Laws
  that relate several operations are public proof functions named `lemma_*`.
- `app/` is ordinary Rust around the library: conversions between
  `serde_json` values and the library's JSON model, Diesel error mapping,
  error types implementing `std::error::Error`, the asynchronous ports that
  hosts implement, and PostgreSQL adapters for zones and shadows that run the
  library's decisions inside database transactions.
- `tests/` exercises the library on concrete values.

Calls into outside crates go through a few trusted items, each documented
where it is declared: the SHA-256 digest of `sha2`, random UUIDs of `uuid`,
and the equality of `chrono::NaiveDateTime`.
