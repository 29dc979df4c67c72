# logappender

A log shipper that sends structured log records from a service to Kafka,
keeps the records it cannot deliver in a local backup file, and resends
them once Kafka is reachable again.

- `src/` is the verified library (Verus): the record model and its
  builder, the configuration table, the queue routing, the batching and
  retry policy, the health-monitor and resender decisions, and the rule
  that decides which stored records survive a resend. `src/laws.rs` holds
  the properties proved across these operations.
- `app/` is the program around it: configuration loading, JSON
  serialisation, the backup file, the Kafka producer and the tokio tasks.
- `tests/` exercises the library on concrete values.
