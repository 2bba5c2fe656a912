# ucr-storage-sqlite

The storage rules of the UCR local store, verified with Verus, and the SQLite
plumbing around them.

- `src/` is the verified library. Each module holds the rules of one part of the
  store: how records are encoded into their SQLite columns and decoded back
  (with round-trip lemmas), how a stored database is recognised and migrated,
  and the decision functions that say what every durable write does with what is
  already stored (write-once records, idempotent retries, cursors and leases,
  lifecycle transitions). Laws that relate several operations are public proof
  functions next to the operations they speak of.
- `app/` is ordinary Rust: the `SqliteLocalStore` type, its connection handling,
  file permissions, the schema it creates (up to version 19) and the SQL of the
  stores whose tables that schema holds: commands, the event journal, identities
  and bindings, devices, intents and delivery attempts, plus the webhook
  dispatch listing. It reads rows, hands them to the library as plain values,
  and performs the writes the library decides on. The stores whose tables belong
  to later schema versions (subscriptions, groups, MLS groups, calls, bridges,
  federation, conference grants, anti-entropy) have their rules in `src/` but no
  SQL here. The protocol rules the store applies (canonical forms, validation
  verdicts, limits) are supplied by the caller through the `ProtocolRules`
  trait.
- `tests/` exercises the library on concrete values.
