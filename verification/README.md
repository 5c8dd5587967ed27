# aiondb

The core data model of a distributed bitemporal database, verified with Verus.

- `src/hlc.rs` — hybrid logical clock timestamps, their rendering, and the
  clock (`HLC`) whose `now` and `observe` decide the next timestamp from the
  last one, the wall clock reading and, for `observe`, a received timestamp.
  Proved: every issued timestamp is strictly after all earlier ones.
- `src/order.rs` — the `<` order of timestamps and row identifiers.
- `src/identity.rs`, `src/record.rs` — node, row and schema identifiers, records.
- `src/interval.rs` — half-open valid-time intervals, containment and overlap.
- `src/store.rs` — the in-memory store with point-in-time and range queries.
- `src/wal.rs`, `src/replication.rs`, `src/consensus/` — log and consensus types.
- `src/text.rs` — decimal rendering.
- `app/` — the system clock, mutex-guarded shared handles, serde and
  `thiserror` forms of the types, and asynchronous consensus traits.
