# slatedb_wal_gc

Garbage collection of a write-ahead log (WAL) that is kept as files in an object store. WAL SSTs
and zero-byte fences share one directory; each class has a policy of its own. A file goes if it is
older than its policy's minimum age and no reader needs it.

- `src/` is the verified library. `model.rs` says what a collection does, `time.rs`, `request.rs`,
  `gc.rs` and `collection.rs` do it, and `laws.rs` proves what holds of every collection. The
  arithmetic on instants and durations is done by `chrono`; what is trusted of it stands in
  `time.rs`.
- `app/` runs a collection against a store, a clock and a filter.
- `tests/` runs the library.
