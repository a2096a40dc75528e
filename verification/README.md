# extension_sdk_mongodb

An SDK for MongoDB server extensions: `cdylib` plugins that `mongod` loads and that register
aggregation stages behind the versioned extension C ABI (API version 0.1).

The crate is in two parts.

- `src/` is the library, verified with Verus. It makes every decision of the SDK: API version
  negotiation with the host, status objects (codes and reasons), byte buffers, stage definition
  parsing and re-serialization, planner properties and stage plans, the execution state machine
  of generator (source) stages, log messages for the host logger, the stage metrics document,
  the parameter of the end-to-end sample stage and the random pipelines of its driver. Calls into
  the `bson`, `serde_json` and `rand` crates go through small trusted wrappers whose contracts
  state what those crates do.
- `app/` is ordinary Rust around the library: the `#[repr(C)]` ABI types, the host-owned status
  and buffer objects with their vtables, process-wide host state, the exported stage entry points
  (`export_transform_stage!`, `export_source_stage!`), serde-based argument parsing, and the
  randomized driver that sends pipelines to a running server.

Tests of the library are under `tests/`.
