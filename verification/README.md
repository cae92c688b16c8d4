# numaflow_core

The verified core of a stream-processing pipeline vertex, written in Verus.

- `src/transformer/filter.rs`, `src/transformer/filter/expr.rs`: the filter
  transformer and the evaluation of its expression against a payload.
- `src/decimal.rs`: parsing of base-ten `i32` text, with a spec of its
  rendering and the round-trip law between them.
- `src/runtime.rs`: the daemon client's host URL and HTTP client
  settings, and the application-error report built from a gRPC status.
- `src/pipeline/forwarder/source_forwarder.rs`: the source forwarder and
  the rule that settles a run once its reader and writer have ended.
- `src/models/`, `src/objects/`: the pipeline specification and the
  watermark records.
- `app/`: protobuf and JSON forms of the records, the HTTP report, and the
  asynchronous run of the forwarder.
