# convergio_build

The self-build module of the daemon: it builds, tests and deploys the daemon
itself. This crate holds its logic, verified with Verus:

- `src/test_output.rs` reads the number of passed tests out of `cargo test`
  output (`src/text.rs` holds the splitting, trimming and number reading it
  rests on);
- `src/pipeline.rs` is the build pipeline (`check`, `test`, `build
  --release`, digest, size) as a state machine, with the laws that order it;
- `src/deploy.rs` is the deploy and rollback of the binary as a state
  machine, with its safety laws; `src/paths.rs` holds the paths they use;
- `src/status.rs`, `src/types.rs`, `src/ids.rs`, `src/commit.rs`,
  `src/digest.rs` hold the build record, its status, its id, the commit
  label and the binary digest;
- `src/requests.rs` holds the deploy request (look the build up, refuse
  unless it succeeded, deploy, mark it deployed) and the background build
  (mark it building, run the pipeline, record the outcome) as state machines;
- `src/api.rs` and `src/extension.rs` hold the routes, the rules of the HTTP
  handlers, the tool definitions, the manifest, the schema, health and metrics.

`app/` is the service around it: SQLite, processes, files and the axum
routes. It performs the actions the state machines ask for.
