# clusterflux_coordinator

The coordinator of Clusterflux as a verified library: what it keeps of tenants, projects, nodes,
processes, artifacts, automated runs and debugging, and how each request changes it. Every function
states in its contract what it returns and what it changes; Verus proves it.

- `src/` is the library. `coordinator.rs` holds the durable state and the active processes,
  `service.rs` the service around it; the other modules are its registries and the requests it
  answers. `laws.rs`, `run_laws.rs`, `hold_laws.rs` and `keyed.rs` state what holds over several
  operations.
- `tests/` runs the library on concrete values.
- `app/` is the program around it: arguments, environment, database and sockets.

Time, tokens, digests and what other services decide are arguments. What the outside crates compute
of a bundle is named in `workflow_bundle.rs`. The one other outside call is `random_secret` in
`interchange.rs`, which draws the secret of a transfer: nothing is promised of its bytes.
