# rinit (verified core)

The decision logic of the rinit service manager, written in Verus.

- `src/` — the verified library: targets and modes, IPC requests and
  replies, the control commands' checks and bookkeeping, the choice of the
  configuration source, the daemon's socket address, its argument handling,
  and the daemon's decisions on signals, child reaping, shutdown and the
  handling of each request (as an ordered plan of operations on the
  service graph).
- `tests/` — tests of the library on concrete values.
- `app/` — the daemon's edge: argument parsing with lexopt, configuration
  with figment, logging, signals, reaping and rebooting with nix and tokio,
  IPC with remoc, and the command-line types with clap and serde.
