# blackflower

Verified decision logic of the Blackflower game processes: the native client, the
dedicated server, and the headless agent runtime. The library states each rule as a
Verus contract over mathematical models and proves it. `app/` holds the process glue
that needs the operating system, the network, or floating point: the metric recorder
calls, error messages, the metrics scrape, wall-clock pacing, frame seconds, and the
input accumulators. The terminal dashboards' drawing and event loops, the agent
runtime, and the network runtimes rest on engine crates that this repository does not
contain; the library holds their decisions, and their drivers are not part of it.

## Layout

- `src/lifecycle.rs` — client window lifecycle across resume, suspend, and shutdown.
- `src/input.rs`, `src/controls.rs` — device input reduction and the consecutive
  movement-control schedule inside the server's future window.
- `src/frame_clock.rs` — presentation frame deltas with long suspensions clamped.
- `src/scheduler.rs` — the server's drift-free fixed-rate tick pacer and its telemetry.
- `src/simulation.rs` — outcomes and failures of the simulation host.
- `src/network.rs` — expiry and duration conversions and monotonic identity allocators.
- `src/arguments.rs` — loopback, terminal, and network-endpoint rules for command lines.
- `src/diagnostics/` — agent identities, bounded diagnostic text, status, sensorium and
  decision records, memory occupancy gauges, health transitions, the live diagnostic
  stream, and the per-runtime diagnostics that admit records, follow session and health,
  keep memory occupancy, and return the metric changes and status records to publish.
- `src/foreground/` — terminal dashboards: pages, key handling, the agent board and its
  selection, the text of the agents, sensorium, and decision panels, sparkline
  histories, and value formatting.
- `src/admission.rs` — the loopback authority's identities and single-use reconnect
  credentials, each issue made distinct by its issue number.
- `src/resumption.rs`, `src/peer_progress.rs` — the dedicated server's per-peer
  bookkeeping: session takeovers on resume, retained detached sessions and their
  expiry, synchronization progress, and the clock, activation, snapshot, and
  future-control gates.
- `src/prometheus/` — the metrics scrape: HTTP framing, the text exposition, label
  and series parsing, canonical ordering, and sample lookups.
- `src/telemetry.rs` — metric descriptions and series as plain values.
- `app/` — applies those values to the `metrics` recorder, gives the error types their
  messages, performs the TCP scrape, drives the tick pacer from the wall clock, and
  formats the dashboard cells that need floating point or the clock.
