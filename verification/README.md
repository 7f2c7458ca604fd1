# tor_client

A Tor client for the 1M5 bus: it attaches to a Tor daemon running on the host
(SOCKS5 on 9050, control port 9051 probed for readiness) or to an embedded
backend, in one of three modes (`ra.tor.mode`: `local`, `embedded`, `auto`).

Layout:

- `src/` — the verified library (Verus).
  - `status.rs` — `Mode`, `Status`, `Backend` and their one-byte codes.
  - `config.rs` — reading configuration values: `Mode::parse`, decimal ports
    and timeouts, lookups in the configuration map.
  - `detector.rs` — where the local daemon is looked for.
  - `http.rs` — URL splitting, the GET request, the response body, error texts.
  - `socks.rs` — the SOCKS5 CONNECT handshake as a state machine.
  - `fetch.rs` — one HTTP GET through the proxy as a state machine.
  - `envelope.rs` — the bus message: its `url` header and how a send's
    outcome is recorded into it.
  - `client.rs` — `TorClient`: start, stop and send, with the runtime fallback
    between the local daemon and the embedded backend in `auto` mode.
  - `clock.rs` — epoch milliseconds for rate-limiting re-probes.
- `app/` — the network plumbing that performs what the state machines ask
  for (TCP probes, the proxy connection, envelope updates).
- `tests/` — tests of the library.

This build has no embedded backend: activating it reports `NotBuilt`, so a
client without a local daemon ends `start` with `false` and `Disconnected`.
