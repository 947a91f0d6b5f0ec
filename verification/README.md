# pod-os-client

A client library for the Pod-OS Gateway whose protocol logic is verified with
Verus.

## Layout

- `src/` — the verified library (crate `pod_os_client`):
  - `message/` — message types, intents, header layouts, the 9-byte
    length-prefixed wire codec (`encoder`, `decoder`, `wire`, `records`,
    `payloads`), opt-in validation, and the proofs that decoding reads back
    what encoding wrote (`roundtrip`, `replies`, `requests`);
  - `config`, `config_loaders` — configuration with its defaults and the
    INI / environment loaders;
  - `connection/` — framing decisions of the transport (length prefix, read
    chunk sizes, write progress), address resolution and retry verdicts;
  - `client`, `readiness/`, `health` — the decisions of the client's loops:
    authentication results, reconnect and keepalive timing, readiness
    polling, health-check replies;
  - `knowledge` — the catalogue of embedded agent documents;
  - `text` — character-level helpers and the few trusted conversions of std.
- `app/` — the asynchronous runtime around the library: sockets, tasks,
  timers, registries, serde/thiserror/tracing integrations and the document
  texts. It calls the library for every decision it makes.
- `tests/` — tests run against the compiled library.

Durations in the library are whole milliseconds; the runtime converts them to
and from `std::time::Duration`, and applies the floating-point backoff
multipliers.
