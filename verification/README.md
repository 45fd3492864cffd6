# aes_kernel

The core of the AES kernel, verified with Verus.

- `src/` is the library. Each module states its behaviour as `requires` /
  `ensures` contracts over spec functions and views, and Verus proves them:
  the message protocol (`protocol`), topic routing of published envelopes
  (`event_bus`), goals and their lifecycle, repository and manager (`goals`),
  missions with their lifecycle, bounded queue, scheduler and executor
  (`mission`), knowledge records and the handler that turns completed
  missions into knowledge (`knowledge`), and the small kernel services
  (`registry`, `state`, `security`, `health`, `metrics`, `tracing`,
  `errors`, `config`), and the core services that boot registers
  (`bootstrap`). UUIDs, the clock and JSON payloads go through the
  `uuid`, `chrono` and `serde_json` crates in `ids` and `json`.
- `app/` is the `aesd` daemon: configuration loading, logging, the
  in-memory bus that calls subscriber closures (isolating panics),
  publishing of the events the library returns, confidence scores, and the
  boot sequence.
- `tests/` exercises the library on concrete values.
