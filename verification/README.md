# akagi

Protocol and planning core of a mahjong assistant, verified with Verus.

- `src/bridge/` speaks the wire formats: tile labels (`label`), Tenhou client
  frames (`tenhou`), Riichi City tile codes and packets (`riichi_city`).
- `src/autoplay/` turns one chosen action into steps. `tenhou` plans for the
  Tenhou client (buttons, discards, the rewrite of the client script),
  `riichi_city::round_advance` decides when to ask for the next round,
  `inject` numbers and queues injected packets.
- `src/text.rs`, `src/schema.rs`, `src/config.rs` and `src/game_state.rs` hold
  what the others share.
- `app/` is the ordinary Rust around it: locks, timers, logs and conversions.
- `tests/` runs the library with the real outside crates.

What every function does stands in its contract. What holds across functions
is stated by the proof functions whose names begin with `law_`. Calls into
`serde_json`, `tokio`, `rand` and the clock go through small wrappers, each of
which says what is believed of the call.
