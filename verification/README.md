# codeg_core

Verified core of a coding-agent host: how the events of agent connections become writes to
conversation rows, and how chat channels are configured, connected and pushed to.

- `src/lifecycle/`: the dispatcher, the workers and what holds of both.
- `src/channels.rs`, `tokens.rs`, `settings.rs`, `weixin.rs`: the commands on chat channels.
- `src/serverchan.rs`, `delivery.rs`: pushing messages through Server酱, and asking for their
  delivery.
- `src/json.rs`, `text.rs`, `table.rs`, `error.rs`: what the others are built on. The calls into
  `serde_json` and the functions of the standard library that are trusted stand in `json.rs` and
  `text.rs`.
- `app/`: the tasks, the HTTP requests and the traits that a host implements. The library decides
  and the app acts: each function of the library says what is needed next, and the app hands back
  what came of it.
