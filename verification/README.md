# music_bot

The decision logic of a Discord music bot, verified with Verus.

- `src/` is the library. Each chat command (`commands/`, `music/commands/`)
  is a small plan: a function starts it from the command's text, and further
  functions take each outside result (is the bot in a voice call, the
  track's metadata, an API answer, the author's reply) and give the next
  step together with the actions to carry out (`actions.rs`).
  `text.rs` writes and reads decimal numbers, `arguments.rs` splits a
  command's text as serenity's standard framework does, `json.rs` models the
  API answers, `youtube.rs` builds the API addresses and reads the answers,
  and `duration.rs` turns ISO 8601 lengths into `m:ss`.
- `app/` is the bot process: serenity's framework, songbird's voice calls,
  HTTP requests, and the loop that runs each command's plan.
- `tests/` runs the library on concrete inputs.
