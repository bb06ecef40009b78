# dabbot

The worker of dabBot, a Discord music bot, with its decision logic verified
by Verus.

## Layout

- `src/` — the verified library. Every function but the trusted wrappers
  named below carries a `requires` / `ensures` contract that Verus proves:
  - `bridges/discord.rs`: which messages are commands (prefix, words,
    alias routing) and what a voice state change does to the player;
  - `commands/`: one module per command with its names, description and
    replies; the command table and the laws that tie the message router,
    the table and each command's names together;
  - `table.rs`: an insertion-ordered string-keyed table with distinct keys,
    and its read-after-write laws;
  - `radios.rs`, `discord_fm.rs`: the radio and Discord.FM catalogues,
    found by lowercased name, with the Discord.FM listing sorted;
  - `text.rs`, `sort.rs`: decimal forms, `str::parse`-style unsigned
    parsing, splitting and joining, UTF-8 lengths, and a lexicographic sort;
  - `gateway.rs`, `worker.rs`, `json.rs`, `lavalink.rs`, `lavalink_msgs.rs`:
    the wire formats the worker reads and writes.
- Calls into `humantime`, `serde_json`, `serenity`, `byteorder` and std
  that the library makes stand behind small trusted wrappers, each marked
  `#[verifier::external_body]` with a doc comment saying what its contract
  claims: Verus takes those contracts on trust and does not prove them.
- `tests/` — tests of the library on concrete values.
- `app/` — the process around the library: configuration and catalogue
  loading (TOML and JSON through serde), the Redis frame loop, and replies
  over Discord's HTTP API. The audio-node and queue-service clients, and
  the shared voice-state cache, are not part of this build: commands that
  need them are recognised but not run.
