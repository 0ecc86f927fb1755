# ashfall

A multiplayer layer for Fallout 3 and New Vegas, verified with Verus.

`src/` is the verified library:

- `id`, `form_id`, `types`, `channel`, `constants`, `crc32`, `string_cache`,
  `event`, `transport`, `protocol`, `text`, `script`: identifiers, packet
  kinds and channels, the pipe and transport framings, the string cache,
  CRC32 and text helpers.
- `bridge`: the in-game side. `hooks` models the game's memory as a
  `MemoryImage` and proves the byte-guarded patches (respawn, frame hooks,
  the behaviour recipes, detours, field access); `network` and `commands`
  answer the client's pipe requests; `events` and `console` keep the
  registries; `plugin` is the script-extender identity.
  The library does not run inside the game process, so it cannot read
  the engine itself. The bridge keeps the engine's references as plain
  values: the host records each reference's state with `observe`, and
  position reads and writes, player reports and NPC samples all work on
  those states; a reference never observed reads as all zero. The
  per-reference getters in `hooks` (`get_pos`, `get_enabled`, ...)
  resolve nothing outside the game and so report the engine's defaults.
- `client`: the game state machine (`game`, `dispatch`, `registry`,
  `widgets`), the mapping between engine events and server packets
  (`sync`), the bridge pipe client (`ipc`), the server transport state
  (`network`) and the server browser list (`server_browser`).
- `master`: the registry of announced servers.

`app/` holds what is not verified: sockets, threads, packet serialisation
with postcard, and the floating-point code (position interpolation,
coordinate checks, the top-down view projection).
