# openzt

The verified core of an enhancement layer for Zoo Tycoon (2001), written in Verus.

`src/` holds the library, every function proved against its contract:

- `memory`, `text`, `config`: a byte-level model of the game's 32-bit address space with typed
  little-endian reads and writes, the game's string and array objects, string helpers (trimming,
  searching, replacing, decimal formatting) and the config-file value rules (first non-blank
  value, strict integer parsing).
- `images`: TGA, `.pal` palette and animation-frame decoders.
- `awards`, `gamemgr`, `zoostatus`, `zoo_settings`, `ledger`, `music`, `terrain`, `mapview`,
  `habitats`: the rules of the game's managers — the earned-award set and its save format,
  ratings and the simulation clock, the zoo rating, new-guest, message and donation decisions,
  the status tracker's configured settings and finance-history slots, the menu-music fade, the terrain update queue, tile
  elevations and tank placement, the habitat lookup.
- `overlay`, `tooltip`, `displays`, `vanilla_ui`, `window_input`: the state machines of the
  in-game overlay — input capture and cursor, tooltips, money and date read-outs, panels and help
  texts, and the routing of window mouse messages.

`tests/` exercises the library on concrete values. `app/` is the process glue: shared state,
conversions from the UI toolkit's and the clock library's types, and the executable's location.
