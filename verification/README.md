# disease

Game server for a location-based zombie game. Players report their position;
the server spawns zombies and items around them, moves the zombies every tick,
starts engagements when a zombie or another player comes within reach, and
settles encounters between players (fight, befriend, rob, run away).

- `src/` — the verified rules: state codes (`consts`), stored records
  (`database`), settling player encounters (`duel`), reading client updates
  (`update`), what a player is shown and how resting heals (`nearby`),
  timestamps (`clock`), and the tick's decisions and spawning (`world`).
- `app/` — the HTTP server, the database access and the floating-point map
  geometry, calling the library for every decision.
- `tests/` — tests of the library on concrete values.
