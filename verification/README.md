# libultimate_plugin

A game plugin that lets an outside program drive a fighter: it replays
requested controller states, turns commands into the game's command flags,
and writes out the state of every fighter once per frame.

- `src/` is the verified library (Verus): data-file naming (`paths`), the
  marker-guarded fetch protocol (`fetch`), controller-state replay
  (`controlstate`), command resolution (`command`), the per-frame player table
  (`gamestate`) and the decisions of the game hooks (`hook`).
- `app/` is the plugin itself: hook installation, the game's readings and
  files, JSON, and the loops that perform the library's actions.
- `tests/` runs the library on concrete values.
