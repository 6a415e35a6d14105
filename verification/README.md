# futurecop_mod

The logic of FutureMod, the modding framework and plugin manager for *Future Cop: LAPD*,
as a Verus library whose functions carry contracts that Verus proves.

- `src/plugins`: a plugin's life cycle (load, enable, disable, update, unload), the plugin
  manager and the states it persists, folder names for installed plugins, what a plugin's
  `require` resolves to, and the logic of the plugin libraries (native types and values,
  hook signatures and their trampoline code, memory writes, native structs, the game state).
  Each plugin keeps a ghost record of its script's runs (its main chunk and each of its
  functions, and whether the run raised an error), so the contracts say which script
  function each operation ran, in which order.
- `src/api`: text palettes, colors and the arguments of the game's rendering functions.
- `src/futurecop.rs`: what the mod knows of the game's memory layout and which entities are
  the players.
- `src/server.rs`: the log history streamed to the plugin manager, and the statuses of the
  web API.
- `src/injector`: the plugin manager's user interface as state machines: each view takes a
  message and returns its next state and the work to do.
- `src/named_map.rs`, `src/text.rs`, `src/lua.rs`: an ordered map keyed by names, small text
  operations, and the calls into the Lua runtime.

`app/` holds what runs around the library: reading and writing files, the Lua environment
of plugins, the web API on axum, and logging.
