# rtx

The game rules of a QuakeWorld server module, with bots: damage and death, items, doors and bobbing
brushes, players and their kit, the reading of maps, and a bot's frame from what it senses to the
buttons it presses. The rules are written in Verus. Each function states what it returns or changes,
and what holds of the game as a whole stands beside them as public proof functions.

- `src/` is the verified library. It holds no floating-point numbers and makes no engine calls: times
  are milliseconds, distances and speeds thousandths, each module says which; what a trace or a vector
  comes to is handed in as a measured number, and what is to be done comes back as a value.
- `app/` is the module around it: the engine's entry point and shared memory, vectors and ballistics,
  and the loops that measure, ask the library and carry out its answer. The weapons, the modes and the
  navigation mesh are reached through its traits `Rest` and `Guide`.
- `tests/` runs the library on concrete games.

One item is taken on trust: `checked_text` in `src/host.rs`, over the standard library's UTF-8 check.
