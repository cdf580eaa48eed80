# screeps_bot

Decision logic of a bot for the game Screeps, verified with Verus.

- `src/` is the verified library. It holds the creep roles and their state
  machine (`role`), the order in which each role tries its actions
  (`role::work`), how an action's outcome is recorded (`role::action`),
  the per-room records of creeps (five roles) and of the sources and
  ramparts they are bound to, with the rooms' memory (`manager`; `source`
  holds the simpler three-role records), target
  selection (`utils::find`), the body and spawning rules (`spawn`) and the
  per-tick bookkeeping over all rooms on the `manager` records (`global`). Everything there works on
  plain values and states its behaviour in `requires`/`ensures`.
- `app/` is the program the game loads: it reads the world each tick, turns
  it into the library's values, carries out what the library decides, and
  stores the records as JSON in creep and room memory.
- `tests/` runs the library on concrete values.
