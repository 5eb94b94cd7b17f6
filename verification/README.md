# skirmish

The rules of a small top-down bevy skirmish game, verified with Verus.

- `src/timer.rs`: the game's timers as plain nanosecond state; bevy's
  `Timer` does each tick and reset, and the contracts say what it does.
- `src/command.rs`: unit commands, picking the unit under the cursor, and
  each unit's decisions to move and to shoot.
- `src/game.rs`: the global counters (live enemy units, click repeat),
  spawning, deaths, the player's input, engine flames, projectile and
  marker lifetimes.
- `app/main.rs`: the bevy app: ECS systems, rendering, physics and the
  floating-point geometry, calling the library for every decision.
