# fighters

Frame-by-frame move logic of two fighters (Terry and Samus), proved with
Verus.

- `src/common.rs`: status and situation kinds, motion hashes, and the motion
  frame as the logic compares it with whole frames.
- `src/dolly.rs`: Terry's frame: super and special cancels, the super meter,
  the magic series; with laws on the meter, the final, and the marks kept.
- `src/samus.rs`: Samus's frame: missiles, aiming, flashshift, speed boost
  and shinespark, morph ball; with laws on timers, bombs and effects.
- `src/samus_status.rs`: the decisions of Samus's status scripts.
- `app/`: the game side, which reads the fighter from the game, asks the
  library, and carries out its requests; the floating-point work stays there.
