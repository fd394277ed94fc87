# rustopia

A 2D side-scrolling magic dungeon crawler. The rules of the game live in a
verified library (`src/`):

- `magic`: runes, elements and spells, their labels and colours, combo
  recording, the spell table and casting with Space;
- `scene`: the lobby/dungeon flow;
- `radial`: the right-click element menu;
- `player`: the movement decisions taken from the keys each frame;
- `collision`: how a body overlapping a platform is pushed out or lands;
- `combat`: when a shot leaves, and how projectiles hurt enemies;
- `light`: the triangle fan of the light polygon.

`app/main.rs` is the Bevy game around it: window, ECS systems, rendering and the
floating-point physics (movement, collisions, ray casting), which call the
library for every decision.
