# player_physics

The decision logic of a first-person player controller, verified with Verus.

- `src/controls.rs`: key bindings and the six held movement inputs.
- `src/motion.rs`: per-axis moves, footing (on the ground or in the air) and jumps.
- `src/collision.rs`: which box or sphere answers a collision query.
- `src/terrain.rs`: the neighbour offsets a terrain query visits and the
  height-map samples of a terrain cell.

`app/` holds the floating-point geometry, the camera and the window-event
handling (cgmath, winit) around these decisions.
