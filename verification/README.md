# bevy_newtonian2d

Simple Newtonian physics for the Bevy game engine, in two parts:

- `src/`: the verified core. The simulation state (`PhysicsSimulationState`,
  which starts `Paused`), the two physics system sets (`PhysicsSystem`), and
  their configurations (`SetConfig`: the set, and the state in which it runs).
  Proof functions in `src/schedule.rs` state that an unstarted simulation runs
  no physics set and that both sets always run together. `src/plan.rs` holds
  the plugin's plan (`PhysicsPlugin::plan`): the types it registers, its
  initial state, where each system runs and which runs before which, with
  proof functions about it.
- `app/`: the Bevy plugin. It builds the app from the verified plan, turns
  the verified set configurations into Bevy run conditions, and holds the
  floating-point integration (positions, velocities, forces, rotations).
