# event_visualizer

The decision logic of a hex-grid strategy game's event visualizer, with its
contracts proved.

- `src/` is the library. For each game event it decides which map texts
  appear (`text`), how a unit's scene node is laid out (`nodes`), which
  changes the scene undergoes, in order (`effects`, `events`, `actions`), how
  a passenger is folded into its transporter's node and out again
  (`passenger`), and how the shell of an attack flies and is cleaned up
  (`attack`). Positions are named by anchors (a slot of a tile, a scene node),
  speeds by paces and child offsets by name, never by world coordinates.
- `app/` carries those decisions out on the game's scene and map texts, where
  world positions, rotations, speeds and timers are floating point, and plays
  the actions frame by frame.
- `tests/` runs the library on concrete events.
