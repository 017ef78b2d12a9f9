# voxel_client

The verified core of a small voxel game client.

- `src/chunky.rs`: meshing of a 32×32×32 chunk of solid/empty cells into quads
  on the lattice of cell corners, with its laws (winding, placement, hidden
  faces, bounds).
- `src/player.rs`, `src/keys.rs`: the held movement keys and the recognition of
  winit key codes.
- `src/networking.rs`: framing of transform datagrams.
- `src/window.rs`: reactions to window events and to the end of a frame.
- `src/scene.rs`: the grid of cube instances and the drawing surface's state.
- `app/`: the program around it: sockets, threads, the winit event loop, and
  the floating-point conversions (densities to solidity, lattice corners to
  positions).
