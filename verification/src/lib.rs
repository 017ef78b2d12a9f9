//! Client-side logic of a small voxel game: movement input, chunk meshing,
//! network framing of transform updates and the window's event decisions.
pub mod keys;
pub mod player;
pub mod chunky;
pub mod networking;
pub mod window;
pub mod scene;
