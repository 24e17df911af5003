//! A grid-maze raycasting engine: the cell grid, ray marching, per-column projection
//! with fisheye correction, axis-separated movement, and the game's score bookkeeping.
//! Distances are fixed point (`grid::SUB_UNITS` per world unit) and angles are tenths
//! of a degree, with sines taken from a caller-supplied table.

pub mod arith;
pub mod frame;
pub mod game_state;
pub mod ghost;
pub mod grid;
pub mod menu;
pub mod player;
pub mod probe;
pub mod projector;
pub mod ray;
pub mod textures;
pub mod trig;
