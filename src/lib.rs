//! Game logic of a real-time strategy prototype: input state, the camera's and the
//! selection box's rules, the formation grid, seeded map generation, animation steps
//! and save-file naming. The engine calls stay with the host program.
pub mod animation;
pub mod camera;
pub mod enemy;
pub mod formation;
pub mod gameworld;
pub mod input;
pub mod player;
pub mod procgen;
pub mod saveload;
pub mod tilemap;
