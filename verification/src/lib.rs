//! Verified game logic of the space craft game: pixels and structures,
//! block placement, terrain generation, spawn points, cameras and UI layout.

pub mod blocks;
mod chance;
pub mod colour;
pub mod pixels;
pub mod grid;
pub mod worldgen;
pub mod structures;
pub mod weapons;
pub mod spawn_points;
pub mod cameras;
pub mod ui;
pub mod movement;
pub mod blueprints;
pub mod netcode;
pub mod release;
pub mod text;
pub mod players;
pub mod world_creation;
pub mod manifest;
pub mod scenes;
