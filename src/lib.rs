//! Tile connectivity and movement validation for a grid maze of rotatable tiles.

pub mod actions;
pub mod tiles;
pub mod grid;
pub mod laws;
pub mod movement;
mod random;
