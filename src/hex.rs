//! Hex grid coordinates.

pub mod coord;

pub use coord::TilePosition;
