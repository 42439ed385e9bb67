//! Deterministic procedural terrain generation for a hexagonal strategy map.
//!
//! The library classifies terrain and features from height, temperature and
//! moisture fields, and derives the economic yields of each tile. Scalar
//! fields and thresholds are fixed point: `map::UNIT` (one million) stands
//! for 1.0.

pub mod hex;
pub mod map;
pub mod tile;

pub use hex::TilePosition;
pub use map::{MapConfig, MapGenerator, MapSize};
pub use tile::{Terrain, Tile, TileBundle, TileFeature, TileResource, TileYields};
