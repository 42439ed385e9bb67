//! Tile data model: terrain, features, resources, yields and river edges.

pub mod bundle;
pub mod feature;
pub mod resource;
pub mod river;
pub mod terrain;
pub mod yields;

pub use bundle::{Tile, TileBuilder, TileBundle, TileComponents};
pub use feature::TileFeature;
pub use resource::{ResourceCategory, TileResource};
pub use river::RiverEdges;
pub use terrain::Terrain;
pub use yields::TileYields;
