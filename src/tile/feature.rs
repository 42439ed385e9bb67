//! Overlay features, their yield modifiers and the terrains they fit on.

use vstd::prelude::*;

use super::terrain::Terrain;

verus! {

/// Feature overlay on a terrain tile; a tile holds at most one.
#[derive(Clone, Copy, PartialEq, Eq, Hash, Debug, Structural)]
pub enum TileFeature {
    Forest,
    Jungle,
    Marsh,
    Floodplains,
    Oasis,
    Ice,
}

/// Food modifier of a feature.
pub open spec fn feature_food(f: TileFeature) -> int {
    match f {
        TileFeature::Marsh => -1,
        TileFeature::Floodplains => 2,
        TileFeature::Oasis => 3,
        _ => 0,
    }
}

/// Production modifier of a feature.
pub open spec fn feature_production(f: TileFeature) -> int {
    match f {
        TileFeature::Forest => 1,
        TileFeature::Jungle => -1,
        _ => 0,
    }
}

/// Gold modifier of a feature.
pub open spec fn feature_gold(f: TileFeature) -> int {
    if f is Oasis {
        1
    } else {
        0
    }
}

/// The terrain-compatibility table of features.
pub open spec fn placeable(f: TileFeature, t: Terrain) -> bool {
    match f {
        TileFeature::Forest => t is Grassland || t is Plains || t is Tundra || t is GrasslandHill
            || t is PlainsHill || t is TundraHill,
        TileFeature::Jungle => t is Grassland || t is Plains || t is GrasslandHill
            || t is PlainsHill,
        TileFeature::Marsh => t is Grassland,
        TileFeature::Floodplains => t is Desert,
        TileFeature::Oasis => t is Desert,
        TileFeature::Ice => t is Coast || t is Ocean,
    }
}

impl TileFeature {
    /// Food yield modifier for this feature.
    pub fn food_modifier(&self) -> (r: i32)
        ensures
            r == feature_food(*self),
    {
        match self {
            TileFeature::Marsh => -1,
            TileFeature::Floodplains => 2,
            TileFeature::Oasis => 3,
            _ => 0,
        }
    }

    /// Production yield modifier for this feature.
    pub fn production_modifier(&self) -> (r: i32)
        ensures
            r == feature_production(*self),
    {
        match self {
            TileFeature::Forest => 1,
            TileFeature::Jungle => -1,
            _ => 0,
        }
    }

    /// Gold yield modifier for this feature.
    pub fn gold_modifier(&self) -> (r: i32)
        ensures
            r == feature_gold(*self),
    {
        match self {
            TileFeature::Oasis => 1,
            _ => 0,
        }
    }

    /// Additional movement cost: one for Forest, Jungle and Marsh.
    pub fn movement_modifier(&self) -> (r: i32)
        ensures
            r == (if *self is Forest || *self is Jungle || *self is Marsh {
                1int
            } else {
                0int
            }),
    {
        match self {
            TileFeature::Forest | TileFeature::Jungle | TileFeature::Marsh => 1,
            _ => 0,
        }
    }

    /// True if this feature can appear on the given terrain.
    pub fn can_place_on(&self, terrain: Terrain) -> (r: bool)
        ensures
            r == placeable(*self, terrain),
    {
        match self {
            TileFeature::Forest => matches!(
                terrain,
                Terrain::Grassland
                    | Terrain::Plains
                    | Terrain::Tundra
                    | Terrain::GrasslandHill
                    | Terrain::PlainsHill
                    | Terrain::TundraHill
            ),
            TileFeature::Jungle => matches!(
                terrain,
                Terrain::Grassland | Terrain::Plains | Terrain::GrasslandHill | Terrain::PlainsHill
            ),
            TileFeature::Marsh => matches!(terrain, Terrain::Grassland),
            TileFeature::Floodplains => matches!(terrain, Terrain::Desert),
            TileFeature::Oasis => matches!(terrain, Terrain::Desert),
            TileFeature::Ice => matches!(terrain, Terrain::Coast | Terrain::Ocean),
        }
    }

    /// The terrains this feature can appear on, each listed once.
    pub fn valid_terrains(&self) -> (r: Vec<Terrain>)
        ensures
            forall|t: Terrain| r@.contains(t) <==> placeable(*self, t),
            r@.no_duplicates(),
    {
        let r = match self {
            TileFeature::Forest => vec![
                Terrain::Grassland,
                Terrain::Plains,
                Terrain::Tundra,
                Terrain::GrasslandHill,
                Terrain::PlainsHill,
                Terrain::TundraHill,
            ],
            TileFeature::Jungle => vec![
                Terrain::Grassland,
                Terrain::Plains,
                Terrain::GrasslandHill,
                Terrain::PlainsHill,
            ],
            TileFeature::Marsh => vec![Terrain::Grassland],
            TileFeature::Floodplains => vec![Terrain::Desert],
            TileFeature::Oasis => vec![Terrain::Desert],
            TileFeature::Ice => vec![Terrain::Coast, Terrain::Ocean],
        };
        r
    }
}

} // verus!
