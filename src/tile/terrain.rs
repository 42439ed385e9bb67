//! Terrain kinds with their base yields and movement costs.

use vstd::prelude::*;

verus! {

/// Terrain type of a map tile.
#[derive(Clone, Copy, PartialEq, Eq, Hash, Debug, Structural)]
pub enum Terrain {
    Grassland,
    Plains,
    Desert,
    Tundra,
    Snow,
    GrasslandHill,
    PlainsHill,
    DesertHill,
    TundraHill,
    SnowHill,
    Mountain,
    Coast,
    Ocean,
    Lake,
}

/// Coast, Ocean and Lake.
pub open spec fn water(t: Terrain) -> bool {
    t is Coast || t is Ocean || t is Lake
}

/// The five hill variants.
pub open spec fn hill(t: Terrain) -> bool {
    t is GrasslandHill || t is PlainsHill || t is DesertHill || t is TundraHill || t is SnowHill
}

/// The five flat land kinds.
pub open spec fn flat_land(t: Terrain) -> bool {
    t is Grassland || t is Plains || t is Desert || t is Tundra || t is Snow
}

/// Base food of a terrain kind.
pub open spec fn terrain_food(t: Terrain) -> int {
    match t {
        Terrain::Grassland | Terrain::Lake => 2,
        Terrain::Plains | Terrain::Tundra | Terrain::Coast | Terrain::Ocean => 1,
        _ => 0,
    }
}

/// Base production of a terrain kind: one on Plains, two on every hill.
pub open spec fn terrain_production(t: Terrain) -> int {
    if t is Plains {
        1
    } else if hill(t) {
        2
    } else {
        0
    }
}

/// Movement cost: 1 on flat land, 2 on hills, 9999 (impassable) elsewhere.
pub open spec fn terrain_movement(t: Terrain) -> int {
    if flat_land(t) {
        1
    } else if hill(t) {
        2
    } else {
        9999
    }
}

impl Default for Terrain {
    /// Grassland.
    fn default() -> (r: Terrain)
        ensures
            r == Terrain::Grassland,
    {
        Terrain::Grassland
    }
}

impl Terrain {
    /// Base food yield for this terrain type.
    pub fn base_food(&self) -> (r: i32)
        ensures
            r == terrain_food(*self),
    {
        match self {
            Terrain::Grassland | Terrain::Lake => 2,
            Terrain::Plains | Terrain::Tundra | Terrain::Coast | Terrain::Ocean => 1,
            _ => 0,
        }
    }

    /// Base production yield for this terrain type.
    pub fn base_production(&self) -> (r: i32)
        ensures
            r == terrain_production(*self),
    {
        match self {
            Terrain::Plains => 1,
            Terrain::GrasslandHill
            | Terrain::PlainsHill
            | Terrain::DesertHill
            | Terrain::TundraHill
            | Terrain::SnowHill => 2,
            _ => 0,
        }
    }

    /// Base gold yield: terrain never provides gold by itself.
    pub fn base_gold(&self) -> (r: i32)
        ensures
            r == 0,
    {
        0
    }

    /// Movement cost to enter this terrain.
    pub fn movement_cost(&self) -> (r: i32)
        ensures
            r == terrain_movement(*self),
    {
        match self {
            Terrain::Grassland
            | Terrain::Plains
            | Terrain::Desert
            | Terrain::Tundra
            | Terrain::Snow => 1,
            Terrain::GrasslandHill
            | Terrain::PlainsHill
            | Terrain::DesertHill
            | Terrain::TundraHill
            | Terrain::SnowHill => 2,
            Terrain::Mountain => 9999,
            Terrain::Coast | Terrain::Ocean | Terrain::Lake => 9999,
        }
    }

    /// True for Coast, Ocean and Lake.
    pub fn is_water(&self) -> (r: bool)
        ensures
            r == water(*self),
    {
        matches!(self, Terrain::Coast | Terrain::Ocean | Terrain::Lake)
    }

    /// True for the hill variants.
    pub fn is_hill(&self) -> (r: bool)
        ensures
            r == hill(*self),
    {
        matches!(
            self,
            Terrain::GrasslandHill
                | Terrain::PlainsHill
                | Terrain::DesertHill
                | Terrain::TundraHill
                | Terrain::SnowHill
        )
    }

    /// True where land units can move: everything but Mountain and water.
    pub fn is_passable(&self) -> (r: bool)
        ensures
            r == !(water(*self) || *self is Mountain),
    {
        !matches!(self, Terrain::Mountain | Terrain::Coast | Terrain::Ocean | Terrain::Lake)
    }

    /// True for flat (non-hill, non-mountain) land.
    pub fn is_flat_land(&self) -> (r: bool)
        ensures
            r == flat_land(*self),
    {
        matches!(
            self,
            Terrain::Grassland | Terrain::Plains | Terrain::Desert | Terrain::Tundra | Terrain::Snow
        )
    }
}

} // verus!
