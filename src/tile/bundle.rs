//! The record of one generated tile and the builder that derives its yields.

use vstd::prelude::*;

use crate::hex::TilePosition;

use super::feature::TileFeature;
use super::resource::TileResource;
use super::river::RiverEdges;
use super::terrain::Terrain;
use super::yields::{derived_yields, TileYields};

verus! {

/// Marker identifying a map tile.
#[derive(Clone, Copy, PartialEq, Eq, Hash, Debug, Structural)]
pub struct Tile;

impl Default for Tile {
    /// The marker.
    fn default() -> (r: Tile)
        ensures
            r == Tile,
    {
        Tile
    }
}

/// The core data of a tile: position, terrain, yields and river edges.
#[derive(Clone, Copy, PartialEq, Eq, Debug, Structural)]
pub struct TileBundle {
    pub tile: Tile,
    pub position: TilePosition,
    pub terrain: Terrain,
    pub yields: TileYields,
    pub rivers: RiverEdges,
}

impl TileBundle {
    /// A tile with yields from its terrain alone and no river.
    pub fn new(position: TilePosition, terrain: Terrain) -> (r: TileBundle)
        ensures
            r.position == position,
            r.terrain == terrain,
            derived_yields(terrain, None, None, false, r.yields),
            r.rivers.0 == 0,
    {
        let yields = TileYields::calculate(terrain, None, None, false);
        TileBundle { tile: Tile, position, terrain, yields, rivers: RiverEdges::none() }
    }

    /// This tile with yields recomputed for `feature`, and the feature.
    pub fn with_feature(self, feature: TileFeature) -> (r: (TileBundle, TileFeature))
        ensures
            r.0 == (TileBundle { yields: r.0.yields, ..self }),
            derived_yields(self.terrain, Some(feature), None, false, r.0.yields),
            r.1 == feature,
    {
        let yields = TileYields::calculate(
            self.terrain,
            Some(feature),
            None,
            self.rivers.has_river(),
        );
        (TileBundle { yields, ..self }, feature)
    }

    /// This tile with yields recomputed for `resource`, and the resource.
    pub fn with_resource(self, resource: TileResource) -> (r: (TileBundle, TileResource))
        ensures
            r.0 == (TileBundle { yields: r.0.yields, ..self }),
            derived_yields(self.terrain, None, Some(resource), false, r.0.yields),
            r.1 == resource,
    {
        let yields = TileYields::calculate(
            self.terrain,
            None,
            Some(resource),
            self.rivers.has_river(),
        );
        (TileBundle { yields, ..self }, resource)
    }

    /// This tile with other river edges; yields are kept.
    pub fn with_rivers(self, rivers: RiverEdges) -> (r: TileBundle)
        ensures
            r == (TileBundle { rivers, ..self }),
    {
        TileBundle { rivers, ..self }
    }
}

/// Builder of a complete tile record.
pub struct TileBuilder {
    position: TilePosition,
    terrain: Terrain,
    feature: Option<TileFeature>,
    resource: Option<TileResource>,
    rivers: RiverEdges,
}

/// Every part of a tile: the bundle and the optional feature and resource.
#[derive(Clone, Copy, PartialEq, Eq, Debug, Structural)]
pub struct TileComponents {
    pub bundle: TileBundle,
    pub feature: Option<TileFeature>,
    pub resource: Option<TileResource>,
}

/// `c` is the record of a tile at `position` with these determinants, its
/// yields derived from them.
pub open spec fn tile_record(
    c: TileComponents,
    position: TilePosition,
    terrain: Terrain,
    feature: Option<TileFeature>,
    resource: Option<TileResource>,
    rivers: RiverEdges,
) -> bool {
    &&& c.bundle.position == position
    &&& c.bundle.terrain == terrain
    &&& c.bundle.rivers == rivers
    &&& c.feature == feature
    &&& c.resource == resource
    &&& derived_yields(terrain, feature, resource, false, c.bundle.yields)
}

impl TileBuilder {
    /// A builder for a tile with no feature, resource or river.
    pub fn new(position: TilePosition, terrain: Terrain) -> (r: TileBuilder)
        ensures
            r.position() == position,
            r.terrain() == terrain,
            r.feature_value() is None,
            r.resource_value() is None,
            r.rivers_value().0 == 0,
    {
        TileBuilder { position, terrain, feature: None, resource: None, rivers: RiverEdges::none() }
    }

    /// Position the builder holds.
    pub closed spec fn position(&self) -> TilePosition {
        self.position
    }

    /// Terrain the builder holds.
    pub closed spec fn terrain(&self) -> Terrain {
        self.terrain
    }

    /// Feature the builder holds.
    pub closed spec fn feature_value(&self) -> Option<TileFeature> {
        self.feature
    }

    /// Resource the builder holds.
    pub closed spec fn resource_value(&self) -> Option<TileResource> {
        self.resource
    }

    /// River edges the builder holds.
    pub closed spec fn rivers_value(&self) -> RiverEdges {
        self.rivers
    }

    /// Sets the feature.
    pub fn feature(self, feature: TileFeature) -> (r: TileBuilder)
        ensures
            r.feature_value() == Some(feature),
            r.position() == self.position() && r.terrain() == self.terrain(),
            r.resource_value() == self.resource_value() && r.rivers_value() == self.rivers_value(),
    {
        TileBuilder { feature: Some(feature), ..self }
    }

    /// Sets or clears the feature.
    pub fn feature_opt(self, feature: Option<TileFeature>) -> (r: TileBuilder)
        ensures
            r.feature_value() == feature,
            r.position() == self.position() && r.terrain() == self.terrain(),
            r.resource_value() == self.resource_value() && r.rivers_value() == self.rivers_value(),
    {
        TileBuilder { feature, ..self }
    }

    /// Sets the resource.
    pub fn resource(self, resource: TileResource) -> (r: TileBuilder)
        ensures
            r.resource_value() == Some(resource),
            r.position() == self.position() && r.terrain() == self.terrain(),
            r.feature_value() == self.feature_value() && r.rivers_value() == self.rivers_value(),
    {
        TileBuilder { resource: Some(resource), ..self }
    }

    /// Sets the river edges.
    pub fn rivers(self, rivers: RiverEdges) -> (r: TileBuilder)
        ensures
            r.rivers_value() == rivers,
            r.position() == self.position() && r.terrain() == self.terrain(),
            r.feature_value() == self.feature_value() && r.resource_value()
                == self.resource_value(),
    {
        TileBuilder { rivers, ..self }
    }

    /// The tile record, with yields computed from terrain, feature and
    /// resource.
    pub fn build(self) -> (r: TileComponents)
        ensures
            tile_record(
                r,
                self.position(),
                self.terrain(),
                self.feature_value(),
                self.resource_value(),
                self.rivers_value(),
            ),
    {
        let yields = TileYields::calculate(
            self.terrain,
            self.feature,
            self.resource,
            self.rivers.has_river(),
        );
        TileComponents {
            bundle: TileBundle {
                tile: Tile,
                position: self.position,
                terrain: self.terrain,
                yields,
                rivers: self.rivers,
            },
            feature: self.feature,
            resource: self.resource,
        }
    }
}

} // verus!
