//! Map size presets and generation parameters.

use vstd::prelude::*;

verus! {

/// Fixed-point scale of every scalar field and threshold: `UNIT` stands for 1.0.
pub const UNIT: i64 = 1_000_000;

/// Preset map sizes.
#[derive(Clone, Copy, Debug, PartialEq, Eq, Hash, Structural)]
pub enum MapSize {
    /// 48x32 tiles.
    Duel,
    /// 56x36 tiles.
    Tiny,
    /// 68x44 tiles.
    Small,
    /// 80x52 tiles.
    Standard,
    /// 104x64 tiles.
    Large,
    /// 128x80 tiles.
    Huge,
}

/// (width, height) of each preset.
pub open spec fn size_dims(s: MapSize) -> (int, int) {
    match s {
        MapSize::Duel => (48, 32),
        MapSize::Tiny => (56, 36),
        MapSize::Small => (68, 44),
        MapSize::Standard => (80, 52),
        MapSize::Large => (104, 64),
        MapSize::Huge => (128, 80),
    }
}

impl Default for MapSize {
    /// The Standard preset.
    fn default() -> (r: MapSize)
        ensures
            r == MapSize::Standard,
    {
        MapSize::Standard
    }
}

impl MapSize {
    /// The (width, height) of this preset in tiles.
    pub fn dimensions(&self) -> (r: (i32, i32))
        ensures
            r.0 == size_dims(*self).0 && r.1 == size_dims(*self).1,
            1 <= r.0 <= 128 && 1 <= r.1 <= 80,
    {
        match self {
            MapSize::Duel => (48, 32),
            MapSize::Tiny => (56, 36),
            MapSize::Small => (68, 44),
            MapSize::Standard => (80, 52),
            MapSize::Large => (104, 64),
            MapSize::Huge => (128, 80),
        }
    }

    /// Width times height.
    pub fn total_tiles(&self) -> (r: i32)
        ensures
            r == size_dims(*self).0 * size_dims(*self).1,
    {
        let (w, h) = self.dimensions();
        assert(w * h <= 128 * 80) by (nonlinear_arith)
            requires
                1 <= w <= 128,
                1 <= h <= 80,
        ;
        w * h
    }
}

/// Parameters of one map generation. Thresholds and land coverage are in
/// units of `UNIT`; they are not range-checked.
#[derive(Clone, Copy, Debug, PartialEq, Eq, Structural)]
pub struct MapConfig {
    /// Map dimensions preset.
    pub size: MapSize,
    /// Seed of every noise layer and of the feature draws.
    pub seed: u64,
    /// Target share of land; carried, not read by generation.
    pub land_coverage: i64,
    /// Heights below this are water.
    pub ocean_threshold: i64,
    /// Heights above this are hills.
    pub hill_threshold: i64,
    /// Heights above this are mountains.
    pub mountain_threshold: i64,
}

/// The default configuration with the given size.
pub open spec fn default_with_size(size: MapSize) -> MapConfig {
    MapConfig {
        size,
        seed: 42,
        land_coverage: 400_000,
        ocean_threshold: 350_000,
        hill_threshold: 550_000,
        mountain_threshold: 750_000,
    }
}

impl Default for MapConfig {
    /// Standard size, seed 42, coverage 0.4, thresholds 0.35 / 0.55 / 0.75.
    fn default() -> (r: MapConfig)
        ensures
            r == default_with_size(MapSize::Standard),
    {
        MapConfig::with_size(MapSize::Standard)
    }
}

impl MapConfig {
    fn with_size(size: MapSize) -> (r: MapConfig)
        ensures
            r == default_with_size(size),
    {
        MapConfig {
            size,
            seed: 42,
            land_coverage: 400_000,
            ocean_threshold: 350_000,
            hill_threshold: 550_000,
            mountain_threshold: 750_000,
        }
    }

    /// Default configuration of Duel size.
    pub fn duel() -> (r: MapConfig)
        ensures
            r == default_with_size(MapSize::Duel),
    {
        MapConfig::with_size(MapSize::Duel)
    }

    /// Default configuration of Tiny size.
    pub fn tiny() -> (r: MapConfig)
        ensures
            r == default_with_size(MapSize::Tiny),
    {
        MapConfig::with_size(MapSize::Tiny)
    }

    /// Default configuration of Small size.
    pub fn small() -> (r: MapConfig)
        ensures
            r == default_with_size(MapSize::Small),
    {
        MapConfig::with_size(MapSize::Small)
    }

    /// Default configuration of Standard size.
    pub fn standard() -> (r: MapConfig)
        ensures
            r == default_with_size(MapSize::Standard),
    {
        MapConfig::with_size(MapSize::Standard)
    }

    /// Default configuration of Large size.
    pub fn large() -> (r: MapConfig)
        ensures
            r == default_with_size(MapSize::Large),
    {
        MapConfig::with_size(MapSize::Large)
    }

    /// Default configuration of Huge size.
    pub fn huge() -> (r: MapConfig)
        ensures
            r == default_with_size(MapSize::Huge),
    {
        MapConfig::with_size(MapSize::Huge)
    }

    /// This configuration with another seed.
    pub fn with_seed(self, seed: u64) -> (r: MapConfig)
        ensures
            r == (MapConfig { seed, ..self }),
    {
        MapConfig { seed, ..self }
    }

    /// This configuration with another ocean threshold.
    pub fn with_ocean_threshold(self, threshold: i64) -> (r: MapConfig)
        ensures
            r == (MapConfig { ocean_threshold: threshold, ..self }),
    {
        MapConfig { ocean_threshold: threshold, ..self }
    }

    /// This configuration with another hill threshold.
    pub fn with_hill_threshold(self, threshold: i64) -> (r: MapConfig)
        ensures
            r == (MapConfig { hill_threshold: threshold, ..self }),
    {
        MapConfig { hill_threshold: threshold, ..self }
    }

    /// This configuration with another mountain threshold.
    pub fn with_mountain_threshold(self, threshold: i64) -> (r: MapConfig)
        ensures
            r == (MapConfig { mountain_threshold: threshold, ..self }),
    {
        MapConfig { mountain_threshold: threshold, ..self }
    }
}

} // verus!
