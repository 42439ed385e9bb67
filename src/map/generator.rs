//! The map generator: scalar fields, terrain and feature classification,
//! and the pass that builds one tile record per coordinate.

use vstd::prelude::*;

use crate::hex::TilePosition;
use crate::tile::bundle::{tile_record, TileBuilder, TileComponents};
use crate::tile::feature::{placeable, TileFeature};
use crate::tile::river::RiverEdges;
use crate::tile::terrain::{hill, water, Terrain};

use super::config::{size_dims, MapConfig};
use super::field::{
    apply_edge_falloff, cell, grid_shape, in_grid, lemma_normalization_congruent,
    lemma_normalization_unique_cells, normalization_of, normalized, shaped_cell, temperature_cell,
    temperature_field,
};
use super::random::{stream_draw, DrawStream};

verus! {

/// Parameters of one fractal noise layer; frequency, lacunarity and
/// persistence are in units of `UNIT`.
#[derive(Clone, Copy, Debug, PartialEq, Eq, Structural)]
pub struct FractalLayer {
    pub seed: u32,
    pub octaves: usize,
    pub frequency: i64,
    pub lacunarity: i64,
    pub persistence: i64,
}

/// Coordinate scale of the single noise layer that perturbs temperature,
/// in units of `UNIT`.
pub const TEMPERATURE_NOISE_SCALE: i64 = 50_000;

/// Raw noise samples of the three layers, each indexed `[x][y]`, in units
/// of `UNIT`: the height layer, the single temperature layer and the
/// moisture layer.
pub struct NoiseSamples {
    pub height: Vec<Vec<i64>>,
    pub temperature: Vec<Vec<i64>>,
    pub moisture: Vec<Vec<i64>>,
}

/// The terrain of a land cell that is neither water nor mountain: the biome
/// from temperature, in its hill variant where `is_hill`.
pub open spec fn biome(temp: int, is_hill: bool) -> Terrain {
    if temp < 150_000 {
        if is_hill { Terrain::SnowHill } else { Terrain::Snow }
    } else if temp < 300_000 {
        if is_hill { Terrain::TundraHill } else { Terrain::Tundra }
    } else if temp < 500_000 {
        if is_hill { Terrain::GrasslandHill } else { Terrain::Grassland }
    } else if temp < 800_000 {
        if is_hill { Terrain::PlainsHill } else { Terrain::Plains }
    } else {
        if is_hill { Terrain::DesertHill } else { Terrain::Desert }
    }
}

/// The terrain of a cell with this height and temperature: water below the
/// ocean threshold (Ocean below six tenths of it, else Coast), Mountain
/// above the mountain threshold, else the biome, a hill above the hill
/// threshold.
pub open spec fn terrain_for(c: MapConfig, height: int, temp: int) -> Terrain {
    if height < c.ocean_threshold {
        if 5 * height < 3 * c.ocean_threshold {
            Terrain::Ocean
        } else {
            Terrain::Coast
        }
    } else if height > c.mountain_threshold {
        Terrain::Mountain
    } else {
        biome(temp, height > c.hill_threshold)
    }
}

/// Terrain that never receives a feature from the generator.
pub open spec fn featureless(t: Terrain) -> bool {
    water(t) || t is Mountain || t is Snow || t is SnowHill
}

/// The feature of a cell given the outcome of each of the four draws
/// (Oasis, Marsh, Jungle, Forest), checked in that order; a draw is only
/// made, and only counts, where the conditions before it hold.
pub open spec fn feature_rule(
    t: Terrain,
    temp: int,
    moisture: int,
    oasis: bool,
    marsh: bool,
    jungle: bool,
    forest: bool,
) -> Option<TileFeature> {
    if featureless(t) {
        None
    } else if t is Desert && moisture > 400_000 && oasis {
        Some(TileFeature::Oasis)
    } else if !hill(t) && moisture > 700_000 && marsh && placeable(TileFeature::Marsh, t) {
        Some(TileFeature::Marsh)
    } else if temp > 700_000 && moisture > 600_000 && jungle && placeable(TileFeature::Jungle, t) {
        Some(TileFeature::Jungle)
    } else if temp < 600_000 && moisture > 500_000 && forest && placeable(TileFeature::Forest, t) {
        Some(TileFeature::Forest)
    } else {
        None
    }
}

/// `f` is the feature rule's result for some outcome of the draws.
pub open spec fn feature_drawn(t: Terrain, temp: int, moisture: int, f: Option<TileFeature>) -> bool {
    exists|a: bool, b: bool, c: bool, d: bool|
        #[trigger] feature_rule(t, temp, moisture, a, b, c, d) == f
}

/// `r` is the height field of raw samples `noise` on a `w` by `h` grid:
/// every sample scaled by its edge falloff, then min-max normalized.
pub open spec fn height_field_of(noise: Seq<Vec<i64>>, w: int, h: int, r: Seq<Vec<i64>>) -> bool {
    exists|s: Seq<Vec<i64>>|
        {
            &&& grid_shape(s, w, h)
            &&& (forall|x: int, y: int|
                0 <= x < w && 0 <= y < h ==> #[trigger] cell(s, x, y) == shaped_cell(
                    noise,
                    x,
                    y,
                    w,
                    h,
                ))
            &&& normalization_of(s, r)
        }
}

/// `r` is the temperature field of raw samples `noise` on a `w` by `h` grid.
pub open spec fn temperature_field_of(
    noise: Seq<Vec<i64>>,
    w: int,
    h: int,
    r: Seq<Vec<i64>>,
) -> bool {
    &&& grid_shape(r, w, h)
    &&& forall|x: int, y: int|
        0 <= x < w && 0 <= y < h ==> #[trigger] cell(r, x, y) == temperature_cell(noise, x, y, h)
}

/// Record `i` of a map classified from these fields: the tile at
/// `(i / h, i % h)`, with the terrain of its height and temperature, a
/// feature the rule allows, no resource and no river.
pub open spec fn classified_tile(
    c: MapConfig,
    hm: Seq<Vec<i64>>,
    tm: Seq<Vec<i64>>,
    mm: Seq<Vec<i64>>,
    h: int,
    i: int,
    rec: TileComponents,
) -> bool {
    let q = i / h;
    let r = i % h;
    let t = terrain_for(c, cell(hm, q, r), cell(tm, q, r));
    &&& feature_drawn(t, cell(tm, q, r), cell(mm, q, r), rec.feature)
    &&& tile_record(rec, TilePosition { x: q as i32, y: r as i32 }, t, rec.feature, None, RiverEdges(0))
}

/// The Oasis draw (chance 1 in 20) is made: Desert with moisture above 0.4.
pub open spec fn oasis_drawn(t: Terrain, moisture: int) -> bool {
    t is Desert && moisture > 400_000
}

/// The Marsh draw (1 in 5) is made: no Oasis, flat, moisture above 0.7.
pub open spec fn marsh_drawn(t: Terrain, moisture: int, oasis: bool) -> bool {
    !oasis && !hill(t) && moisture > 700_000
}

/// The Jungle draw (1 in 2) is made: no earlier feature, temperature above
/// 0.7, moisture above 0.6.
pub open spec fn jungle_drawn(temp: int, moisture: int, taken: bool) -> bool {
    !taken && temp > 700_000 && moisture > 600_000
}

/// The Forest draw (2 in 5) is made: no earlier feature, temperature below
/// 0.6, moisture above 0.5.
pub open spec fn forest_drawn(temp: int, moisture: int, taken: bool) -> bool {
    !taken && temp < 600_000 && moisture > 500_000
}

/// Some draw can be made for a cell with these values.
pub open spec fn draws_possible(t: Terrain, temp: int, moisture: int) -> bool {
    !featureless(t) && (oasis_drawn(t, moisture) || marsh_drawn(t, moisture, false)
        || jungle_drawn(temp, moisture, false) || forest_drawn(temp, moisture, false))
}

/// The feature of a cell and the stream position after it, where the
/// stream seeded with `seed` stands at `pos`: the draws are made in the
/// rule's order, each only where its conditions hold, and each consumes one
/// value of the stream.
pub open spec fn feature_outcome(
    t: Terrain,
    temp: int,
    moisture: int,
    seed: u64,
    pos: nat,
) -> (Option<TileFeature>, nat) {
    if featureless(t) {
        (None, pos)
    } else {
        let a = oasis_drawn(t, moisture);
        let oasis = a && stream_draw(seed, pos, 1, 20);
        let p1 = if a { pos + 1 } else { pos };
        let b = marsh_drawn(t, moisture, oasis);
        let marsh = b && stream_draw(seed, p1, 1, 5);
        let p2 = if b { p1 + 1 } else { p1 };
        let taken = oasis || (marsh && placeable(TileFeature::Marsh, t));
        let c = jungle_drawn(temp, moisture, taken);
        let jungle = c && stream_draw(seed, p2, 1, 2);
        let p3 = if c { p2 + 1 } else { p2 };
        let taken2 = taken || (jungle && placeable(TileFeature::Jungle, t));
        let d = forest_drawn(temp, moisture, taken2);
        let forest = d && stream_draw(seed, p3, 2, 5);
        let p4 = if d { p3 + 1 } else { p3 };
        (feature_rule(t, temp, moisture, oasis, marsh, jungle, forest), p4)
    }
}

/// The features of the first `k` records of a map classified from these
/// fields (record `i` is the tile `(i / h, i % h)`), drawn from the stream
/// seeded with `seed` starting at `pos`, and the stream position after them.
pub open spec fn map_features(
    c: MapConfig,
    hm: Seq<Vec<i64>>,
    tm: Seq<Vec<i64>>,
    mm: Seq<Vec<i64>>,
    h: int,
    seed: u64,
    pos: nat,
    k: nat,
) -> (Seq<Option<TileFeature>>, nat)
    decreases k,
{
    if k == 0 {
        (Seq::empty(), pos)
    } else {
        let prev = map_features(c, hm, tm, mm, h, seed, pos, (k - 1) as nat);
        let i = k - 1;
        let q = i / h;
        let r = i % h;
        let t = terrain_for(c, cell(hm, q, r), cell(tm, q, r));
        let o = feature_outcome(t, cell(tm, q, r), cell(mm, q, r), seed, prev.1);
        (prev.0.push(o.0), o.1)
    }
}

/// The features of `recs` are those the stream seeded with `seed` yields,
/// starting at `pos`, for the first `recs.len()` records of a map
/// classified from these fields.
pub open spec fn features_from_stream(
    c: MapConfig,
    hm: Seq<Vec<i64>>,
    tm: Seq<Vec<i64>>,
    mm: Seq<Vec<i64>>,
    h: int,
    seed: u64,
    pos: nat,
    recs: Seq<TileComponents>,
) -> bool {
    let mf = map_features(c, hm, tm, mm, h, seed, pos, recs.len());
    &&& mf.0.len() == recs.len()
    &&& forall|i: int| 0 <= i < recs.len() ==> #[trigger] recs[i].feature == mf.0[i]
}

/// Procedural map generator: a configuration and the pseudorandom stream
/// of feature draws, seeded from the configuration's seed.
pub struct MapGenerator {
    config: MapConfig,
    stream: DrawStream,
}

impl MapGenerator {
    /// The configuration of this generator.
    pub closed spec fn cfg(&self) -> MapConfig {
        self.config
    }

    /// The seed of the feature stream.
    pub closed spec fn stream_seed(&self) -> u64 {
        self.stream.seed()
    }

    /// The number of values the feature stream has consumed.
    pub closed spec fn stream_pos(&self) -> nat {
        self.stream.pos()
    }

    /// A generator for `config`, its stream seeded from `config.seed` and
    /// unused.
    pub fn new(config: MapConfig) -> (r: MapGenerator)
        ensures
            r.cfg() == config,
            r.stream_seed() == config.seed,
            r.stream_pos() == 0,
    {
        let stream = DrawStream::seeded(config.seed);
        MapGenerator { config, stream }
    }

    /// The configuration of this generator.
    pub fn config(&self) -> (r: MapConfig)
        ensures
            r == self.cfg(),
    {
        self.config
    }

    /// Min-max normalizes `map` in place.
    pub fn normalize_map(map: &mut Vec<Vec<i64>>)
        ensures
            normalization_of(old(map)@, final(map)@),
    {
        let r = normalized(map);
        *map = r;
    }

    /// The height layer: 6 octaves, frequency 0.02, lacunarity 2,
    /// persistence 0.5, seeded with the low 32 bits of the seed.
    pub fn height_layer(&self) -> (r: FractalLayer)
        ensures
            r == (FractalLayer {
                seed: self.cfg().seed as u32,
                octaves: 6,
                frequency: 20_000,
                lacunarity: 2_000_000,
                persistence: 500_000,
            }),
    {
        FractalLayer {
            seed: self.config.seed as u32,
            octaves: 6,
            frequency: 20_000,
            lacunarity: 2_000_000,
            persistence: 500_000,
        }
    }

    /// The moisture layer: 4 octaves, frequency 0.03, lacunarity 2,
    /// persistence 0.5, seeded with the low 32 bits of the seed plus 2000
    /// (wrapping).
    pub fn moisture_layer(&self) -> (r: FractalLayer)
        ensures
            r == (FractalLayer {
                seed: (self.cfg().seed as u32).wrapping_add(2000),
                octaves: 4,
                frequency: 30_000,
                lacunarity: 2_000_000,
                persistence: 500_000,
            }),
    {
        FractalLayer {
            seed: (self.config.seed as u32).wrapping_add(2000),
            octaves: 4,
            frequency: 30_000,
            lacunarity: 2_000_000,
            persistence: 500_000,
        }
    }

    /// Seed of the temperature noise: the low 32 bits of the seed plus 1000
    /// (wrapping).
    pub fn temperature_seed(&self) -> (r: u32)
        ensures
            r == (self.cfg().seed as u32).wrapping_add(1000),
    {
        (self.config.seed as u32).wrapping_add(1000)
    }

    /// The height field from the raw samples of the height layer.
    pub fn generate_height_map(&self, noise: &Vec<Vec<i64>>) -> (r: Vec<Vec<i64>>)
        requires
            grid_shape(noise@, size_dims(self.cfg().size).0, size_dims(self.cfg().size).1),
        ensures
            height_field_of(
                noise@,
                size_dims(self.cfg().size).0,
                size_dims(self.cfg().size).1,
                r@,
            ),
            grid_shape(r@, size_dims(self.cfg().size).0, size_dims(self.cfg().size).1),
    {
        let (w, h) = self.config.size.dimensions();
        let mut map = apply_edge_falloff(noise, w, h);
        let ghost shaped = map@;
        Self::normalize_map(&mut map);
        assert forall|i: int| 0 <= i < w implies #[trigger] map@[i]@.len() == h by {
            assert(shaped[i]@.len() == h);
        }
        map
    }

    /// The temperature field from the raw samples of the temperature layer.
    pub fn generate_temperature_map(&self, noise: &Vec<Vec<i64>>) -> (r: Vec<Vec<i64>>)
        requires
            grid_shape(noise@, size_dims(self.cfg().size).0, size_dims(self.cfg().size).1),
        ensures
            temperature_field_of(
                noise@,
                size_dims(self.cfg().size).0,
                size_dims(self.cfg().size).1,
                r@,
            ),
    {
        let (w, h) = self.config.size.dimensions();
        temperature_field(noise, w, h)
    }

    /// The moisture field: the raw samples of the moisture layer, min-max
    /// normalized.
    pub fn generate_moisture_map(&self, noise: &Vec<Vec<i64>>) -> (r: Vec<Vec<i64>>)
        requires
            grid_shape(noise@, size_dims(self.cfg().size).0, size_dims(self.cfg().size).1),
        ensures
            normalization_of(noise@, r@),
            grid_shape(r@, size_dims(self.cfg().size).0, size_dims(self.cfg().size).1),
    {
        let r = normalized(noise);
        let ghost w = size_dims(self.cfg().size).0;
        let ghost h = size_dims(self.cfg().size).1;
        assert forall|i: int| 0 <= i < w implies #[trigger] r@[i]@.len() == h by {
            assert(noise@[i]@.len() == h);
        }
        r
    }

    /// The terrain of a cell from its height and temperature.
    pub fn determine_terrain(&self, height: i64, temp: i64, moisture: i64) -> (r: Terrain)
        ensures
            r == terrain_for(self.cfg(), height as int, temp as int),
    {
        if (height as i128) < (self.config.ocean_threshold as i128) {
            if (height as i128) * 5 < (self.config.ocean_threshold as i128) * 3 {
                return Terrain::Ocean;
            } else {
                return Terrain::Coast;
            }
        }
        if height > self.config.mountain_threshold {
            return Terrain::Mountain;
        }
        let is_hill = height > self.config.hill_threshold;
        if temp < 150_000 {
            if is_hill { Terrain::SnowHill } else { Terrain::Snow }
        } else if temp < 300_000 {
            if is_hill { Terrain::TundraHill } else { Terrain::Tundra }
        } else if temp < 500_000 {
            if is_hill { Terrain::GrasslandHill } else { Terrain::Grassland }
        } else if temp < 800_000 {
            if is_hill { Terrain::PlainsHill } else { Terrain::Plains }
        } else {
            if is_hill { Terrain::DesertHill } else { Terrain::Desert }
        }
    }

    /// The feature of a cell given the outcome of each draw (Oasis, Marsh,
    /// Jungle, Forest); a draw counts only where the conditions before it
    /// hold.
    pub fn feature_for_draws(
        terrain: Terrain,
        temp: i64,
        moisture: i64,
        oasis: bool,
        marsh: bool,
        jungle: bool,
        forest: bool,
    ) -> (r: Option<TileFeature>)
        ensures
            r == feature_rule(terrain, temp as int, moisture as int, oasis, marsh, jungle, forest),
    {
        if terrain.is_water() || matches!(terrain, Terrain::Mountain | Terrain::Snow | Terrain::SnowHill) {
            None
        } else if matches!(terrain, Terrain::Desert) && moisture > 400_000 && oasis {
            Some(TileFeature::Oasis)
        } else if !terrain.is_hill() && moisture > 700_000 && marsh && TileFeature::Marsh.can_place_on(
            terrain,
        ) {
            Some(TileFeature::Marsh)
        } else if temp > 700_000 && moisture > 600_000 && jungle && TileFeature::Jungle.can_place_on(
            terrain,
        ) {
            Some(TileFeature::Jungle)
        } else if temp < 600_000 && moisture > 500_000 && forest && TileFeature::Forest.can_place_on(
            terrain,
        ) {
            Some(TileFeature::Forest)
        } else {
            None
        }
    }

    /// The feature of a cell of terrain `terrain`, drawing from the stream
    /// in the rule's order and only while no earlier feature was chosen:
    /// Oasis (chance 1 in 20), Marsh (1 in 5), Jungle (1 in 2), Forest
    /// (2 in 5).
    pub fn determine_feature(&mut self, terrain: Terrain, temp: i64, moisture: i64) -> (r: Option<
        TileFeature,
    >)
        ensures
            final(self).cfg() == old(self).cfg(),
            final(self).stream_seed() == old(self).stream_seed(),
            (r, final(self).stream_pos()) == feature_outcome(
                terrain,
                temp as int,
                moisture as int,
                old(self).stream_seed(),
                old(self).stream_pos(),
            ),
            feature_drawn(terrain, temp as int, moisture as int, r),
            !draws_possible(terrain, temp as int, moisture as int) ==> *final(self) == *old(self),
    {
        if terrain.is_water() || matches!(terrain, Terrain::Mountain | Terrain::Snow | Terrain::SnowHill) {
            assert(feature_rule(terrain, temp as int, moisture as int, false, false, false, false)
                == None::<TileFeature>);
            return None;
        }
        let oasis = if matches!(terrain, Terrain::Desert) && moisture > 400_000 {
            self.stream.draw(1, 20)
        } else {
            false
        };
        let marsh = if !oasis && !terrain.is_hill() && moisture > 700_000 {
            self.stream.draw(1, 5)
        } else {
            false
        };
        let marsh_taken = marsh && TileFeature::Marsh.can_place_on(terrain);
        let jungle = if !oasis && !marsh_taken && temp > 700_000 && moisture > 600_000 {
            self.stream.draw(1, 2)
        } else {
            false
        };
        let jungle_taken = jungle && TileFeature::Jungle.can_place_on(terrain);
        let forest = if !oasis && !marsh_taken && !jungle_taken && temp < 600_000 && moisture
            > 500_000 {
            self.stream.draw(2, 5)
        } else {
            false
        };
        Self::feature_for_draws(terrain, temp, moisture, oasis, marsh, jungle, forest)
    }

    /// One tile record per coordinate, classified from the given fields:
    /// `x` outer, `y` inner, so record `i` is the tile at `(i / h, i % h)`;
    /// features are drawn from the stream in that order.
    pub fn generate_from_fields(
        &mut self,
        height_map: &Vec<Vec<i64>>,
        temperature_map: &Vec<Vec<i64>>,
        moisture_map: &Vec<Vec<i64>>,
    ) -> (r: Vec<TileComponents>)
        requires
            grid_shape(height_map@, size_dims(old(self).cfg().size).0, size_dims(old(self).cfg().size).1),
            grid_shape(
                temperature_map@,
                size_dims(old(self).cfg().size).0,
                size_dims(old(self).cfg().size).1,
            ),
            grid_shape(moisture_map@, size_dims(old(self).cfg().size).0, size_dims(old(self).cfg().size).1),
        ensures
            final(self).cfg() == old(self).cfg(),
            r@.len() == size_dims(old(self).cfg().size).0 * size_dims(old(self).cfg().size).1,
            forall|i: int|
                0 <= i < r@.len() ==> classified_tile(
                    old(self).cfg(),
                    height_map@,
                    temperature_map@,
                    moisture_map@,
                    size_dims(old(self).cfg().size).1,
                    i,
                    #[trigger] r@[i],
                ),
            final(self).stream_seed() == old(self).stream_seed(),
            features_from_stream(
                old(self).cfg(),
                height_map@,
                temperature_map@,
                moisture_map@,
                size_dims(old(self).cfg().size).1,
                old(self).stream_seed(),
                old(self).stream_pos(),
                r@,
            ),
            final(self).stream_pos() == map_features(
                old(self).cfg(),
                height_map@,
                temperature_map@,
                moisture_map@,
                size_dims(old(self).cfg().size).1,
                old(self).stream_seed(),
                old(self).stream_pos(),
                r@.len(),
            ).1,
    {
        let ghost c = self.cfg();
        let ghost seed = self.stream_seed();
        let ghost pos = self.stream_pos();
        let (w, h) = self.config.size.dimensions();
        let mut out: Vec<TileComponents> = Vec::new();
        for q in 0..w
            invariant
                self.cfg() == c,
                self.stream_seed() == seed,
                features_from_stream(c, height_map@, temperature_map@, moisture_map@, h as int, seed, pos, out@),
                self.stream_pos() == map_features(c, height_map@, temperature_map@, moisture_map@, h as int, seed, pos, out@.len()).1,
                w == size_dims(c.size).0 && h == size_dims(c.size).1,
                1 <= w <= 128 && 1 <= h <= 80,
                grid_shape(height_map@, w as int, h as int),
                grid_shape(temperature_map@, w as int, h as int),
                grid_shape(moisture_map@, w as int, h as int),
                out@.len() == q * h,
                forall|i: int|
                    0 <= i < out@.len() ==> classified_tile(
                        c,
                        height_map@,
                        temperature_map@,
                        moisture_map@,
                        h as int,
                        i,
                        #[trigger] out@[i],
                    ),
        {
            let hrow = &height_map[q as usize];
            let trow = &temperature_map[q as usize];
            let mrow = &moisture_map[q as usize];
            for r in 0..h
                invariant
                    self.cfg() == c,
                    self.stream_seed() == seed,
                    features_from_stream(c, height_map@, temperature_map@, moisture_map@, h as int, seed, pos, out@),
                    self.stream_pos() == map_features(c, height_map@, temperature_map@, moisture_map@, h as int, seed, pos, out@.len()).1,
                    w == size_dims(c.size).0 && h == size_dims(c.size).1,
                    1 <= w <= 128 && 1 <= h <= 80,
                    0 <= q < w,
                    hrow@ == height_map@[q as int]@,
                    trow@ == temperature_map@[q as int]@,
                    mrow@ == moisture_map@[q as int]@,
                    grid_shape(height_map@, w as int, h as int),
                    grid_shape(temperature_map@, w as int, h as int),
                    grid_shape(moisture_map@, w as int, h as int),
                    out@.len() == q * h + r,
                    forall|i: int|
                        0 <= i < out@.len() ==> classified_tile(
                            c,
                            height_map@,
                            temperature_map@,
                            moisture_map@,
                            h as int,
                            i,
                            #[trigger] out@[i],
                        ),
            {
                assert(hrow@.len() == h && trow@.len() == h && mrow@.len() == h);
                let hv = hrow[r as usize];
                let tv = trow[r as usize];
                let mv = mrow[r as usize];
                let terrain = self.determine_terrain(hv, tv, mv);
                let feature = self.determine_feature(terrain, tv, mv);
                let record = TileBuilder::new(TilePosition::new(q, r), terrain).feature_opt(
                    feature,
                ).build();
                let ghost idx = q * h + r;
                proof {
                    vstd::arithmetic::div_mod::lemma_fundamental_div_mod_converse(
                        idx,
                        h as int,
                        q as int,
                        r as int,
                    );
                }
                let ghost prev = out@;
                let ghost mf = map_features(c, height_map@, temperature_map@, moisture_map@, h as int, seed, pos, prev.len());
                out.push(record);
                assert(map_features(c, height_map@, temperature_map@, moisture_map@, h as int, seed, pos, out@.len())
                    == (mf.0.push(feature), self.stream_pos()));
                assert forall|i: int| 0 <= i < out@.len() implies #[trigger] out@[i].feature
                    == map_features(c, height_map@, temperature_map@, moisture_map@, h as int, seed, pos, out@.len()).0[i] by {
                    if i < prev.len() {
                        assert(out@[i] == prev[i]);
                    }
                }
                assert forall|i: int| 0 <= i < out@.len() implies classified_tile(
                    c,
                    height_map@,
                    temperature_map@,
                    moisture_map@,
                    h as int,
                    i,
                    #[trigger] out@[i],
                ) by {
                    if i < prev.len() {
                        assert(out@[i] == prev[i]);
                    } else {
                        assert(i == idx);
                        assert(cell(height_map@, q as int, r as int) == hv);
                        assert(cell(temperature_map@, q as int, r as int) == tv);
                        assert(cell(moisture_map@, q as int, r as int) == mv);
                    }
                }
            }
            assert((q + 1) * h == q * h + h) by (nonlinear_arith);
        }
        out
    }

    /// The whole map from the raw samples of the three noise layers: the
    /// height, temperature and moisture fields, then one classified record
    /// per coordinate.
    pub fn generate(&mut self, samples: &NoiseSamples) -> (r: Vec<TileComponents>)
        requires
            grid_shape(samples.height@, size_dims(old(self).cfg().size).0, size_dims(old(self).cfg().size).1),
            grid_shape(
                samples.temperature@,
                size_dims(old(self).cfg().size).0,
                size_dims(old(self).cfg().size).1,
            ),
            grid_shape(
                samples.moisture@,
                size_dims(old(self).cfg().size).0,
                size_dims(old(self).cfg().size).1,
            ),
        ensures
            final(self).cfg() == old(self).cfg(),
            r@.len() == size_dims(old(self).cfg().size).0 * size_dims(old(self).cfg().size).1,
            exists|hm: Seq<Vec<i64>>, tm: Seq<Vec<i64>>, mm: Seq<Vec<i64>>|
                {
                    &&& height_field_of(
                        samples.height@,
                        size_dims(old(self).cfg().size).0,
                        size_dims(old(self).cfg().size).1,
                        hm,
                    )
                    &&& temperature_field_of(
                        samples.temperature@,
                        size_dims(old(self).cfg().size).0,
                        size_dims(old(self).cfg().size).1,
                        tm,
                    )
                    &&& normalization_of(samples.moisture@, mm)
                    &&& forall|i: int|
                        0 <= i < r@.len() ==> classified_tile(
                            old(self).cfg(),
                            hm,
                            tm,
                            mm,
                            size_dims(old(self).cfg().size).1,
                            i,
                            #[trigger] r@[i],
                        )
                    &&& features_from_stream(
                        old(self).cfg(),
                        hm,
                        tm,
                        mm,
                        size_dims(old(self).cfg().size).1,
                        old(self).stream_seed(),
                        old(self).stream_pos(),
                        r@,
                    )
                    &&& final(self).stream_pos() == map_features(
                        old(self).cfg(),
                        hm,
                        tm,
                        mm,
                        size_dims(old(self).cfg().size).1,
                        old(self).stream_seed(),
                        old(self).stream_pos(),
                        r@.len(),
                    ).1
                },
            final(self).stream_seed() == old(self).stream_seed(),
    {
        let height_map = self.generate_height_map(&samples.height);
        let temperature_map = self.generate_temperature_map(&samples.temperature);
        let moisture_map = self.generate_moisture_map(&samples.moisture);
        let r = self.generate_from_fields(&height_map, &temperature_map, &moisture_map);
        assert(height_field_of(
            samples.height@,
            size_dims(old(self).cfg().size).0,
            size_dims(old(self).cfg().size).1,
            height_map@,
        ));
        r
    }
}

/// A feature the rule allows fits its terrain, and terrain that is water,
/// Mountain, Snow or SnowHill never receives one.
pub proof fn lemma_feature_fits_terrain(t: Terrain, temp: int, moisture: int, f: TileFeature)
    requires
        feature_drawn(t, temp, moisture, Some(f)),
    ensures
        placeable(f, t),
        !featureless(t),
{
    let (a, b, c, d) = choose|a: bool, b: bool, c: bool, d: bool|
        #[trigger] feature_rule(t, temp, moisture, a, b, c, d) == Some(f);
    assert(feature_rule(t, temp, moisture, a, b, c, d) == Some(f));
}

/// Every generated tile that carries a feature carries one that fits its
/// terrain, and no water, Mountain, Snow or SnowHill tile carries one.
pub proof fn lemma_generated_features_fit(
    c: MapConfig,
    hm: Seq<Vec<i64>>,
    tm: Seq<Vec<i64>>,
    mm: Seq<Vec<i64>>,
    h: int,
    i: int,
    rec: TileComponents,
)
    requires
        classified_tile(c, hm, tm, mm, h, i, rec),
    ensures
        rec.feature matches Some(f) ==> placeable(f, rec.bundle.terrain),
        featureless(rec.bundle.terrain) ==> rec.feature is None,
{
    let q = i / h;
    let r = i % h;
    if let Some(f) = rec.feature {
        lemma_feature_fits_terrain(rec.bundle.terrain, cell(tm, q, r), cell(mm, q, r), f);
    }
}

/// In a map of `w` by `h` records classified from its fields, the record at
/// index `q * h + r` is the tile `(q, r)`, and no other record is.
pub proof fn lemma_every_coordinate_once(
    c: MapConfig,
    hm: Seq<Vec<i64>>,
    tm: Seq<Vec<i64>>,
    mm: Seq<Vec<i64>>,
    recs: Seq<TileComponents>,
    q: int,
    r: int,
)
    requires
        recs.len() == size_dims(c.size).0 * size_dims(c.size).1,
        forall|i: int|
            0 <= i < recs.len() ==> classified_tile(
                c,
                hm,
                tm,
                mm,
                size_dims(c.size).1,
                i,
                #[trigger] recs[i],
            ),
        0 <= q < size_dims(c.size).0,
        0 <= r < size_dims(c.size).1,
    ensures
        c.size is Duel ==> recs.len() == 1536,
        0 <= q * size_dims(c.size).1 + r < recs.len(),
        recs[q * size_dims(c.size).1 + r].bundle.position == (TilePosition { x: q as i32, y: r as i32 }),
        forall|j: int|
            0 <= j < recs.len() && #[trigger] recs[j].bundle.position == (TilePosition {
                x: q as i32,
                y: r as i32,
            }) ==> j == q * size_dims(c.size).1 + r,
{
    let w = size_dims(c.size).0;
    let h = size_dims(c.size).1;
    let k = q * h + r;
    assert(0 <= k < w * h) by (nonlinear_arith)
        requires
            0 <= q < w,
            0 <= r < h,
            k == q * h + r,
    ;
    vstd::arithmetic::div_mod::lemma_fundamental_div_mod_converse(k, h, q, r);
    assert(classified_tile(c, hm, tm, mm, h, k, recs[k]));
    assert forall|j: int|
        0 <= j < recs.len() && #[trigger] recs[j].bundle.position == (TilePosition {
            x: q as i32,
            y: r as i32,
        }) implies j == k by {
        assert(classified_tile(c, hm, tm, mm, h, j, recs[j]));
        vstd::arithmetic::div_mod::lemma_fundamental_div_mod(j, h);
        let a = j / h;
        let b = j % h;
        assert(0 <= a < w) by (nonlinear_arith)
            requires
                j == h * a + b,
                0 <= b < h,
                0 <= j < w * h,
                0 < h,
        ;
        assert(a == q && b == r);
    }
}

/// Two fields normalized from inputs that agree on every cell agree on
/// every cell.
proof fn lemma_height_fields_agree(
    noise: Seq<Vec<i64>>,
    w: int,
    h: int,
    a: Seq<Vec<i64>>,
    b: Seq<Vec<i64>>,
)
    requires
        height_field_of(noise, w, h, a),
        height_field_of(noise, w, h, b),
    ensures
        forall|x: int, y: int| 0 <= x < w && 0 <= y < h ==> #[trigger] cell(a, x, y) == cell(b, x, y),
{
    let s1 = choose|s: Seq<Vec<i64>>|
        {
            &&& grid_shape(s, w, h)
            &&& (forall|x: int, y: int|
                0 <= x < w && 0 <= y < h ==> #[trigger] cell(s, x, y) == shaped_cell(noise, x, y, w, h))
            &&& normalization_of(s, a)
        };
    let s2 = choose|s: Seq<Vec<i64>>|
        {
            &&& grid_shape(s, w, h)
            &&& (forall|x: int, y: int|
                0 <= x < w && 0 <= y < h ==> #[trigger] cell(s, x, y) == shaped_cell(noise, x, y, w, h))
            &&& normalization_of(s, b)
        };
    assert forall|x: int, y: int| in_grid(s1, x, y) implies in_grid(s2, x, y) && #[trigger] cell(
        s1,
        x,
        y,
    ) == cell(s2, x, y) by {
        assert(s1[x]@.len() == h);
        assert(s2[x]@.len() == h);
    }
    assert forall|x: int, y: int| in_grid(s2, x, y) implies in_grid(s1, x, y) by {
        assert(s1[x]@.len() == h);
        assert(s2[x]@.len() == h);
    }
    lemma_normalization_congruent(s1, s2, a, b);
    assert forall|x: int, y: int| 0 <= x < w && 0 <= y < h implies #[trigger] cell(a, x, y) == cell(
        b,
        x,
        y,
    ) by {
        assert(s1[x]@.len() == h);
        assert(in_grid(s1, x, y));
    }
}

/// Generation is a function of the configuration and the raw samples of
/// the noise layers: two maps generated under one configuration from the
/// same samples have equal height, temperature and moisture fields, and the
/// same record at every index: position, terrain, feature, resource,
/// river edges and yields, where both feature streams start from the same
/// seed and position (as two fresh generators of that configuration do).
pub proof fn lemma_generation_deterministic(
    c: MapConfig,
    samples_h: Seq<Vec<i64>>,
    samples_t: Seq<Vec<i64>>,
    samples_m: Seq<Vec<i64>>,
    hm1: Seq<Vec<i64>>,
    tm1: Seq<Vec<i64>>,
    mm1: Seq<Vec<i64>>,
    recs1: Seq<TileComponents>,
    hm2: Seq<Vec<i64>>,
    tm2: Seq<Vec<i64>>,
    mm2: Seq<Vec<i64>>,
    recs2: Seq<TileComponents>,
    seed: u64,
    pos: nat,
)
    requires
        grid_shape(samples_m, size_dims(c.size).0, size_dims(c.size).1),
        height_field_of(samples_h, size_dims(c.size).0, size_dims(c.size).1, hm1),
        height_field_of(samples_h, size_dims(c.size).0, size_dims(c.size).1, hm2),
        temperature_field_of(samples_t, size_dims(c.size).0, size_dims(c.size).1, tm1),
        temperature_field_of(samples_t, size_dims(c.size).0, size_dims(c.size).1, tm2),
        normalization_of(samples_m, mm1),
        normalization_of(samples_m, mm2),
        recs1.len() == size_dims(c.size).0 * size_dims(c.size).1,
        recs2.len() == recs1.len(),
        forall|i: int|
            0 <= i < recs1.len() ==> classified_tile(
                c,
                hm1,
                tm1,
                mm1,
                size_dims(c.size).1,
                i,
                #[trigger] recs1[i],
            ),
        forall|i: int|
            0 <= i < recs2.len() ==> classified_tile(
                c,
                hm2,
                tm2,
                mm2,
                size_dims(c.size).1,
                i,
                #[trigger] recs2[i],
            ),
        features_from_stream(c, hm1, tm1, mm1, size_dims(c.size).1, seed, pos, recs1),
        features_from_stream(c, hm2, tm2, mm2, size_dims(c.size).1, seed, pos, recs2),
    ensures
        forall|x: int, y: int|
            0 <= x < size_dims(c.size).0 && 0 <= y < size_dims(c.size).1 ==> {
                &&& #[trigger] cell(hm1, x, y) == cell(hm2, x, y)
                &&& cell(tm1, x, y) == cell(tm2, x, y)
                &&& cell(mm1, x, y) == cell(mm2, x, y)
            },
        forall|i: int| 0 <= i < recs1.len() ==> #[trigger] recs1[i] == recs2[i],
{
    let w = size_dims(c.size).0;
    let h = size_dims(c.size).1;
    lemma_height_fields_agree(samples_h, w, h, hm1, hm2);
    lemma_normalization_unique_cells(samples_m, mm1, mm2);
    assert forall|x: int, y: int| 0 <= x < w && 0 <= y < h implies {
        &&& #[trigger] cell(hm1, x, y) == cell(hm2, x, y)
        &&& cell(tm1, x, y) == cell(tm2, x, y)
        &&& cell(mm1, x, y) == cell(mm2, x, y)
    } by {
        assert(samples_m[x]@.len() == h);
        assert(in_grid(samples_m, x, y));
    }
    lemma_map_features_congruent(c, hm1, tm1, mm1, hm2, tm2, mm2, seed, pos, recs1.len());
    assert forall|i: int| 0 <= i < recs1.len() implies #[trigger] recs1[i] == recs2[i] by {
        assert(classified_tile(c, hm1, tm1, mm1, h, i, recs1[i]));
        assert(classified_tile(c, hm2, tm2, mm2, h, i, recs2[i]));
        vstd::arithmetic::div_mod::lemma_fundamental_div_mod(i, h);
        let q = i / h;
        let r = i % h;
        assert(0 <= q < w) by (nonlinear_arith)
            requires
                i == h * q + r,
                0 <= r < h,
                0 <= i < w * h,
                0 < h,
        ;
        assert(cell(hm1, q, r) == cell(hm2, q, r));
        assert(cell(tm1, q, r) == cell(tm2, q, r));
        assert(recs1[i].feature == recs2[i].feature);
        assert(recs1[i].bundle.tile == recs2[i].bundle.tile);
    }
}

/// The features drawn for the first `k` records agree for fields that agree
/// on every cell of the grid.
proof fn lemma_map_features_congruent(
    c: MapConfig,
    hm1: Seq<Vec<i64>>,
    tm1: Seq<Vec<i64>>,
    mm1: Seq<Vec<i64>>,
    hm2: Seq<Vec<i64>>,
    tm2: Seq<Vec<i64>>,
    mm2: Seq<Vec<i64>>,
    seed: u64,
    pos: nat,
    k: nat,
)
    requires
        k <= size_dims(c.size).0 * size_dims(c.size).1,
        forall|x: int, y: int|
            0 <= x < size_dims(c.size).0 && 0 <= y < size_dims(c.size).1 ==> {
                &&& #[trigger] cell(hm1, x, y) == cell(hm2, x, y)
                &&& cell(tm1, x, y) == cell(tm2, x, y)
                &&& cell(mm1, x, y) == cell(mm2, x, y)
            },
    ensures
        map_features(c, hm1, tm1, mm1, size_dims(c.size).1, seed, pos, k) == map_features(
            c,
            hm2,
            tm2,
            mm2,
            size_dims(c.size).1,
            seed,
            pos,
            k,
        ),
    decreases k,
{
    let w = size_dims(c.size).0;
    let h = size_dims(c.size).1;
    if k > 0 {
        lemma_map_features_congruent(c, hm1, tm1, mm1, hm2, tm2, mm2, seed, pos, (k - 1) as nat);
        let i = k - 1;
        vstd::arithmetic::div_mod::lemma_fundamental_div_mod(i, h);
        let q = i / h;
        let r = i % h;
        assert(0 <= q < w) by (nonlinear_arith)
            requires
                i == h * q + r,
                0 <= r < h,
                0 <= i < w * h,
                0 < h,
        ;
        assert(cell(hm1, q, r) == cell(hm2, q, r));
    }
}

} // verus!
