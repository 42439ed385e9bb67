use noise::{Fbm, MultiFractal, NoiseFn, Perlin};
use openciv::map::{FractalLayer, MapConfig, MapGenerator, NoiseSamples, TEMPERATURE_NOISE_SCALE, UNIT};
use openciv::tile::{Terrain, TileComponents, TileFeature};

fn level(v: f64) -> i64 {
    (v * UNIT as f64).round() as i64
}

fn fractal_samples(layer: &FractalLayer, width: i32, height: i32) -> Vec<Vec<i64>> {
    let fbm: Fbm<Perlin> = Fbm::new(layer.seed)
        .set_octaves(layer.octaves)
        .set_frequency(layer.frequency as f64 / UNIT as f64)
        .set_lacunarity(layer.lacunarity as f64 / UNIT as f64)
        .set_persistence(layer.persistence as f64 / UNIT as f64);
    (0..width)
        .map(|x| (0..height).map(|y| level(fbm.get([x as f64, y as f64]))).collect())
        .collect()
}

fn perlin_samples(seed: u32, width: i32, height: i32) -> Vec<Vec<i64>> {
    let perlin = Perlin::new(seed);
    let scale = TEMPERATURE_NOISE_SCALE as f64 / UNIT as f64;
    (0..width)
        .map(|x| {
            (0..height)
                .map(|y| level(perlin.get([x as f64 * scale, y as f64 * scale])))
                .collect()
        })
        .collect()
}

fn samples(generator: &MapGenerator) -> NoiseSamples {
    let (w, h) = generator.config().size.dimensions();
    NoiseSamples {
        height: fractal_samples(&generator.height_layer(), w, h),
        temperature: perlin_samples(generator.temperature_seed(), w, h),
        moisture: fractal_samples(&generator.moisture_layer(), w, h),
    }
}

fn generate_map(config: MapConfig) -> Vec<TileComponents> {
    let mut generator = MapGenerator::new(config);
    let noise = samples(&generator);
    generator.generate(&noise)
}

#[test]
fn test_map_generates_correct_tile_count_duel() {
    let tiles = generate_map(MapConfig::duel());

    assert_eq!(tiles.len(), 48 * 32);
}

#[test]
fn test_map_generates_correct_tile_count_small() {
    let tiles = generate_map(MapConfig::small());

    assert_eq!(tiles.len(), 68 * 44);
}

#[test]
fn test_same_seed_produces_same_map() {
    let config = MapConfig::duel().with_seed(12345);

    let gen1 = MapGenerator::new(config.clone());
    let gen2 = MapGenerator::new(config);

    let height1 = gen1.generate_height_map(&samples(&gen1).height);
    let height2 = gen2.generate_height_map(&samples(&gen2).height);

    assert_eq!(height1, height2);
}

#[test]
fn map_generation_test_different_seeds_produce_different_maps() {
    let gen1 = MapGenerator::new(MapConfig::duel().with_seed(12345));
    let gen2 = MapGenerator::new(MapConfig::duel().with_seed(67890));

    let map1 = gen1.generate_height_map(&samples(&gen1).height);
    let map2 = gen2.generate_height_map(&samples(&gen2).height);

    let mut differences = 0;
    for x in 0..48 {
        for y in 0..32 {
            if map1[x][y] != map2[x][y] {
                differences += 1;
            }
        }
    }

    assert!(differences > 0, "Different seeds should produce different maps");
}

#[test]
fn test_terrain_distribution() {
    let tiles = generate_map(MapConfig::small().with_seed(42));

    let mut water_count = 0;
    let mut land_count = 0;
    let mut mountain_count = 0;

    for tile in &tiles {
        let terrain = tile.bundle.terrain;
        if terrain.is_water() {
            water_count += 1;
        } else if matches!(terrain, Terrain::Mountain) {
            mountain_count += 1;
        } else {
            land_count += 1;
        }
    }

    let total = water_count + land_count + mountain_count;
    let water_pct = water_count as f64 / total as f64;
    let mountain_pct = mountain_count as f64 / total as f64;

    assert!(
        water_pct > 0.25 && water_pct < 0.85,
        "Water percentage {:.1}% outside expected range 25-85%",
        water_pct * 100.0
    );

    assert!(
        mountain_pct < 0.20,
        "Mountain percentage {:.1}% too high (expected <20%)",
        mountain_pct * 100.0
    );

    assert!(land_count > 0, "Map should have at least some land tiles");
}

#[test]
fn test_all_coordinates_populated() {
    let tiles = generate_map(MapConfig::duel().with_seed(42));

    let positions: Vec<(i32, i32)> = tiles
        .iter()
        .map(|t| (t.bundle.position.x, t.bundle.position.y))
        .collect();

    assert_eq!(positions.len(), 48 * 32);

    let min_q = positions.iter().map(|(q, _)| *q).min().unwrap();
    let max_q = positions.iter().map(|(q, _)| *q).max().unwrap();
    let min_r = positions.iter().map(|(_, r)| *r).min().unwrap();
    let max_r = positions.iter().map(|(_, r)| *r).max().unwrap();

    assert_eq!(min_q, 0);
    assert_eq!(max_q, 47);
    assert_eq!(min_r, 0);
    assert_eq!(max_r, 31);
}

#[test]
fn test_features_respect_terrain() {
    let tiles = generate_map(MapConfig::small().with_seed(42));

    for tile in &tiles {
        if let Some(feature) = tile.feature {
            let terrain = tile.bundle.terrain;
            assert!(
                feature.can_place_on(terrain),
                "{:?} should not be placed on {:?}",
                feature,
                terrain
            );
        }
    }
}

#[test]
fn test_water_has_no_land_features() {
    let tiles = generate_map(MapConfig::small().with_seed(42));

    for tile in &tiles {
        if let Some(feature) = tile.feature {
            let terrain = tile.bundle.terrain;
            if terrain.is_water() {
                assert!(
                    matches!(feature, TileFeature::Ice),
                    "Water terrain {:?} has non-ice feature {:?}",
                    terrain,
                    feature
                );
            }
        }
    }
}

#[test]
fn test_mountains_have_no_features() {
    let tiles = generate_map(MapConfig::small().with_seed(42));

    for tile in &tiles {
        if tile.feature.is_some() {
            assert!(
                !matches!(tile.bundle.terrain, Terrain::Mountain),
                "Mountain should not have any feature"
            );
        }
    }
}

#[test]
fn test_terrain_variety() {
    let tiles = generate_map(MapConfig::small().with_seed(42));

    let mut terrain_types = std::collections::HashSet::new();
    for tile in &tiles {
        terrain_types.insert(tile.bundle.terrain);
    }

    assert!(
        terrain_types.len() >= 5,
        "Map should have terrain variety, found only {} types: {:?}",
        terrain_types.len(),
        terrain_types
    );
}

#[test]
fn test_height_map_creates_edge_falloff() {
    let config = MapConfig::duel().with_seed(42);
    let generator = MapGenerator::new(config);
    let height_map = generator.generate_height_map(&samples(&generator).height);

    let center_x = 24;
    let center_y = 16;
    let center_height = height_map[center_x][center_y] as f64 / UNIT as f64;

    let corner_heights = [
        height_map[0][0],
        height_map[47][0],
        height_map[0][31],
        height_map[47][31],
    ];

    let avg_corner = corner_heights.iter().sum::<i64>() as f64 / UNIT as f64 / 4.0;

    assert!(
        center_height >= avg_corner * 0.5 || avg_corner < 0.3,
        "Edge falloff should lower corner heights. Center: {}, Avg corner: {}",
        center_height,
        avg_corner
    );
}

#[test]
fn test_temperature_creates_latitude_gradient() {
    let config = MapConfig::duel().with_seed(42);
    let generator = MapGenerator::new(config);
    let temp_map = generator.generate_temperature_map(&samples(&generator).temperature);

    let mut pole_avg = 0.0;
    let mut equator_avg = 0.0;
    let samples = 10;

    for i in 0..samples {
        let x = i * 4;
        pole_avg += (temp_map[x][0] + temp_map[x][31]) as f64 / UNIT as f64;
        equator_avg += (temp_map[x][15] + temp_map[x][16]) as f64 / UNIT as f64;
    }

    pole_avg /= (samples * 2) as f64;
    equator_avg /= (samples * 2) as f64;

    assert!(
        equator_avg > pole_avg,
        "Equator ({:.3}) should be warmer than poles ({:.3})",
        equator_avg,
        pole_avg
    );
}
