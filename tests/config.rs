use openciv::map::{MapConfig, MapSize};

#[test]
fn test_map_size_dimensions() {
    assert_eq!(MapSize::Duel.dimensions(), (48, 32));
    assert_eq!(MapSize::Tiny.dimensions(), (56, 36));
    assert_eq!(MapSize::Small.dimensions(), (68, 44));
    assert_eq!(MapSize::Standard.dimensions(), (80, 52));
    assert_eq!(MapSize::Large.dimensions(), (104, 64));
    assert_eq!(MapSize::Huge.dimensions(), (128, 80));
}

#[test]
fn test_map_size_total_tiles() {
    assert_eq!(MapSize::Duel.total_tiles(), 48 * 32);
    assert_eq!(MapSize::Tiny.total_tiles(), 56 * 36);
    assert_eq!(MapSize::Small.total_tiles(), 68 * 44);
    assert_eq!(MapSize::Standard.total_tiles(), 80 * 52);
    assert_eq!(MapSize::Large.total_tiles(), 104 * 64);
    assert_eq!(MapSize::Huge.total_tiles(), 128 * 80);
}

#[test]
fn test_map_size_default() {
    assert_eq!(MapSize::default(), MapSize::Standard);
}

#[test]
fn test_default_config() {
    let config = MapConfig::default();

    assert_eq!(config.size, MapSize::Standard);
    assert_eq!(config.seed, 42);
    assert_eq!(config.land_coverage, 400_000);
    assert_eq!(config.ocean_threshold, 350_000);
    assert_eq!(config.hill_threshold, 550_000);
    assert_eq!(config.mountain_threshold, 750_000);
}

#[test]
fn test_preset_configs() {
    assert_eq!(MapConfig::duel().size, MapSize::Duel);
    assert_eq!(MapConfig::tiny().size, MapSize::Tiny);
    assert_eq!(MapConfig::small().size, MapSize::Small);
    assert_eq!(MapConfig::standard().size, MapSize::Standard);
    assert_eq!(MapConfig::large().size, MapSize::Large);
    assert_eq!(MapConfig::huge().size, MapSize::Huge);

    // All presets should have same default thresholds
    for config in [
        MapConfig::duel(),
        MapConfig::tiny(),
        MapConfig::small(),
        MapConfig::standard(),
        MapConfig::large(),
        MapConfig::huge(),
    ] {
        assert_eq!(config.seed, 42);
        assert_eq!(config.ocean_threshold, 350_000);
    }
}

#[test]
fn test_with_seed() {
    let config = MapConfig::small().with_seed(12345);

    assert_eq!(config.size, MapSize::Small);
    assert_eq!(config.seed, 12345);
}

#[test]
fn test_builder_methods() {
    let config = MapConfig::default()
        .with_seed(999)
        .with_ocean_threshold(400_000)
        .with_hill_threshold(500_000)
        .with_mountain_threshold(800_000);

    assert_eq!(config.seed, 999);
    assert_eq!(config.ocean_threshold, 400_000);
    assert_eq!(config.hill_threshold, 500_000);
    assert_eq!(config.mountain_threshold, 800_000);
}
