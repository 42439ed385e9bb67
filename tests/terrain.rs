use openciv::tile::Terrain;

#[test]
fn test_grassland_yields() {
    let terrain = Terrain::Grassland;
    assert_eq!(terrain.base_food(), 2);
    assert_eq!(terrain.base_production(), 0);
    assert_eq!(terrain.base_gold(), 0);
}

#[test]
fn test_plains_yields() {
    let terrain = Terrain::Plains;
    assert_eq!(terrain.base_food(), 1);
    assert_eq!(terrain.base_production(), 1);
    assert_eq!(terrain.base_gold(), 0);
}

#[test]
fn test_desert_yields() {
    let terrain = Terrain::Desert;
    assert_eq!(terrain.base_food(), 0);
    assert_eq!(terrain.base_production(), 0);
    assert_eq!(terrain.base_gold(), 0);
}

#[test]
fn test_tundra_yields() {
    let terrain = Terrain::Tundra;
    assert_eq!(terrain.base_food(), 1);
    assert_eq!(terrain.base_production(), 0);
    assert_eq!(terrain.base_gold(), 0);
}

#[test]
fn test_snow_yields() {
    let terrain = Terrain::Snow;
    assert_eq!(terrain.base_food(), 0);
    assert_eq!(terrain.base_production(), 0);
    assert_eq!(terrain.base_gold(), 0);
}

#[test]
fn test_hill_yields() {
    // All hills should have 0 food, 2 production, 0 gold
    let hills = [
        Terrain::GrasslandHill,
        Terrain::PlainsHill,
        Terrain::DesertHill,
        Terrain::TundraHill,
        Terrain::SnowHill,
    ];

    for hill in hills {
        assert_eq!(hill.base_food(), 0, "{:?} should have 0 food", hill);
        assert_eq!(
            hill.base_production(),
            2,
            "{:?} should have 2 production",
            hill
        );
        assert_eq!(hill.base_gold(), 0, "{:?} should have 0 gold", hill);
    }
}

#[test]
fn test_mountain_yields() {
    let terrain = Terrain::Mountain;
    assert_eq!(terrain.base_food(), 0);
    assert_eq!(terrain.base_production(), 0);
    assert_eq!(terrain.base_gold(), 0);
}

#[test]
fn test_coast_yields() {
    let terrain = Terrain::Coast;
    assert_eq!(terrain.base_food(), 1);
    assert_eq!(terrain.base_production(), 0);
    assert_eq!(terrain.base_gold(), 0);
}

#[test]
fn test_ocean_yields() {
    let terrain = Terrain::Ocean;
    assert_eq!(terrain.base_food(), 1);
    assert_eq!(terrain.base_production(), 0);
    assert_eq!(terrain.base_gold(), 0);
}

#[test]
fn test_lake_yields() {
    let terrain = Terrain::Lake;
    assert_eq!(terrain.base_food(), 2);
    assert_eq!(terrain.base_production(), 0);
    assert_eq!(terrain.base_gold(), 0);
}

#[test]
fn test_flat_terrain_movement_costs() {
    let flat_terrains = [
        Terrain::Grassland,
        Terrain::Plains,
        Terrain::Desert,
        Terrain::Tundra,
        Terrain::Snow,
    ];

    for terrain in flat_terrains {
        assert_eq!(
            terrain.movement_cost(),
            1,
            "{:?} should have movement cost 1",
            terrain
        );
    }
}

#[test]
fn test_hill_movement_costs() {
    let hills = [
        Terrain::GrasslandHill,
        Terrain::PlainsHill,
        Terrain::DesertHill,
        Terrain::TundraHill,
        Terrain::SnowHill,
    ];

    for hill in hills {
        assert_eq!(
            hill.movement_cost(),
            2,
            "{:?} should have movement cost 2",
            hill
        );
    }
}

#[test]
fn test_impassable_movement_costs() {
    let impassable = [
        Terrain::Mountain,
        Terrain::Coast,
        Terrain::Ocean,
        Terrain::Lake,
    ];

    for terrain in impassable {
        assert_eq!(
            terrain.movement_cost(),
            9999,
            "{:?} should have movement cost 9999",
            terrain
        );
    }
}

#[test]
fn test_is_water() {
    // Water terrains
    assert!(Terrain::Coast.is_water());
    assert!(Terrain::Ocean.is_water());
    assert!(Terrain::Lake.is_water());

    // Non-water terrains
    assert!(!Terrain::Grassland.is_water());
    assert!(!Terrain::Plains.is_water());
    assert!(!Terrain::Desert.is_water());
    assert!(!Terrain::Mountain.is_water());
    assert!(!Terrain::GrasslandHill.is_water());
}

#[test]
fn test_is_hill() {
    // Hill terrains
    assert!(Terrain::GrasslandHill.is_hill());
    assert!(Terrain::PlainsHill.is_hill());
    assert!(Terrain::DesertHill.is_hill());
    assert!(Terrain::TundraHill.is_hill());
    assert!(Terrain::SnowHill.is_hill());

    // Non-hill terrains
    assert!(!Terrain::Grassland.is_hill());
    assert!(!Terrain::Plains.is_hill());
    assert!(!Terrain::Mountain.is_hill());
    assert!(!Terrain::Coast.is_hill());
}

#[test]
fn test_is_passable() {
    // Passable terrains
    assert!(Terrain::Grassland.is_passable());
    assert!(Terrain::Plains.is_passable());
    assert!(Terrain::Desert.is_passable());
    assert!(Terrain::Tundra.is_passable());
    assert!(Terrain::Snow.is_passable());
    assert!(Terrain::GrasslandHill.is_passable());
    assert!(Terrain::PlainsHill.is_passable());

    // Impassable terrains
    assert!(!Terrain::Mountain.is_passable());
    assert!(!Terrain::Coast.is_passable());
    assert!(!Terrain::Ocean.is_passable());
    assert!(!Terrain::Lake.is_passable());
}

#[test]
fn test_is_flat_land() {
    // Flat land
    assert!(Terrain::Grassland.is_flat_land());
    assert!(Terrain::Plains.is_flat_land());
    assert!(Terrain::Desert.is_flat_land());
    assert!(Terrain::Tundra.is_flat_land());
    assert!(Terrain::Snow.is_flat_land());

    // Not flat land
    assert!(!Terrain::GrasslandHill.is_flat_land());
    assert!(!Terrain::Mountain.is_flat_land());
    assert!(!Terrain::Coast.is_flat_land());
}

#[test]
fn test_default_terrain() {
    assert_eq!(Terrain::default(), Terrain::Grassland);
}
