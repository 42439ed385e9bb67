use openciv::tile::{Terrain, TileFeature, TileResource, TileYields};

#[test]
fn yields_test_new() {
    let yields = TileYields::new(2, 1, 3);
    assert_eq!(yields.food, 2);
    assert_eq!(yields.production, 1);
    assert_eq!(yields.gold, 3);
    assert_eq!(yields.science, 0);
    assert_eq!(yields.culture, 0);
    assert_eq!(yields.faith, 0);
}

#[test]
fn yields_test_default() {
    let yields = TileYields::default();
    assert_eq!(yields.food, 0);
    assert_eq!(yields.production, 0);
    assert_eq!(yields.gold, 0);
    assert_eq!(yields.science, 0);
    assert_eq!(yields.culture, 0);
    assert_eq!(yields.faith, 0);
}

#[test]
fn test_zero_constant() {
    assert_eq!(TileYields::zero(), TileYields::default());
}

#[test]
fn test_calculate_grassland() {
    let yields = TileYields::calculate(Terrain::Grassland, None, None, false);
    assert_eq!(yields.food, 2);
    assert_eq!(yields.production, 0);
    assert_eq!(yields.gold, 0);
}

#[test]
fn test_calculate_plains() {
    let yields = TileYields::calculate(Terrain::Plains, None, None, false);
    assert_eq!(yields.food, 1);
    assert_eq!(yields.production, 1);
    assert_eq!(yields.gold, 0);
}

#[test]
fn test_calculate_desert() {
    let yields = TileYields::calculate(Terrain::Desert, None, None, false);
    assert_eq!(yields.food, 0);
    assert_eq!(yields.production, 0);
    assert_eq!(yields.gold, 0);
}

#[test]
fn test_calculate_grassland_hill() {
    let yields = TileYields::calculate(Terrain::GrasslandHill, None, None, false);
    assert_eq!(yields.food, 0);
    assert_eq!(yields.production, 2);
    assert_eq!(yields.gold, 0);
}

#[test]
fn test_calculate_coast() {
    let yields = TileYields::calculate(Terrain::Coast, None, None, false);
    assert_eq!(yields.food, 1);
    assert_eq!(yields.production, 0);
    assert_eq!(yields.gold, 0);
}

#[test]
fn test_calculate_grassland_forest() {
    let yields =
        TileYields::calculate(Terrain::Grassland, Some(TileFeature::Forest), None, false);
    // Grassland: 2F + Forest: +1P
    assert_eq!(yields.food, 2);
    assert_eq!(yields.production, 1);
    assert_eq!(yields.gold, 0);
}

#[test]
fn test_calculate_grassland_jungle() {
    let yields =
        TileYields::calculate(Terrain::Grassland, Some(TileFeature::Jungle), None, false);
    // Grassland: 2F + Jungle: -1P (clamped to 0)
    assert_eq!(yields.food, 2);
    assert_eq!(yields.production, 0);
    assert_eq!(yields.gold, 0);
}

#[test]
fn test_calculate_grassland_marsh() {
    let yields =
        TileYields::calculate(Terrain::Grassland, Some(TileFeature::Marsh), None, false);
    // Grassland: 2F + Marsh: -1F = 1F
    assert_eq!(yields.food, 1);
    assert_eq!(yields.production, 0);
    assert_eq!(yields.gold, 0);
}

#[test]
fn test_calculate_desert_floodplains() {
    let yields = TileYields::calculate(
        Terrain::Desert,
        Some(TileFeature::Floodplains),
        None,
        false,
    );
    // Desert: 0F + Floodplains: +2F = 2F
    assert_eq!(yields.food, 2);
    assert_eq!(yields.production, 0);
    assert_eq!(yields.gold, 0);
}

#[test]
fn test_calculate_desert_oasis() {
    let yields =
        TileYields::calculate(Terrain::Desert, Some(TileFeature::Oasis), None, false);
    // Desert: 0F + Oasis: +3F, +1G
    assert_eq!(yields.food, 3);
    assert_eq!(yields.production, 0);
    assert_eq!(yields.gold, 1);
}

#[test]
fn test_calculate_with_cattle() {
    let yields =
        TileYields::calculate(Terrain::Grassland, None, Some(TileResource::Cattle), false);
    // Grassland: 2F + Cattle: +1P
    assert_eq!(yields.food, 2);
    assert_eq!(yields.production, 1);
    assert_eq!(yields.gold, 0);
}

#[test]
fn test_calculate_with_fish() {
    let yields = TileYields::calculate(Terrain::Coast, None, Some(TileResource::Fish), false);
    // Coast: 1F + Fish: +1F = 2F
    assert_eq!(yields.food, 2);
    assert_eq!(yields.production, 0);
    assert_eq!(yields.gold, 0);
}

#[test]
fn test_calculate_with_gems() {
    let yields =
        TileYields::calculate(Terrain::GrasslandHill, None, Some(TileResource::Gems), false);
    // Grassland Hill: 2P + Gems: +3G
    assert_eq!(yields.food, 0);
    assert_eq!(yields.production, 2);
    assert_eq!(yields.gold, 3);
}

#[test]
fn test_calculate_combined_forest_and_deer() {
    let yields = TileYields::calculate(
        Terrain::Tundra,
        Some(TileFeature::Forest),
        Some(TileResource::Deer),
        false,
    );
    // Tundra: 1F + Forest: +1P + Deer: +1F = 2F, 1P
    assert_eq!(yields.food, 2);
    assert_eq!(yields.production, 1);
    assert_eq!(yields.gold, 0);
}

#[test]
fn test_calculate_improved_cattle() {
    let yields = TileYields::calculate_improved(
        Terrain::Grassland,
        None,
        Some(TileResource::Cattle),
        false,
    );
    // Grassland: 2F + Improved Cattle: +2P
    assert_eq!(yields.food, 2);
    assert_eq!(yields.production, 2);
    assert_eq!(yields.gold, 0);
}

#[test]
fn test_calculate_improved_fish() {
    let yields =
        TileYields::calculate_improved(Terrain::Coast, None, Some(TileResource::Fish), false);
    // Coast: 1F + Improved Fish: +2F = 3F
    assert_eq!(yields.food, 3);
    assert_eq!(yields.production, 0);
    assert_eq!(yields.gold, 0);
}

#[test]
fn test_calculate_improved_cotton() {
    let yields = TileYields::calculate_improved(
        Terrain::Grassland,
        None,
        Some(TileResource::Cotton),
        false,
    );
    // Grassland: 2F + Improved Cotton: +3G
    assert_eq!(yields.food, 2);
    assert_eq!(yields.production, 0);
    assert_eq!(yields.gold, 3);
}

#[test]
fn test_jungle_clamps_production() {
    // Plains with jungle: 1F + 1P + (-1P) = 1F + 0P (clamped)
    let yields =
        TileYields::calculate(Terrain::Plains, Some(TileFeature::Jungle), None, false);
    assert_eq!(yields.food, 1);
    assert_eq!(yields.production, 0); // Clamped from 0, not negative
    assert_eq!(yields.gold, 0);
}

#[test]
fn test_add_yields() {
    let a = TileYields::new(2, 1, 0);
    let b = TileYields {
        food: 0,
        production: 1,
        gold: 2,
        science: 1,
        culture: 0,
        faith: 1,
    };

    let sum = a + b;
    assert_eq!(sum.food, 2);
    assert_eq!(sum.production, 2);
    assert_eq!(sum.gold, 2);
    assert_eq!(sum.science, 1);
    assert_eq!(sum.culture, 0);
    assert_eq!(sum.faith, 1);
}

#[test]
fn test_total() {
    let yields = TileYields {
        food: 2,
        production: 1,
        gold: 3,
        science: 1,
        culture: 2,
        faith: 1,
    };
    assert_eq!(yields.total(), 10);
}

#[test]
fn test_is_empty() {
    assert!(TileYields::zero().is_empty());
    assert!(TileYields::default().is_empty());
    assert!(!TileYields::new(1, 0, 0).is_empty());
}
