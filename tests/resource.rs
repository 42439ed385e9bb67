use openciv::tile::{ResourceCategory, TileResource};

#[test]
fn test_bonus_resources() {
    let bonus = [
        TileResource::Cattle,
        TileResource::Sheep,
        TileResource::Fish,
        TileResource::Stone,
        TileResource::Wheat,
        TileResource::Bananas,
        TileResource::Deer,
    ];

    for resource in bonus {
        assert_eq!(
            resource.category(),
            ResourceCategory::Bonus,
            "{:?} should be Bonus",
            resource
        );
        assert!(resource.is_bonus());
        assert!(!resource.is_strategic());
        assert!(!resource.is_luxury());
    }
}

#[test]
fn test_strategic_resources() {
    let strategic = [
        TileResource::Horses,
        TileResource::Iron,
        TileResource::Coal,
        TileResource::Oil,
        TileResource::Aluminum,
        TileResource::Uranium,
    ];

    for resource in strategic {
        assert_eq!(
            resource.category(),
            ResourceCategory::Strategic,
            "{:?} should be Strategic",
            resource
        );
        assert!(resource.is_strategic());
        assert!(!resource.is_bonus());
        assert!(!resource.is_luxury());
    }
}

#[test]
fn test_luxury_resources() {
    let luxury = [
        TileResource::Citrus,
        TileResource::Cotton,
        TileResource::Copper,
        TileResource::Gold,
        TileResource::Crab,
        TileResource::Whales,
        TileResource::Turtles,
        TileResource::Olives,
        TileResource::Wine,
        TileResource::Silk,
        TileResource::Spices,
        TileResource::Gems,
        TileResource::Marble,
        TileResource::Ivory,
    ];

    for resource in luxury {
        assert_eq!(
            resource.category(),
            ResourceCategory::Luxury,
            "{:?} should be Luxury",
            resource
        );
        assert!(resource.is_luxury());
        assert!(!resource.is_bonus());
        assert!(!resource.is_strategic());
    }
}

#[test]
fn test_cattle_yields() {
    let resource = TileResource::Cattle;
    assert_eq!(resource.food_bonus(), 0);
    assert_eq!(resource.production_bonus(), 1);
    assert_eq!(resource.gold_bonus(), 0);
}

#[test]
fn test_fish_yields() {
    let resource = TileResource::Fish;
    assert_eq!(resource.food_bonus(), 1);
    assert_eq!(resource.production_bonus(), 0);
    assert_eq!(resource.gold_bonus(), 0);
}

#[test]
fn test_citrus_yields() {
    let resource = TileResource::Citrus;
    assert_eq!(resource.food_bonus(), 1);
    assert_eq!(resource.production_bonus(), 0);
    assert_eq!(resource.gold_bonus(), 1);
}

#[test]
fn test_cotton_yields() {
    let resource = TileResource::Cotton;
    assert_eq!(resource.food_bonus(), 0);
    assert_eq!(resource.production_bonus(), 0);
    assert_eq!(resource.gold_bonus(), 2);
}

#[test]
fn test_copper_yields() {
    let resource = TileResource::Copper;
    assert_eq!(resource.food_bonus(), 0);
    assert_eq!(resource.production_bonus(), 0);
    assert_eq!(resource.gold_bonus(), 2);
}

#[test]
fn test_gems_yields() {
    let resource = TileResource::Gems;
    assert_eq!(resource.food_bonus(), 0);
    assert_eq!(resource.production_bonus(), 0);
    assert_eq!(resource.gold_bonus(), 3);
}

#[test]
fn test_whales_yields() {
    let resource = TileResource::Whales;
    assert_eq!(resource.food_bonus(), 1);
    assert_eq!(resource.production_bonus(), 0);
    assert_eq!(resource.gold_bonus(), 1);
}

#[test]
fn test_olives_yields() {
    let resource = TileResource::Olives;
    assert_eq!(resource.food_bonus(), 0);
    assert_eq!(resource.production_bonus(), 1);
    assert_eq!(resource.gold_bonus(), 1);
}

#[test]
fn test_cattle_improved_yields() {
    let resource = TileResource::Cattle;
    assert_eq!(resource.improved_food_bonus(), 0);
    assert_eq!(resource.improved_production_bonus(), 2);
    assert_eq!(resource.improved_gold_bonus(), 0);
}

#[test]
fn test_fish_improved_yields() {
    let resource = TileResource::Fish;
    assert_eq!(resource.improved_food_bonus(), 2);
    assert_eq!(resource.improved_production_bonus(), 0);
    assert_eq!(resource.improved_gold_bonus(), 0);
}

#[test]
fn test_citrus_improved_yields() {
    let resource = TileResource::Citrus;
    assert_eq!(resource.improved_food_bonus(), 1);
    assert_eq!(resource.improved_production_bonus(), 0);
    assert_eq!(resource.improved_gold_bonus(), 2);
}

#[test]
fn test_cotton_improved_yields() {
    let resource = TileResource::Cotton;
    assert_eq!(resource.improved_food_bonus(), 0);
    assert_eq!(resource.improved_production_bonus(), 0);
    assert_eq!(resource.improved_gold_bonus(), 3);
}

#[test]
fn test_copper_improved_yields() {
    let resource = TileResource::Copper;
    assert_eq!(resource.improved_food_bonus(), 0);
    assert_eq!(resource.improved_production_bonus(), 1);
    assert_eq!(resource.improved_gold_bonus(), 2);
}

#[test]
fn test_gold_improved_yields() {
    let resource = TileResource::Gold;
    assert_eq!(resource.improved_food_bonus(), 0);
    assert_eq!(resource.improved_production_bonus(), 0);
    assert_eq!(resource.improved_gold_bonus(), 2);
}

#[test]
fn test_crab_improved_yields() {
    let resource = TileResource::Crab;
    assert_eq!(resource.improved_food_bonus(), 2);
    assert_eq!(resource.improved_production_bonus(), 0);
    assert_eq!(resource.improved_gold_bonus(), 0);
}

#[test]
fn test_marble_improved_yields() {
    let resource = TileResource::Marble;
    assert_eq!(resource.improved_food_bonus(), 0);
    assert_eq!(resource.improved_production_bonus(), 2);
    assert_eq!(resource.improved_gold_bonus(), 1);
}
