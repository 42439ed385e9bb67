//! Collectible resources, their category and their yield bonuses.

use vstd::prelude::*;

verus! {

/// Resource category classification.
#[derive(Clone, Copy, PartialEq, Eq, Hash, Debug, Structural)]
pub enum ResourceCategory {
    Bonus,
    Strategic,
    Luxury,
}

/// Resource type on a tile.
#[derive(Clone, Copy, PartialEq, Eq, Hash, Debug, Structural)]
pub enum TileResource {
    Cattle,
    Sheep,
    Fish,
    Stone,
    Wheat,
    Bananas,
    Deer,
    Horses,
    Iron,
    Coal,
    Oil,
    Aluminum,
    Uranium,
    Citrus,
    Cotton,
    Copper,
    Gold,
    Crab,
    Whales,
    Turtles,
    Olives,
    Wine,
    Silk,
    Spices,
    Gems,
    Marble,
    Ivory,
}

/// Category of each resource.
pub open spec fn category_of(r: TileResource) -> ResourceCategory {
    match r {
        TileResource::Cattle | TileResource::Sheep | TileResource::Fish | TileResource::Stone
        | TileResource::Wheat | TileResource::Bananas | TileResource::Deer => ResourceCategory::Bonus,
        TileResource::Horses | TileResource::Iron | TileResource::Coal | TileResource::Oil
        | TileResource::Aluminum | TileResource::Uranium => ResourceCategory::Strategic,
        _ => ResourceCategory::Luxury,
    }
}

/// Unimproved (food, production, gold) bonus of each resource.
pub open spec fn base_bonus(r: TileResource) -> (int, int, int) {
    match r {
        TileResource::Cattle | TileResource::Sheep | TileResource::Stone | TileResource::Horses
        | TileResource::Iron | TileResource::Coal | TileResource::Oil | TileResource::Aluminum
        | TileResource::Uranium => (0, 1, 0),
        TileResource::Fish | TileResource::Wheat | TileResource::Bananas | TileResource::Deer
        | TileResource::Crab => (1, 0, 0),
        TileResource::Citrus | TileResource::Whales | TileResource::Turtles => (1, 0, 1),
        TileResource::Cotton | TileResource::Copper | TileResource::Gold | TileResource::Wine
        | TileResource::Silk | TileResource::Spices => (0, 0, 2),
        TileResource::Gems => (0, 0, 3),
        TileResource::Olives | TileResource::Marble | TileResource::Ivory => (0, 1, 1),
    }
}

/// Improved (food, production, gold) bonus of each resource.
pub open spec fn improved_bonus(r: TileResource) -> (int, int, int) {
    match r {
        TileResource::Cattle | TileResource::Sheep | TileResource::Stone | TileResource::Horses
        | TileResource::Iron | TileResource::Coal | TileResource::Oil | TileResource::Aluminum
        | TileResource::Uranium => (0, 2, 0),
        TileResource::Fish | TileResource::Wheat | TileResource::Bananas | TileResource::Deer
        | TileResource::Crab => (2, 0, 0),
        TileResource::Whales | TileResource::Turtles => (2, 0, 1),
        TileResource::Citrus => (1, 0, 2),
        TileResource::Cotton | TileResource::Wine | TileResource::Silk | TileResource::Spices
        | TileResource::Gems => (0, 0, 3),
        TileResource::Copper | TileResource::Olives => (0, 1, 2),
        TileResource::Gold => (0, 0, 2),
        TileResource::Marble | TileResource::Ivory => (0, 2, 1),
    }
}

impl TileResource {
    /// The category of this resource.
    pub fn category(&self) -> (r: ResourceCategory)
        ensures
            r == category_of(*self),
    {
        match self {
            TileResource::Cattle
            | TileResource::Sheep
            | TileResource::Fish
            | TileResource::Stone
            | TileResource::Wheat
            | TileResource::Bananas
            | TileResource::Deer => ResourceCategory::Bonus,
            TileResource::Horses
            | TileResource::Iron
            | TileResource::Coal
            | TileResource::Oil
            | TileResource::Aluminum
            | TileResource::Uranium => ResourceCategory::Strategic,
            TileResource::Citrus
            | TileResource::Cotton
            | TileResource::Copper
            | TileResource::Gold
            | TileResource::Crab
            | TileResource::Whales
            | TileResource::Turtles
            | TileResource::Olives
            | TileResource::Wine
            | TileResource::Silk
            | TileResource::Spices
            | TileResource::Gems
            | TileResource::Marble
            | TileResource::Ivory => ResourceCategory::Luxury,
        }
    }

    /// Food bonus before improvement.
    pub fn food_bonus(&self) -> (r: i32)
        ensures
            r == base_bonus(*self).0,
    {
        match self {
            TileResource::Fish
            | TileResource::Wheat
            | TileResource::Bananas
            | TileResource::Deer
            | TileResource::Citrus
            | TileResource::Crab
            | TileResource::Whales
            | TileResource::Turtles => 1,
            _ => 0,
        }
    }

    /// Production bonus before improvement.
    pub fn production_bonus(&self) -> (r: i32)
        ensures
            r == base_bonus(*self).1,
    {
        match self {
            TileResource::Cattle
            | TileResource::Sheep
            | TileResource::Stone
            | TileResource::Horses
            | TileResource::Iron
            | TileResource::Coal
            | TileResource::Oil
            | TileResource::Aluminum
            | TileResource::Uranium
            | TileResource::Olives
            | TileResource::Marble
            | TileResource::Ivory => 1,
            _ => 0,
        }
    }

    /// Gold bonus before improvement.
    pub fn gold_bonus(&self) -> (r: i32)
        ensures
            r == base_bonus(*self).2,
    {
        match self {
            TileResource::Gems => 3,
            TileResource::Cotton
            | TileResource::Copper
            | TileResource::Gold
            | TileResource::Wine
            | TileResource::Silk
            | TileResource::Spices => 2,
            TileResource::Citrus
            | TileResource::Whales
            | TileResource::Turtles
            | TileResource::Olives
            | TileResource::Marble
            | TileResource::Ivory => 1,
            _ => 0,
        }
    }

    /// Food bonus once the matching improvement exists.
    pub fn improved_food_bonus(&self) -> (r: i32)
        ensures
            r == improved_bonus(*self).0,
    {
        match self {
            TileResource::Fish
            | TileResource::Wheat
            | TileResource::Bananas
            | TileResource::Deer
            | TileResource::Crab
            | TileResource::Whales
            | TileResource::Turtles => 2,
            TileResource::Citrus => 1,
            _ => 0,
        }
    }

    /// Production bonus once the matching improvement exists.
    pub fn improved_production_bonus(&self) -> (r: i32)
        ensures
            r == improved_bonus(*self).1,
    {
        match self {
            TileResource::Cattle
            | TileResource::Sheep
            | TileResource::Stone
            | TileResource::Horses
            | TileResource::Iron
            | TileResource::Coal
            | TileResource::Oil
            | TileResource::Aluminum
            | TileResource::Uranium
            | TileResource::Marble
            | TileResource::Ivory => 2,
            TileResource::Copper | TileResource::Olives => 1,
            _ => 0,
        }
    }

    /// Gold bonus once the matching improvement exists.
    pub fn improved_gold_bonus(&self) -> (r: i32)
        ensures
            r == improved_bonus(*self).2,
    {
        match self {
            TileResource::Cotton
            | TileResource::Wine
            | TileResource::Silk
            | TileResource::Spices
            | TileResource::Gems => 3,
            TileResource::Citrus | TileResource::Copper | TileResource::Gold | TileResource::Olives => 2,
            TileResource::Whales | TileResource::Turtles | TileResource::Marble | TileResource::Ivory => 1,
            _ => 0,
        }
    }

    /// True for bonus resources.
    pub fn is_bonus(&self) -> (r: bool)
        ensures
            r == (category_of(*self) is Bonus),
    {
        self.category() == ResourceCategory::Bonus
    }

    /// True for strategic resources.
    pub fn is_strategic(&self) -> (r: bool)
        ensures
            r == (category_of(*self) is Strategic),
    {
        self.category() == ResourceCategory::Strategic
    }

    /// True for luxury resources.
    pub fn is_luxury(&self) -> (r: bool)
        ensures
            r == (category_of(*self) is Luxury),
    {
        self.category() == ResourceCategory::Luxury
    }
}

} // verus!
