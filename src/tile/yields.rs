//! The yield vector of a tile and its derivation from terrain, feature and
//! resource.

use vstd::prelude::*;

use super::feature::{feature_food, feature_gold, feature_production, TileFeature};
use super::resource::{base_bonus, improved_bonus, TileResource};
use super::terrain::{terrain_food, terrain_production, Terrain};

verus! {

/// Combined yield values for a tile.
#[derive(Clone, Copy, PartialEq, Eq, Hash, Debug, Structural)]
pub struct TileYields {
    pub food: i32,
    pub production: i32,
    pub gold: i32,
    pub science: i32,
    pub culture: i32,
    pub faith: i32,
}

/// `v`, or zero where `v` is negative.
pub open spec fn clamp_low(v: int) -> int {
    if v < 0 {
        0
    } else {
        v
    }
}

/// (food, production, gold) of a feature, zero for no feature.
pub open spec fn feature_part(f: Option<TileFeature>) -> (int, int, int) {
    match f {
        Some(x) => (feature_food(x), feature_production(x), feature_gold(x)),
        None => (0, 0, 0),
    }
}

/// (food, production, gold) of a resource, zero for no resource; the
/// improved bonus where `improved` holds.
pub open spec fn resource_part(r: Option<TileResource>, improved: bool) -> (int, int, int) {
    match r {
        Some(x) => if improved {
            improved_bonus(x)
        } else {
            base_bonus(x)
        },
        None => (0, 0, 0),
    }
}

/// The yields of a tile: terrain base plus feature modifier plus resource
/// bonus, each of food, production and gold clamped at zero; science,
/// culture and faith stay zero.
pub open spec fn derived_yields(
    t: Terrain,
    f: Option<TileFeature>,
    r: Option<TileResource>,
    improved: bool,
    y: TileYields,
) -> bool {
    &&& y.food == clamp_low(terrain_food(t) + feature_part(f).0 + resource_part(r, improved).0)
    &&& y.production == clamp_low(
        terrain_production(t) + feature_part(f).1 + resource_part(r, improved).1,
    )
    &&& y.gold == clamp_low(feature_part(f).2 + resource_part(r, improved).2)
    &&& y.science == 0
    &&& y.culture == 0
    &&& y.faith == 0
}

/// Sum of the six channels.
pub open spec fn yield_total(y: TileYields) -> int {
    y.food + y.production + y.gold + y.science + y.culture + y.faith
}

impl Default for TileYields {
    /// All channels zero.
    fn default() -> (r: TileYields)
        ensures
            r == (TileYields { food: 0, production: 0, gold: 0, science: 0, culture: 0, faith: 0 }),
    {
        TileYields::zero()
    }
}

impl TileYields {
    /// All channels zero.
    pub fn zero() -> (r: TileYields)
        ensures
            r == (TileYields { food: 0, production: 0, gold: 0, science: 0, culture: 0, faith: 0 }),
    {
        TileYields { food: 0, production: 0, gold: 0, science: 0, culture: 0, faith: 0 }
    }

    /// Yields with the given food, production and gold; the other channels
    /// zero.
    pub fn new(food: i32, production: i32, gold: i32) -> (r: TileYields)
        ensures
            r == (TileYields { food, production, gold, science: 0, culture: 0, faith: 0 }),
    {
        TileYields { food, production, gold, science: 0, culture: 0, faith: 0 }
    }

    fn combine(
        terrain: Terrain,
        feature: Option<TileFeature>,
        food: i32,
        production: i32,
        gold: i32,
    ) -> (r: TileYields)
        requires
            -8 <= food <= 8,
            -8 <= production <= 8,
            -8 <= gold <= 8,
        ensures
            r.food == clamp_low(terrain_food(terrain) + feature_part(feature).0 + food),
            r.production == clamp_low(
                terrain_production(terrain) + feature_part(feature).1 + production,
            ),
            r.gold == clamp_low(feature_part(feature).2 + gold),
            r.science == 0 && r.culture == 0 && r.faith == 0,
    {
        let mut f = terrain.base_food();
        let mut p = terrain.base_production();
        let mut g = terrain.base_gold();
        if let Some(feat) = feature {
            f = f + feat.food_modifier();
            p = p + feat.production_modifier();
            g = g + feat.gold_modifier();
        }
        f = f + food;
        p = p + production;
        g = g + gold;
        TileYields {
            food: if f < 0 { 0 } else { f },
            production: if p < 0 { 0 } else { p },
            gold: if g < 0 { 0 } else { g },
            science: 0,
            culture: 0,
            faith: 0,
        }
    }

    /// Yields from terrain, optional feature and optional unimproved
    /// resource. The river flag is accepted and does not change the result.
    pub fn calculate(
        terrain: Terrain,
        feature: Option<TileFeature>,
        resource: Option<TileResource>,
        has_river: bool,
    ) -> (r: TileYields)
        ensures
            derived_yields(terrain, feature, resource, false, r),
    {
        match resource {
            Some(res) => Self::combine(
                terrain,
                feature,
                res.food_bonus(),
                res.production_bonus(),
                res.gold_bonus(),
            ),
            None => Self::combine(terrain, feature, 0, 0, 0),
        }
    }

    /// As `calculate`, with the improved bonus of the resource.
    pub fn calculate_improved(
        terrain: Terrain,
        feature: Option<TileFeature>,
        resource: Option<TileResource>,
        has_river: bool,
    ) -> (r: TileYields)
        ensures
            derived_yields(terrain, feature, resource, true, r),
    {
        match resource {
            Some(res) => Self::combine(
                terrain,
                feature,
                res.improved_food_bonus(),
                res.improved_production_bonus(),
                res.improved_gold_bonus(),
            ),
            None => Self::combine(terrain, feature, 0, 0, 0),
        }
    }

    /// Sum of all six yield values.
    pub fn total(&self) -> (r: i32)
        requires
            i32::MIN <= yield_total(*self) <= i32::MAX,
        ensures
            r == yield_total(*self),
    {
        let a = self.food as i64 + self.production as i64 + self.gold as i64;
        let b = self.science as i64 + self.culture as i64 + self.faith as i64;
        (a + b) as i32
    }

    /// True when the six values sum to zero.
    pub fn is_empty(&self) -> (r: bool)
        requires
            i32::MIN <= yield_total(*self) <= i32::MAX,
        ensures
            r == (yield_total(*self) == 0),
    {
        self.total() == 0
    }
}

/// Every derived yield is non-negative in food, production and gold.
pub proof fn lemma_yields_non_negative(
    t: Terrain,
    f: Option<TileFeature>,
    r: Option<TileResource>,
    improved: bool,
    y: TileYields,
)
    requires
        derived_yields(t, f, r, improved, y),
    ensures
        y.food >= 0 && y.production >= 0 && y.gold >= 0,
{
}

/// Channel-wise sum of two yield vectors.
pub open spec fn yield_sum(a: TileYields, b: TileYields) -> TileYields {
    TileYields {
        food: (a.food + b.food) as i32,
        production: (a.production + b.production) as i32,
        gold: (a.gold + b.gold) as i32,
        science: (a.science + b.science) as i32,
        culture: (a.culture + b.culture) as i32,
        faith: (a.faith + b.faith) as i32,
    }
}

/// Each channel of the sum fits in `i32`.
pub open spec fn sum_fits(a: TileYields, b: TileYields) -> bool {
    &&& i32::MIN <= a.food + b.food <= i32::MAX
    &&& i32::MIN <= a.production + b.production <= i32::MAX
    &&& i32::MIN <= a.gold + b.gold <= i32::MAX
    &&& i32::MIN <= a.science + b.science <= i32::MAX
    &&& i32::MIN <= a.culture + b.culture <= i32::MAX
    &&& i32::MIN <= a.faith + b.faith <= i32::MAX
}

impl core::ops::Add for TileYields {
    type Output = TileYields;

    /// Channel-wise sum.
    fn add(self, rhs: TileYields) -> (r: TileYields) {
        TileYields {
            food: self.food + rhs.food,
            production: self.production + rhs.production,
            gold: self.gold + rhs.gold,
            science: self.science + rhs.science,
            culture: self.culture + rhs.culture,
            faith: self.faith + rhs.faith,
        }
    }
}

impl vstd::std_specs::ops::AddSpecImpl for TileYields {
    open spec fn obeys_add_spec() -> bool {
        true
    }

    open spec fn add_req(self, rhs: TileYields) -> bool {
        sum_fits(self, rhs)
    }

    open spec fn add_spec(self, rhs: TileYields) -> TileYields {
        yield_sum(self, rhs)
    }
}

} // verus!
