//! Axial hex coordinates of map tiles, with neighbours, ranges, rings,
//! distances and lines computed by the `hexx` crate.

use vstd::prelude::*;

use hexx::Hex;

verus! {

/// Axial coordinate `(x, y)` of a tile (also written `(q, r)`).
#[derive(Clone, Copy, PartialEq, Eq, Hash, Debug, Structural)]
pub struct TilePosition {
    pub x: i32,
    pub y: i32,
}

/// Bound on coordinates for which neighbour, range, ring and distance
/// arithmetic stays inside `i32`.
pub const COORD_LIMIT: i32 = 268_435_456;

/// Largest radius accepted by `range` and `ring`.
pub const RADIUS_LIMIT: u32 = 37_000;

/// Both coordinates of `p` are within `COORD_LIMIT`.
pub open spec fn bounded(p: TilePosition) -> bool {
    -COORD_LIMIT <= p.x <= COORD_LIMIT && -COORD_LIMIT <= p.y <= COORD_LIMIT
}

/// Absolute value.
pub open spec fn abs(v: int) -> int {
    if v < 0 {
        -v
    } else {
        v
    }
}

/// Hex distance between axial coordinates: the largest of the absolute
/// differences in `x`, in `y` and in `z = -x - y`.
pub open spec fn hex_distance(ax: int, ay: int, bx: int, by: int) -> int {
    let dx = abs(ax - bx);
    let dy = abs(ay - by);
    let dz = abs((ax - bx) + (ay - by));
    if dx >= dy && dx >= dz {
        dx
    } else if dy >= dz {
        dy
    } else {
        dz
    }
}

/// Axial offset of neighbour `k` (0 to 5), in hexx's edge-direction order.
pub open spec fn neighbor_offset(k: int) -> (int, int) {
    if k == 0 {
        (1, 0)
    } else if k == 1 {
        (0, 1)
    } else if k == 2 {
        (-1, 1)
    } else if k == 3 {
        (-1, 0)
    } else if k == 4 {
        (0, -1)
    } else {
        (1, -1)
    }
}

/// Number of hexes within distance `r` of a hex: `3 r (r + 1) + 1`.
pub open spec fn range_size(r: int) -> int {
    3 * r * (r + 1) + 1
}

/// Axial coordinates of a line of hexes from `(ax, ay)` to `(bx, by)`, as
/// hexx computes it.
pub uninterp spec fn hex_line(ax: int, ay: int, bx: int, by: int) -> Seq<(i32, i32)>;

/// Relies on hexx's `Hex::all_neighbors`: the six hexes adjacent to
/// `(x, y)`, in edge-direction order.
#[verifier::external_body]
fn hexx_neighbors(x: i32, y: i32) -> (r: [(i32, i32); 6])
    requires
        -COORD_LIMIT <= x <= COORD_LIMIT && -COORD_LIMIT <= y <= COORD_LIMIT,
    ensures
        forall|k: int|
            0 <= k < 6 ==> #[trigger] r@[k] == ((x + neighbor_offset(k).0) as i32, (y
                + neighbor_offset(k).1) as i32),
{
    Hex::new(x, y).all_neighbors().map(|h| (h.x, h.y))
}

/// Relies on hexx's `Hex::unsigned_distance_to`: the hex distance between
/// two coordinates.
#[verifier::external_body]
fn hexx_distance(ax: i32, ay: i32, bx: i32, by: i32) -> (r: u32)
    requires
        -COORD_LIMIT <= ax <= COORD_LIMIT && -COORD_LIMIT <= ay <= COORD_LIMIT,
        -COORD_LIMIT <= bx <= COORD_LIMIT && -COORD_LIMIT <= by <= COORD_LIMIT,
    ensures
        r == hex_distance(ax as int, ay as int, bx as int, by as int),
{
    Hex::new(ax, ay).unsigned_distance_to(Hex::new(bx, by))
}

/// Relies on hexx's `Hex::range`: the `3 r (r + 1) + 1` hexes within
/// distance `radius` of `(x, y)`, each once.
#[verifier::external_body]
fn hexx_range(x: i32, y: i32, radius: u32) -> (r: Vec<(i32, i32)>)
    requires
        -COORD_LIMIT <= x <= COORD_LIMIT && -COORD_LIMIT <= y <= COORD_LIMIT,
        radius <= RADIUS_LIMIT,
    ensures
        r@.len() == range_size(radius as int),
        r@.no_duplicates(),
        forall|i: int|
            0 <= i < r@.len() ==> hex_distance(
                (#[trigger] r@[i]).0 as int,
                r@[i].1 as int,
                x as int,
                y as int,
            ) <= radius,
{
    Hex::new(x, y).range(radius).map(|h| (h.x, h.y)).collect()
}

/// Relies on hexx's `Hex::ring`: the hexes at distance exactly `radius`
/// from `(x, y)`, `6 radius` distinct ones, or `(x, y)` alone for radius
/// zero.
#[verifier::external_body]
fn hexx_ring(x: i32, y: i32, radius: u32) -> (r: Vec<(i32, i32)>)
    requires
        -COORD_LIMIT <= x <= COORD_LIMIT && -COORD_LIMIT <= y <= COORD_LIMIT,
        radius <= RADIUS_LIMIT,
    ensures
        r@.len() == (if radius == 0 {
            1
        } else {
            6 * radius
        }),
        r@.no_duplicates(),
        forall|i: int|
            0 <= i < r@.len() ==> hex_distance(
                (#[trigger] r@[i]).0 as int,
                r@[i].1 as int,
                x as int,
                y as int,
            ) == radius,
{
    Hex::new(x, y).ring(radius).map(|h| (h.x, h.y)).collect()
}

/// Relies on hexx's `Hex::line_to`: the hexes of a line between two
/// coordinates, one more than their distance.
#[verifier::external_body]
fn hexx_line(ax: i32, ay: i32, bx: i32, by: i32) -> (r: Vec<(i32, i32)>)
    requires
        -COORD_LIMIT <= ax <= COORD_LIMIT && -COORD_LIMIT <= ay <= COORD_LIMIT,
        -COORD_LIMIT <= bx <= COORD_LIMIT && -COORD_LIMIT <= by <= COORD_LIMIT,
    ensures
        r@ == hex_line(ax as int, ay as int, bx as int, by as int),
        r@.len() == hex_distance(ax as int, ay as int, bx as int, by as int) + 1,
{
    Hex::new(ax, ay).line_to(Hex::new(bx, by)).map(|h| (h.x, h.y)).collect()
}

/// The positions of a list of coordinate pairs.
fn positions_of(v: &Vec<(i32, i32)>) -> (r: Vec<TilePosition>)
    ensures
        r@.len() == v@.len(),
        forall|i: int|
            0 <= i < v@.len() ==> #[trigger] r@[i] == (TilePosition { x: v@[i].0, y: v@[i].1 }),
        v@.no_duplicates() ==> r@.no_duplicates(),
{
    let mut out: Vec<TilePosition> = Vec::new();
    for i in 0..v.len()
        invariant
            out@.len() == i,
            forall|k: int|
                0 <= k < i ==> #[trigger] out@[k] == (TilePosition { x: v@[k].0, y: v@[k].1 }),
    {
        let (x, y) = v[i];
        out.push(TilePosition { x, y });
    }
    assert(v@.no_duplicates() ==> out@.no_duplicates()) by {
        if v@.no_duplicates() {
            assert forall|i: int, j: int| 0 <= i < out@.len() && 0 <= j < out@.len() && i != j
                implies out@[i] != out@[j] by {
                assert(v@[i] != v@[j]);
            }
        }
    }
    out
}

impl Default for TilePosition {
    /// The origin.
    fn default() -> (r: TilePosition)
        ensures
            r == (TilePosition { x: 0, y: 0 }),
    {
        TilePosition { x: 0, y: 0 }
    }
}

impl TilePosition {
    /// The origin `(0, 0)`.
    pub fn origin() -> (p: TilePosition)
        ensures
            p == (TilePosition { x: 0, y: 0 }),
    {
        TilePosition { x: 0, y: 0 }
    }

    /// The position with axial coordinates `(q, r)`.
    pub fn new(q: i32, r: i32) -> (p: TilePosition)
        ensures
            p == (TilePosition { x: q, y: r }),
    {
        TilePosition { x: q, y: r }
    }

    /// The six adjacent positions, in edge-direction order.
    pub fn neighbors(&self) -> (r: [TilePosition; 6])
        requires
            bounded(*self),
        ensures
            forall|k: int|
                0 <= k < 6 ==> #[trigger] r@[k] == (TilePosition {
                    x: (self.x + neighbor_offset(k).0) as i32,
                    y: (self.y + neighbor_offset(k).1) as i32,
                }),
    {
        let n = hexx_neighbors(self.x, self.y);
        let r = [
            TilePosition { x: n[0].0, y: n[0].1 },
            TilePosition { x: n[1].0, y: n[1].1 },
            TilePosition { x: n[2].0, y: n[2].1 },
            TilePosition { x: n[3].0, y: n[3].1 },
            TilePosition { x: n[4].0, y: n[4].1 },
            TilePosition { x: n[5].0, y: n[5].1 },
        ];
        assert forall|k: int| 0 <= k < 6 implies #[trigger] r@[k] == (TilePosition {
            x: (self.x + neighbor_offset(k).0) as i32,
            y: (self.y + neighbor_offset(k).1) as i32,
        }) by {
            assert(n@[k] == ((self.x + neighbor_offset(k).0) as i32, (self.y
                + neighbor_offset(k).1) as i32));
        }
        r
    }

    /// The positions within distance `radius`, this one included.
    pub fn range(&self, radius: u32) -> (r: Vec<TilePosition>)
        requires
            bounded(*self),
            radius <= RADIUS_LIMIT,
        ensures
            r@.len() == range_size(radius as int),
            r@.no_duplicates(),
        r@.no_duplicates(),
            forall|i: int|
                0 <= i < r@.len() ==> hex_distance(
                    (#[trigger] r@[i]).x as int,
                    r@[i].y as int,
                    self.x as int,
                    self.y as int,
                ) <= radius,
    {
        let v = hexx_range(self.x, self.y, radius);
        positions_of(&v)
    }

    /// The positions at distance exactly `radius`: `6 radius` of them, or
    /// this one alone for radius zero.
    pub fn ring(&self, radius: u32) -> (r: Vec<TilePosition>)
        requires
            bounded(*self),
            radius <= RADIUS_LIMIT,
        ensures
            r@.len() == (if radius == 0 {
                1
            } else {
                6 * radius
            }),
            r@.no_duplicates(),
            forall|i: int|
                0 <= i < r@.len() ==> hex_distance(
                    (#[trigger] r@[i]).x as int,
                    r@[i].y as int,
                    self.x as int,
                    self.y as int,
                ) == radius,
    {
        let v = hexx_ring(self.x, self.y, radius);
        positions_of(&v)
    }

    /// The hex distance to `other`.
    pub fn distance_to(&self, other: TilePosition) -> (r: u32)
        requires
            bounded(*self),
            bounded(other),
        ensures
            r == hex_distance(self.x as int, self.y as int, other.x as int, other.y as int),
    {
        hexx_distance(self.x, self.y, other.x, other.y)
    }

    /// The positions of a line to `other`, one more than the distance.
    pub fn line_to(&self, other: TilePosition) -> (r: Vec<TilePosition>)
        requires
            bounded(*self),
            bounded(other),
        ensures
            r@.len() == hex_distance(self.x as int, self.y as int, other.x as int, other.y as int)
                + 1,
            forall|i: int|
                0 <= i < r@.len() ==> #[trigger] r@[i] == (TilePosition {
                    x: hex_line(self.x as int, self.y as int, other.x as int, other.y as int)[i].0,
                    y: hex_line(self.x as int, self.y as int, other.x as int, other.y as int)[i].1,
                }),
    {
        let v = hexx_line(self.x, self.y, other.x, other.y);
        positions_of(&v)
    }
}

/// The sum of two positions fits in `i32`.
pub open spec fn position_sum_fits(a: TilePosition, b: TilePosition) -> bool {
    i32::MIN <= a.x + b.x <= i32::MAX && i32::MIN <= a.y + b.y <= i32::MAX
}

/// The difference of two positions fits in `i32`.
pub open spec fn position_difference_fits(a: TilePosition, b: TilePosition) -> bool {
    i32::MIN <= a.x - b.x <= i32::MAX && i32::MIN <= a.y - b.y <= i32::MAX
}

impl core::ops::Add for TilePosition {
    type Output = TilePosition;

    /// Coordinate-wise sum.
    fn add(self, rhs: TilePosition) -> (r: TilePosition) {
        TilePosition { x: self.x + rhs.x, y: self.y + rhs.y }
    }
}

impl vstd::std_specs::ops::AddSpecImpl for TilePosition {
    open spec fn obeys_add_spec() -> bool {
        true
    }

    open spec fn add_req(self, rhs: TilePosition) -> bool {
        position_sum_fits(self, rhs)
    }

    open spec fn add_spec(self, rhs: TilePosition) -> TilePosition {
        TilePosition { x: (self.x + rhs.x) as i32, y: (self.y + rhs.y) as i32 }
    }
}

impl core::ops::Sub for TilePosition {
    type Output = TilePosition;

    /// Coordinate-wise difference.
    fn sub(self, rhs: TilePosition) -> (r: TilePosition) {
        TilePosition { x: self.x - rhs.x, y: self.y - rhs.y }
    }
}

impl vstd::std_specs::ops::SubSpecImpl for TilePosition {
    open spec fn obeys_sub_spec() -> bool {
        true
    }

    open spec fn sub_req(self, rhs: TilePosition) -> bool {
        position_difference_fits(self, rhs)
    }

    open spec fn sub_spec(self, rhs: TilePosition) -> TilePosition {
        TilePosition { x: (self.x - rhs.x) as i32, y: (self.y - rhs.y) as i32 }
    }
}

impl From<(i32, i32)> for TilePosition {
    /// The position `(q, r)`.
    fn from(p: (i32, i32)) -> (r: TilePosition) {
        TilePosition { x: p.0, y: p.1 }
    }
}

impl vstd::std_specs::convert::FromSpecImpl<(i32, i32)> for TilePosition {
    open spec fn obeys_from_spec() -> bool {
        true
    }

    open spec fn from_spec(p: (i32, i32)) -> TilePosition {
        TilePosition { x: p.0, y: p.1 }
    }
}

} // verus!
