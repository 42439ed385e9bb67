//! Scalar fields over the grid, in fixed point: min-max normalization, edge
//! falloff and the latitude profile of temperature.
//!
//! A field is indexed `[x][y]`: one row per column `x` of the map.

use vstd::prelude::*;

use super::config::UNIT;

verus! {

/// The value of cell `(i, j)`.
pub open spec fn cell(g: Seq<Vec<i64>>, i: int, j: int) -> int {
    g[i]@[j] as int
}

/// `(i, j)` is a cell of `g`.
pub open spec fn in_grid(g: Seq<Vec<i64>>, i: int, j: int) -> bool {
    0 <= i < g.len() && 0 <= j < g[i]@.len()
}

/// `g` has `w` rows of `h` cells each.
pub open spec fn grid_shape(g: Seq<Vec<i64>>, w: int, h: int) -> bool {
    g.len() == w && forall|i: int| 0 <= i < w ==> #[trigger] g[i]@.len() == h
}

/// `a` and `b` have the same rows with the same lengths.
pub open spec fn same_shape(a: Seq<Vec<i64>>, b: Seq<Vec<i64>>) -> bool {
    a.len() == b.len() && forall|i: int| 0 <= i < a.len() ==> #[trigger] a[i]@.len() == b[i]@.len()
}

/// `g` has at least one cell.
pub open spec fn has_cells(g: Seq<Vec<i64>>) -> bool {
    exists|i: int, j: int| in_grid(g, i, j)
}

/// `v` is the least value of `g`.
pub open spec fn lowest(g: Seq<Vec<i64>>, v: int) -> bool {
    &&& forall|i: int, j: int| in_grid(g, i, j) ==> v <= #[trigger] cell(g, i, j)
    &&& exists|i: int, j: int| in_grid(g, i, j) && cell(g, i, j) == v
}

/// `v` is the greatest value of `g`.
pub open spec fn highest(g: Seq<Vec<i64>>, v: int) -> bool {
    &&& forall|i: int, j: int| in_grid(g, i, j) ==> #[trigger] cell(g, i, j) <= v
    &&& exists|i: int, j: int| in_grid(g, i, j) && cell(g, i, j) == v
}

/// The least value of a grid with cells.
pub open spec fn grid_min(g: Seq<Vec<i64>>) -> int {
    choose|v: int| lowest(g, v)
}

/// The greatest value of a grid with cells.
pub open spec fn grid_max(g: Seq<Vec<i64>>) -> int {
    choose|v: int| highest(g, v)
}

/// `v` rescaled from `[lo, hi]` to `[0, UNIT]`, rounded down.
pub open spec fn rescaled(v: int, lo: int, hi: int) -> int {
    (v - lo) * UNIT / (hi - lo)
}

/// `after` is the min-max normalization of `before`: where the values span
/// a range, every cell is rescaled from `[min, max]` to `[0, UNIT]`; where
/// all values are equal (or there are none) every cell is kept.
pub open spec fn normalization_of(before: Seq<Vec<i64>>, after: Seq<Vec<i64>>) -> bool {
    &&& same_shape(before, after)
    &&& if has_cells(before) && grid_min(before) < grid_max(before) {
        forall|i: int, j: int|
            in_grid(before, i, j) ==> #[trigger] cell(after, i, j) == rescaled(
                cell(before, i, j),
                grid_min(before),
                grid_max(before),
            )
    } else {
        forall|i: int, j: int| in_grid(before, i, j) ==> #[trigger] cell(after, i, j) == cell(before, i, j)
    }
}

proof fn lemma_lowest_unique(g: Seq<Vec<i64>>, v: int)
    requires
        lowest(g, v),
    ensures
        grid_min(g) == v,
{
    let m = grid_min(g);
    assert(lowest(g, m));
    let (i, j) = choose|i: int, j: int| in_grid(g, i, j) && cell(g, i, j) == v;
    let (k, l) = choose|k: int, l: int| in_grid(g, k, l) && cell(g, k, l) == m;
    assert(m <= cell(g, i, j));
    assert(v <= cell(g, k, l));
}

proof fn lemma_highest_unique(g: Seq<Vec<i64>>, v: int)
    requires
        highest(g, v),
    ensures
        grid_max(g) == v,
{
    let m = grid_max(g);
    assert(highest(g, m));
    let (i, j) = choose|i: int, j: int| in_grid(g, i, j) && cell(g, i, j) == v;
    let (k, l) = choose|k: int, l: int| in_grid(g, k, l) && cell(g, k, l) == m;
    assert(cell(g, i, j) <= m);
    assert(cell(g, k, l) <= v);
}

/// Cell `(a, b)` comes before position `(i, j)` in row-major order.
pub open spec fn visited(a: int, b: int, i: int, j: int) -> bool {
    a < i || (a == i && b < j)
}

/// The least and greatest value of a grid, or `None` where it has no cells.
pub fn grid_extremes(g: &Vec<Vec<i64>>) -> (r: Option<(i64, i64)>)
    ensures
        r is None <==> !has_cells(g@),
        r matches Some(p) ==> lowest(g@, p.0 as int) && highest(g@, p.1 as int),
{
    let mut lo: i64 = 0;
    let mut hi: i64 = 0;
    let mut found = false;
    let n = g.len();
    for i in 0..n
        invariant
            n == g@.len(),
            !found ==> forall|a: int, b: int| in_grid(g@, a, b) ==> !visited(a, b, i as int, 0),
            found ==> forall|a: int, b: int|
                in_grid(g@, a, b) && visited(a, b, i as int, 0) ==> lo <= #[trigger] cell(g@, a, b)
                    <= hi,
            found ==> exists|a: int, b: int|
                in_grid(g@, a, b) && visited(a, b, i as int, 0) && cell(g@, a, b) == lo,
            found ==> exists|a: int, b: int|
                in_grid(g@, a, b) && visited(a, b, i as int, 0) && cell(g@, a, b) == hi,
    {
        let row = &g[i];
        let m = row.len();
        for j in 0..m
            invariant
                n == g@.len(),
                0 <= i < n,
                row@ == g@[i as int]@,
                m == row@.len(),
                !found ==> forall|a: int, b: int|
                    in_grid(g@, a, b) ==> !visited(a, b, i as int, j as int),
                found ==> forall|a: int, b: int|
                    in_grid(g@, a, b) && visited(a, b, i as int, j as int) ==> lo <= #[trigger] cell(
                        g@,
                        a,
                        b,
                    ) <= hi,
                found ==> exists|a: int, b: int|
                    in_grid(g@, a, b) && visited(a, b, i as int, j as int) && cell(g@, a, b) == lo,
                found ==> exists|a: int, b: int|
                    in_grid(g@, a, b) && visited(a, b, i as int, j as int) && cell(g@, a, b) == hi,
        {
            let v = row[j];
            assert(in_grid(g@, i as int, j as int) && cell(g@, i as int, j as int) == v);
            if !found {
                lo = v;
                hi = v;
                found = true;
            } else {
                if v < lo {
                    lo = v;
                }
                if v > hi {
                    hi = v;
                }
            }
        }
        assert forall|a: int, b: int| in_grid(g@, a, b) && visited(a, b, i as int, m as int)
            implies visited(a, b, i + 1, 0) by {}
        assert forall|a: int, b: int| in_grid(g@, a, b) && visited(a, b, i + 1, 0)
            implies visited(a, b, i as int, m as int) by {}
    }
    if found {
        Some((lo, hi))
    } else {
        assert forall|a: int, b: int| !in_grid(g@, a, b) by {
            if in_grid(g@, a, b) {
                assert(visited(a, b, n as int, 0));
            }
        }
        None
    }
}

/// A value between the bounds rescales into `[0, UNIT]`.
pub proof fn lemma_rescaled_range(v: int, lo: int, hi: int)
    requires
        lo <= v <= hi,
        lo < hi,
    ensures
        0 <= rescaled(v, lo, hi) <= UNIT,
{
    let d = hi - lo;
    assert(0 <= (v - lo) * UNIT <= d * UNIT) by (nonlinear_arith)
        requires
            0 <= v - lo <= d,
    ;
    vstd::arithmetic::div_mod::lemma_div_is_ordered(0, (v - lo) * UNIT, d);
    vstd::arithmetic::div_mod::lemma_div_is_ordered((v - lo) * UNIT, d * UNIT, d);
    vstd::arithmetic::div_mod::lemma_div_by_multiple(UNIT as int, d);
    assert(d * UNIT == UNIT * d) by (nonlinear_arith);
}

spec fn kept_or_rescaled(v: int, lo: int, hi: int, spread: bool) -> int {
    if spread {
        rescaled(v, lo, hi)
    } else {
        v
    }
}

/// The min-max normalization of `g`.
pub fn normalized(g: &Vec<Vec<i64>>) -> (r: Vec<Vec<i64>>)
    ensures
        normalization_of(g@, r@),
{
    let ext = grid_extremes(g);
    let (lo, hi, spread) = match ext {
        Some((lo, hi)) => (lo, hi, lo < hi),
        None => (0, 0, false),
    };
    proof {
        if let Some(p) = ext {
            lemma_lowest_unique(g@, p.0 as int);
            lemma_highest_unique(g@, p.1 as int);
        }
    }
    let n = g.len();
    let mut out: Vec<Vec<i64>> = Vec::new();
    for i in 0..n
        invariant
            n == g@.len(),
            out@.len() == i,
            spread ==> has_cells(g@) && lo == grid_min(g@) && hi == grid_max(g@) && lo < hi,
            spread ==> lowest(g@, lo as int) && highest(g@, hi as int),
            !spread ==> !(has_cells(g@) && grid_min(g@) < grid_max(g@)),
            forall|a: int| 0 <= a < i ==> #[trigger] out@[a]@.len() == g@[a]@.len(),
            forall|a: int, b: int|
                0 <= a < i && in_grid(g@, a, b) ==> #[trigger] cell(out@, a, b) == kept_or_rescaled(cell(g@, a, b), lo as int, hi as int, spread),
    {
        let row = &g[i];
        let m = row.len();
        let mut new_row: Vec<i64> = Vec::new();
        for j in 0..m
            invariant
                n == g@.len(),
                0 <= i < n,
                row@ == g@[i as int]@,
                m == row@.len(),
                new_row@.len() == j,
                spread ==> has_cells(g@) && lo == grid_min(g@) && hi == grid_max(g@) && lo < hi,
                spread ==> lowest(g@, lo as int) && highest(g@, hi as int),
                forall|b: int| 0 <= b < j ==> #[trigger] new_row@[b] == kept_or_rescaled(row@[b] as int, lo as int, hi as int, spread),
        {
            let v = row[j];
            if spread {
                assert(in_grid(g@, i as int, j as int));
                assert(lo <= cell(g@, i as int, j as int) <= hi);
                proof {
                    lemma_rescaled_range(v as int, lo as int, hi as int);
                }
                let num: i128 = (v as i128 - lo as i128) * (UNIT as i128);
                let den: i128 = hi as i128 - lo as i128;
                let q: i128 = num / den;
                new_row.push(q as i64);
            } else {
                new_row.push(v);
            }
        }
        let ghost prev = out@;
        out.push(new_row);
        assert forall|a: int, b: int|
            0 <= a < i + 1 && in_grid(g@, a, b) implies #[trigger] cell(out@, a, b) == kept_or_rescaled(cell(g@, a, b), lo as int, hi as int, spread) by {
            if a < i {
                assert(out@[a] == prev[a]);
                assert(cell(out@, a, b) == cell(prev, a, b));
            } else {
                assert(out@[a]@[b] == new_row@[b]);
            }
        }
    }
    out
}

/// `r` is the integer square root of `n`, rounded down.
pub open spec fn is_floor_sqrt(n: int, r: int) -> bool {
    0 <= r && r * r <= n < (r + 1) * (r + 1)
}

/// The integer square root of a non-negative `n`, rounded down.
pub open spec fn floor_sqrt(n: int) -> int {
    choose|r: int| is_floor_sqrt(n, r)
}

proof fn lemma_floor_sqrt_unique(n: int, r: int)
    requires
        is_floor_sqrt(n, r),
    ensures
        floor_sqrt(n) == r,
{
    let s = floor_sqrt(n);
    assert(is_floor_sqrt(n, s));
    if s < r {
        assert((s + 1) * (s + 1) <= r * r) by (nonlinear_arith)
            requires
                0 <= s + 1 <= r,
        ;
    }
    if r < s {
        assert((r + 1) * (r + 1) <= s * s) by (nonlinear_arith)
            requires
                0 <= r + 1 <= s,
        ;
    }
}

fn sqrt_down(n: u64) -> (r: u64)
    requires
        n <= 3_000_000_000_000,
    ensures
        r == floor_sqrt(n as int),
{
    let mut lo: u64 = 0;
    let mut hi: u64 = 2_000_000;
    assert(n < hi * hi);
    while lo + 1 < hi
        invariant
            lo < hi <= 2_000_000,
            lo * lo <= n < hi * hi,
        decreases hi - lo,
    {
        let mid: u64 = lo + (hi - lo) / 2;
        assert(mid * mid <= 2_000_000 * 2_000_000) by (nonlinear_arith)
            requires
                mid <= 2_000_000,
        ;
        if mid * mid <= n {
            lo = mid;
        } else {
            hi = mid;
        }
    }
    proof {
        lemma_floor_sqrt_unique(n as int, lo as int);
    }
    lo
}

/// Distance of coordinate `c` from the middle of `0..n`, relative to half
/// the extent: `|c / n - 0.5| * 2`, in units of `UNIT`, rounded down.
pub open spec fn axis_offset(c: int, n: int) -> int {
    let d = 2 * c - n;
    (if d < 0 {
        -d
    } else {
        d
    }) * UNIT / n
}

/// Edge falloff of cell `(x, y)` on a `w` by `h` grid:
/// `1 - min(1, sqrt(ex^2 + ey^2))` with `ex`, `ey` the axis offsets.
pub open spec fn falloff_at(x: int, y: int, w: int, h: int) -> int {
    let ex = axis_offset(x, w);
    let ey = axis_offset(y, h);
    let d = floor_sqrt(ex * ex + ey * ey);
    UNIT - (if d < UNIT {
        d
    } else {
        UNIT as int
    })
}

/// `p / d` rounded toward zero.
pub open spec fn trunc_div(p: int, d: int) -> int {
    if p >= 0 {
        p / d
    } else {
        -((-p) / d)
    }
}

fn offset(c: i32, n: i32) -> (r: u64)
    requires
        0 <= c < n,
    ensures
        r == axis_offset(c as int, n as int),
        r <= UNIT,
{
    let d: i64 = 2 * (c as i64) - (n as i64);
    let a: i64 = if d < 0 {
        -d
    } else {
        d
    };
    assert(a * UNIT <= n * UNIT) by (nonlinear_arith)
        requires
            0 <= a <= n,
    ;
    proof {
        vstd::arithmetic::div_mod::lemma_div_is_ordered(a * UNIT, n * UNIT, n as int);
        vstd::arithmetic::div_mod::lemma_div_by_multiple(UNIT as int, n as int);
        assert(n * UNIT == UNIT * n) by (nonlinear_arith);
        assert(0 <= a * UNIT) by (nonlinear_arith)
            requires
                0 <= a,
        ;
        vstd::arithmetic::div_mod::lemma_div_is_ordered(0, a * UNIT, n as int);
    }
    ((a * UNIT) / (n as i64)) as u64
}

/// The edge falloff of cell `(x, y)` on a `w` by `h` grid.
pub fn edge_falloff(x: i32, y: i32, w: i32, h: i32) -> (r: i64)
    requires
        0 <= x < w,
        0 <= y < h,
    ensures
        r == falloff_at(x as int, y as int, w as int, h as int),
        0 <= r <= UNIT,
{
    let ex = offset(x, w);
    let ey = offset(y, h);
    assert(ex * ex <= UNIT * UNIT && ey * ey <= UNIT * UNIT) by (nonlinear_arith)
        requires
            ex <= UNIT,
            ey <= UNIT,
    ;
    let d = sqrt_down(ex * ex + ey * ey);
    let m: u64 = if d < UNIT as u64 {
        d
    } else {
        UNIT as u64
    };
    UNIT - (m as i64)
}

/// A raw sample scaled by the edge falloff of its cell.
pub open spec fn shaped_cell(noise: Seq<Vec<i64>>, x: int, y: int, w: int, h: int) -> int {
    trunc_div(cell(noise, x, y) * falloff_at(x, y, w, h), UNIT as int)
}

/// Every sample of a `w` by `h` grid scaled by the edge falloff of its cell.
pub fn apply_edge_falloff(noise: &Vec<Vec<i64>>, w: i32, h: i32) -> (r: Vec<Vec<i64>>)
    requires
        0 < w && 0 < h,
        grid_shape(noise@, w as int, h as int),
    ensures
        grid_shape(r@, w as int, h as int),
        forall|x: int, y: int|
            0 <= x < w && 0 <= y < h ==> #[trigger] cell(r@, x, y) == shaped_cell(
                noise@,
                x,
                y,
                w as int,
                h as int,
            ),
{
    let mut out: Vec<Vec<i64>> = Vec::new();
    for x in 0..w
        invariant
            0 < w && 0 < h,
            grid_shape(noise@, w as int, h as int),
            out@.len() == x,
            forall|a: int| 0 <= a < x ==> #[trigger] out@[a]@.len() == h,
            forall|a: int, b: int|
                0 <= a < x && 0 <= b < h ==> #[trigger] cell(out@, a, b) == shaped_cell(
                    noise@,
                    a,
                    b,
                    w as int,
                    h as int,
                ),
    {
        let row = &noise[x as usize];
        assert(row@.len() == h);
        let mut new_row: Vec<i64> = Vec::new();
        for y in 0..h
            invariant
                0 <= x < w && 0 < h,
                grid_shape(noise@, w as int, h as int),
                row@ == noise@[x as int]@,
                row@.len() == h,
                new_row@.len() == y,
                forall|b: int| 0 <= b < y ==> #[trigger] new_row@[b] == shaped_cell(
                    noise@,
                    x as int,
                    b,
                    w as int,
                    h as int,
                ),
        {
            let f = edge_falloff(x, y, w, h);
            let v = row[y as usize];
            assert(-0x8000_0000_0000_0000 * UNIT <= v * f <= 0x7fff_ffff_ffff_ffff * UNIT)
                by (nonlinear_arith)
                requires
                    0 <= f <= UNIT,
                    -0x8000_0000_0000_0000 <= v <= 0x7fff_ffff_ffff_ffff,
            ;
            let p: i128 = (v as i128) * (f as i128);
            let u: i128 = UNIT as i128;
            let q: i128 = if p >= 0 {
                p / u
            } else {
                -((-p) / u)
            };
            assert(-0x8000_0000_0000_0000 <= q <= 0x7fff_ffff_ffff_ffff) by {
                if p >= 0 {
                    vstd::arithmetic::div_mod::lemma_div_is_ordered(
                        p as int,
                        0x7fff_ffff_ffff_ffff * UNIT,
                        UNIT as int,
                    );
                    vstd::arithmetic::div_mod::lemma_div_by_multiple(
                        0x7fff_ffff_ffff_ffff,
                        UNIT as int,
                    );
                    vstd::arithmetic::div_mod::lemma_div_is_ordered(0, p as int, UNIT as int);
                } else {
                    vstd::arithmetic::div_mod::lemma_div_is_ordered(
                        -p,
                        0x8000_0000_0000_0000 * UNIT,
                        UNIT as int,
                    );
                    vstd::arithmetic::div_mod::lemma_div_by_multiple(
                        0x8000_0000_0000_0000,
                        UNIT as int,
                    );
                    vstd::arithmetic::div_mod::lemma_div_is_ordered(0, -p, UNIT as int);
                }
            }
            new_row.push(q as i64);
        }
        let ghost prev = out@;
        out.push(new_row);
        assert forall|a: int, b: int|
            0 <= a < x + 1 && 0 <= b < h implies #[trigger] cell(out@, a, b) == shaped_cell(
                noise@,
                a,
                b,
                w as int,
                h as int,
            ) by {
            if a < x {
                assert(out@[a] == prev[a]);
                assert(cell(out@, a, b) == cell(prev, a, b));
            } else {
                assert(out@[a]@[b] == new_row@[b]);
            }
        }
    }
    out
}

/// Temperature from latitude alone: `UNIT` on the middle row, falling
/// linearly to zero at the top and bottom edges.
pub open spec fn latitude_base(y: int, h: int) -> int {
    UNIT - axis_offset(y, h)
}

/// `v` clamped into `[lo, hi]`.
pub open spec fn clamped(v: int, lo: int, hi: int) -> int {
    if v < lo {
        lo
    } else if v > hi {
        hi
    } else {
        v
    }
}

/// Temperature of cell `(x, y)`: the latitude base plus a fifth of the raw
/// sample, clamped into `[0, UNIT]`.
pub open spec fn temperature_cell(noise: Seq<Vec<i64>>, x: int, y: int, h: int) -> int {
    clamped(5 * latitude_base(y, h) + cell(noise, x, y), 0, 5 * UNIT) / 5
}

/// The temperature field of a `w` by `h` grid from its raw samples.
pub fn temperature_field(noise: &Vec<Vec<i64>>, w: i32, h: i32) -> (r: Vec<Vec<i64>>)
    requires
        0 < w && 0 < h,
        grid_shape(noise@, w as int, h as int),
    ensures
        grid_shape(r@, w as int, h as int),
        forall|x: int, y: int|
            0 <= x < w && 0 <= y < h ==> #[trigger] cell(r@, x, y) == temperature_cell(
                noise@,
                x,
                y,
                h as int,
            ) && 0 <= cell(r@, x, y) <= UNIT,
{
    let mut out: Vec<Vec<i64>> = Vec::new();
    for x in 0..w
        invariant
            0 < w && 0 < h,
            grid_shape(noise@, w as int, h as int),
            out@.len() == x,
            forall|a: int| 0 <= a < x ==> #[trigger] out@[a]@.len() == h,
            forall|a: int, b: int|
                0 <= a < x && 0 <= b < h ==> #[trigger] cell(out@, a, b) == temperature_cell(
                    noise@,
                    a,
                    b,
                    h as int,
                ) && 0 <= cell(out@, a, b) <= UNIT,
    {
        let row = &noise[x as usize];
        assert(row@.len() == h);
        let mut new_row: Vec<i64> = Vec::new();
        for y in 0..h
            invariant
                0 <= x < w && 0 < h,
                grid_shape(noise@, w as int, h as int),
                row@ == noise@[x as int]@,
                row@.len() == h,
                new_row@.len() == y,
                forall|b: int|
                    0 <= b < y ==> #[trigger] new_row@[b] == temperature_cell(
                        noise@,
                        x as int,
                        b,
                        h as int,
                    ) && 0 <= new_row@[b] <= UNIT,
        {
            let base: i64 = UNIT - (offset(y, h) as i64);
            let t: i128 = 5 * (base as i128) + (row[y as usize] as i128);
            let c: i128 = if t < 0 {
                0
            } else if t > 5 * (UNIT as i128) {
                5 * (UNIT as i128)
            } else {
                t
            };
            let v: i128 = c / 5;
            new_row.push(v as i64);
        }
        let ghost prev = out@;
        out.push(new_row);
        assert forall|a: int, b: int|
            0 <= a < x + 1 && 0 <= b < h implies #[trigger] cell(out@, a, b) == temperature_cell(
                noise@,
                a,
                b,
                h as int,
            ) && 0 <= cell(out@, a, b) <= UNIT by {
            if a < x {
                assert(out@[a] == prev[a]);
                assert(cell(out@, a, b) == cell(prev, a, b));
            } else {
                assert(out@[a]@[b] == new_row@[b]);
            }
        }
    }
    out
}

spec fn row_low(s: Seq<i64>, k: int) -> bool {
    0 <= k < s.len() && forall|j: int| 0 <= j < s.len() ==> s[k] <= #[trigger] s[j]
}

spec fn row_high(s: Seq<i64>, k: int) -> bool {
    0 <= k < s.len() && forall|j: int| 0 <= j < s.len() ==> #[trigger] s[j] <= s[k]
}

proof fn lemma_row_extremes(s: Seq<i64>)
    requires
        s.len() > 0,
    ensures
        exists|k: int| row_low(s, k),
        exists|k: int| row_high(s, k),
    decreases s.len(),
{
    if s.len() == 1 {
        assert(row_low(s, 0));
        assert(row_high(s, 0));
    } else {
        let t = s.drop_last();
        lemma_row_extremes(t);
        let a = choose|k: int| row_low(t, k);
        let b = choose|k: int| row_high(t, k);
        let n = s.len() - 1;
        let lo = if s[n] < s[a] { n } else { a };
        let hi = if s[n] > s[b] { n } else { b };
        assert forall|j: int| 0 <= j < s.len() implies s[lo] <= #[trigger] s[j] by {
            if j < n {
                assert(t[j] == s[j]);
            }
        }
        assert forall|j: int| 0 <= j < s.len() implies #[trigger] s[j] <= s[hi] by {
            if j < n {
                assert(t[j] == s[j]);
            }
        }
        assert(row_low(s, lo));
        assert(row_high(s, hi));
    }
}

proof fn lemma_grid_extremes_exist(g: Seq<Vec<i64>>)
    requires
        has_cells(g),
    ensures
        exists|v: int| lowest(g, v),
        exists|v: int| highest(g, v),
    decreases g.len(),
{
    let n = g.len() - 1;
    let t = g.drop_last();
    let last = g[n]@;
    assert forall|a: int, b: int| in_grid(t, a, b) implies in_grid(g, a, b) && cell(t, a, b) == cell(
        g,
        a,
        b,
    ) by {
        assert(t[a] == g[a]);
    }
    if has_cells(t) {
        lemma_grid_extremes_exist(t);
        let lo_t = choose|v: int| lowest(t, v);
        let hi_t = choose|v: int| highest(t, v);
        if last.len() > 0 {
            lemma_row_extremes(last);
            let a = choose|k: int| row_low(last, k);
            let b = choose|k: int| row_high(last, k);
            let lo = if (last[a] as int) < lo_t { last[a] as int } else { lo_t };
            let hi = if (last[b] as int) > hi_t { last[b] as int } else { hi_t };
            assert(in_grid(g, n, a) && cell(g, n, a) == last[a]);
            assert(in_grid(g, n, b) && cell(g, n, b) == last[b]);
            assert forall|i: int, j: int| in_grid(g, i, j) implies lo <= #[trigger] cell(g, i, j)
                <= hi by {
                if i < n {
                    assert(in_grid(t, i, j));
                    assert(cell(t, i, j) == cell(g, i, j));
                } else {
                    assert(cell(g, i, j) == last[j]);
                }
            }
            assert(lowest(g, lo));
            assert(highest(g, hi));
        } else {
            assert forall|i: int, j: int| in_grid(g, i, j) implies lo_t <= #[trigger] cell(g, i, j)
                <= hi_t by {
                assert(i < n);
                assert(in_grid(t, i, j));
                assert(cell(t, i, j) == cell(g, i, j));
            }
            let (i1, j1) = choose|i: int, j: int| in_grid(t, i, j) && cell(t, i, j) == lo_t;
            let (i2, j2) = choose|i: int, j: int| in_grid(t, i, j) && cell(t, i, j) == hi_t;
            assert(in_grid(g, i1, j1) && cell(g, i1, j1) == lo_t);
            assert(in_grid(g, i2, j2) && cell(g, i2, j2) == hi_t);
            assert(lowest(g, lo_t));
            assert(highest(g, hi_t));
        }
    } else {
        let (i0, j0) = choose|i: int, j: int| in_grid(g, i, j);
        if i0 < n {
            assert(in_grid(t, i0, j0));
        }
        assert(last.len() > 0);
        lemma_row_extremes(last);
        let a = choose|k: int| row_low(last, k);
        let b = choose|k: int| row_high(last, k);
        assert(in_grid(g, n, a) && cell(g, n, a) == last[a]);
        assert(in_grid(g, n, b) && cell(g, n, b) == last[b]);
        assert forall|i: int, j: int| in_grid(g, i, j) implies last[a] <= #[trigger] cell(g, i, j)
            <= last[b] by {
            if i < n {
                assert(in_grid(t, i, j));
            }
            assert(cell(g, i, j) == last[j]);
        }
        assert(lowest(g, last[a] as int));
        assert(highest(g, last[b] as int));
    }
}

/// Every cell of a normalized field lies in `[0, UNIT]`, except where all
/// values were equal: then every cell keeps that one value.
pub proof fn lemma_normalized_range(before: Seq<Vec<i64>>, after: Seq<Vec<i64>>)
    requires
        normalization_of(before, after),
        has_cells(before),
    ensures
        grid_min(before) < grid_max(before) ==> forall|i: int, j: int|
            in_grid(before, i, j) ==> 0 <= #[trigger] cell(after, i, j) <= UNIT,
        grid_min(before) == grid_max(before) ==> forall|i: int, j: int|
            in_grid(before, i, j) ==> #[trigger] cell(after, i, j) == cell(before, i, j) == grid_min(
                before,
            ),
{
    lemma_grid_extremes_exist(before);
    let lo = grid_min(before);
    let hi = grid_max(before);
    assert(lowest(before, lo));
    assert(highest(before, hi));
    assert forall|i: int, j: int| in_grid(before, i, j) implies lo <= #[trigger] cell(before, i, j)
        <= hi by {}
    if lo < hi {
        assert forall|i: int, j: int| in_grid(before, i, j) implies 0 <= #[trigger] cell(
            after,
            i,
            j,
        ) <= UNIT by {
            lemma_rescaled_range(cell(before, i, j), lo, hi);
        }
    }
}

/// Normalizations of two fields that agree on every cell agree on every
/// cell.
pub proof fn lemma_normalization_congruent(
    s1: Seq<Vec<i64>>,
    s2: Seq<Vec<i64>>,
    a: Seq<Vec<i64>>,
    b: Seq<Vec<i64>>,
)
    requires
        forall|x: int, y: int| in_grid(s1, x, y) ==> in_grid(s2, x, y) && #[trigger] cell(s1, x, y) == cell(s2, x, y),
        forall|x: int, y: int| in_grid(s2, x, y) ==> #[trigger] in_grid(s1, x, y),
        normalization_of(s1, a),
        normalization_of(s2, b),
    ensures
        forall|x: int, y: int| in_grid(s1, x, y) ==> #[trigger] cell(a, x, y) == cell(b, x, y),
{
    if has_cells(s1) {
        let (i0, j0) = choose|i: int, j: int| in_grid(s1, i, j);
        assert(cell(s1, i0, j0) == cell(s2, i0, j0));
        assert(in_grid(s2, i0, j0));
        lemma_grid_extremes_exist(s1);
        let lo = grid_min(s1);
        let hi = grid_max(s1);
        assert(lowest(s1, lo));
        assert(highest(s1, hi));
        let (i1, j1) = choose|i: int, j: int| in_grid(s1, i, j) && cell(s1, i, j) == lo;
        let (i2, j2) = choose|i: int, j: int| in_grid(s1, i, j) && cell(s1, i, j) == hi;
        assert(cell(s1, i1, j1) == cell(s2, i1, j1));
        assert(cell(s1, i2, j2) == cell(s2, i2, j2));
        assert(in_grid(s2, i1, j1) && cell(s2, i1, j1) == lo);
        assert(in_grid(s2, i2, j2) && cell(s2, i2, j2) == hi);
        assert forall|i: int, j: int| in_grid(s2, i, j) implies lo <= #[trigger] cell(s2, i, j) <= hi by {
            assert(in_grid(s1, i, j));
            assert(cell(s1, i, j) == cell(s2, i, j));
        }
        assert(lowest(s2, lo));
        assert(highest(s2, hi));
        lemma_lowest_unique(s2, lo);
        lemma_highest_unique(s2, hi);
        assert(has_cells(s2));
    } else {
        assert forall|x: int, y: int| !in_grid(s2, x, y) by {
            if in_grid(s2, x, y) {
                assert(in_grid(s1, x, y));
            }
        }
    }
}

/// Two normalizations of one field agree on every cell of it.
pub proof fn lemma_normalization_unique_cells(
    before: Seq<Vec<i64>>,
    a: Seq<Vec<i64>>,
    b: Seq<Vec<i64>>,
)
    requires
        normalization_of(before, a),
        normalization_of(before, b),
    ensures
        forall|i: int, j: int| in_grid(before, i, j) ==> #[trigger] cell(a, i, j) == cell(b, i, j),
{
}

proof fn lemma_floor_sqrt_exists(n: int)
    requires
        n >= 0,
    ensures
        is_floor_sqrt(n, floor_sqrt(n)),
    decreases n,
{
    if n == 0 {
        assert(is_floor_sqrt(0, 0));
    } else {
        lemma_floor_sqrt_exists(n - 1);
        let r = floor_sqrt(n - 1);
        if (r + 1) * (r + 1) <= n {
            assert(n < (r + 2) * (r + 2)) by (nonlinear_arith)
                requires
                    n - 1 < (r + 1) * (r + 1),
                    0 <= r,
            ;
            assert(is_floor_sqrt(n, r + 1));
        } else {
            assert(is_floor_sqrt(n, r));
        }
    }
}

/// The edge falloff is zero wherever the fixed-point axis offsets reach
/// `UNIT` in Euclidean length, and in particular on the first row and the
/// first column.
pub proof fn lemma_falloff_zero_outside(x: int, y: int, w: int, h: int)
    requires
        0 <= x < w,
        0 <= y < h,
        axis_offset(x, w) * axis_offset(x, w) + axis_offset(y, h) * axis_offset(y, h) >= UNIT
            * UNIT || x == 0 || y == 0,
    ensures
        falloff_at(x, y, w, h) == 0,
{
    let ex = axis_offset(x, w);
    let ey = axis_offset(y, h);
    vstd::arithmetic::div_mod::lemma_div_by_multiple(UNIT as int, w);
    vstd::arithmetic::div_mod::lemma_div_by_multiple(UNIT as int, h);
    assert(w * UNIT == UNIT * w && h * UNIT == UNIT * h) by (nonlinear_arith);
    assert(0 <= ex) by {
        let d = 2 * x - w;
        let a = if d < 0 { -d } else { d };
        assert(0 <= a * UNIT) by (nonlinear_arith)
            requires
                0 <= a,
        ;
        vstd::arithmetic::div_mod::lemma_div_is_ordered(0, a * UNIT, w);
    }
    assert(0 <= ey) by {
        let d = 2 * y - h;
        let a = if d < 0 { -d } else { d };
        assert(0 <= a * UNIT) by (nonlinear_arith)
            requires
                0 <= a,
        ;
        vstd::arithmetic::div_mod::lemma_div_is_ordered(0, a * UNIT, h);
    }
    let n = ex * ex + ey * ey;
    assert(n >= ex * ex && n >= ey * ey) by (nonlinear_arith)
        requires
            n == ex * ex + ey * ey,
    ;
    assert(0 <= n) by (nonlinear_arith)
        requires
            n == ex * ex + ey * ey,
    ;
    if x == 0 {
        assert(ex == UNIT);
    }
    if y == 0 {
        assert(ey == UNIT);
    }
    assert(n >= UNIT * UNIT);
    lemma_floor_sqrt_exists(n);
    let d = floor_sqrt(n);
    if d < UNIT {
        assert((d + 1) * (d + 1) <= UNIT * UNIT) by (nonlinear_arith)
            requires
                0 <= d + 1 <= UNIT,
        ;
    }
}

} // verus!
