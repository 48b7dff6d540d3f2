//! The grid cursor: a digital-differential-analyzer (DDA) traversal engine.
//!
//! A cursor owns a ray (origin in sub-cell units, integer direction vector)
//! and walks it across the map grid, one grid-line crossing per step.  All
//! state is exact: the distance along the ray to a crossing is the rational
//! ray parameter `t` (the crossing point is `origin + t * dir`), kept as an
//! integer numerator over a positive denominator.
//!
//! Invariants carried by every well-formed cursor:
//! - the hit distance is monotonically non-decreasing across advances;
//! - each advance moves the cell coordinate by exactly one grid cell along
//!   one axis (a von Neumann neighbor step), never diagonally;
//! - each advance selects the nearest of the two pending grid-line
//!   crossings, so cells are visited in the order the ray crosses them.
//!
//! A direction component of zero means the ray never crosses grid lines of
//! that axis; the pending crossing on that axis plays the role of an
//! infinite sentinel and is simply never selected.

use vstd::prelude::*;

use crate::FRAC;
use crate::geom::{dir_wf, Vec2i, DIR_MAX, MAX_DIM};
use vstd::arithmetic::div_mod::{
    lemma_fundamental_div_mod, lemma_fundamental_div_mod_converse_mod,
};

verus! {

/// Largest next-crossing numerator a well-formed cursor can hold.
pub const NUM_CAP: i64 = 262656;

/// The axis of a grid-line crossing: `X` means a vertical grid line was
/// crossed (the cell's x coordinate changed), `Y` a horizontal one.
#[derive(Clone, Copy, PartialEq, Eq, Structural, Debug)]
pub enum Axis {
    X,
    Y,
}

/// Absolute value, as a spec-level integer.
pub open spec fn spec_abs(v: int) -> int {
    if v < 0 {
        -v
    } else {
        v
    }
}

/// Sign of an integer: -1, 0 or 1.
pub open spec fn spec_sign(v: int) -> int {
    if v < 0 {
        -1int
    } else if v > 0 {
        1int
    } else {
        0int
    }
}

/// Numerator of the ray parameter of the next grid-line crossing on one
/// axis, over the denominator `FRAC * |d|`: for a positive direction the
/// next line is at cell coordinate `cell + 1`, for a negative one at `cell`.
pub open spec fn next_num(o: int, cell: int, d: int) -> int {
    if d > 0 {
        (cell + 1) * FRAC - o
    } else {
        o - cell * FRAC
    }
}

/// Fractional offset along a crossed grid line, scaled to the denominator
/// `FRAC * ad` (`ad` is the absolute direction component of the crossed
/// axis, `n` the crossing numerator, `o` and `d` the origin sub-coordinate
/// and direction component of the *other* axis).  It is the other
/// coordinate of the crossing point, reduced modulo one cell.
pub open spec fn cross_frac(o: int, d: int, n: int, ad: int) -> int {
    (o * ad + n * d) % (FRAC * ad)
}

/// The cursor state after one advance, as a spec value: the exact mirror
/// of `go_to_next_hit`.  The nearer pending crossing is selected (ties and
/// zero direction components resolved exactly as the executable code
/// resolves them), the cell moves one step across that line, and the
/// crossing's distance, axis and texture-coordinate fraction are recorded.
pub open spec fn spec_advance(c: GridCursor) -> GridCursor {
    let go_x = c.dir.x != 0 && (c.dir.y == 0 || c.nx * spec_abs(c.dir.y as int) <= c.ny
        * spec_abs(c.dir.x as int));
    if go_x {
        let den = FRAC * spec_abs(c.dir.x as int);
        GridCursor {
            cell_x: (c.cell_x + c.step_x) as i64,
            nx: (c.nx + FRAC) as i64,
            dist_num: c.nx,
            dist_den: den as i64,
            side: Axis::X,
            frac_num: cross_frac(
                c.origin.y as int,
                c.dir.y as int,
                c.nx as int,
                spec_abs(c.dir.x as int),
            ) as i64,
            frac_den: den as i64,
            ..c
        }
    } else {
        let den = FRAC * spec_abs(c.dir.y as int);
        GridCursor {
            cell_y: (c.cell_y + c.step_y) as i64,
            ny: (c.ny + FRAC) as i64,
            dist_num: c.ny,
            dist_den: den as i64,
            side: Axis::Y,
            frac_num: cross_frac(
                c.origin.x as int,
                c.dir.x as int,
                c.ny as int,
                spec_abs(c.dir.y as int),
            ) as i64,
            frac_den: den as i64,
            ..c
        }
    }
}

/// The cursor at the start of a ray, as a spec value: the exact mirror of
/// `GridCursor::new`.
pub open spec fn spec_cursor_start(origin: Vec2i, dir: Vec2i) -> GridCursor {
    let cell_x = (origin.x as int) / (FRAC as int);
    let cell_y = (origin.y as int) / (FRAC as int);
    GridCursor {
        origin,
        dir,
        cell_x: cell_x as i64,
        cell_y: cell_y as i64,
        step_x: spec_sign(dir.x as int) as i64,
        step_y: spec_sign(dir.y as int) as i64,
        nx: next_num(origin.x as int, cell_x, dir.x as int) as i64,
        ny: next_num(origin.y as int, cell_y, dir.y as int) as i64,
        dist_num: 0,
        dist_den: 1,
        side: Axis::X,
        frac_num: 0,
        frac_den: 1,
    }
}

/// DDA traversal state: a ray plus the cell the ray most recently entered,
/// the pending next crossing of each axis, and the distance, axis and
/// texture-coordinate fraction of the last crossing.
pub struct GridCursor {
    /// Ray origin, in sub-cell units.
    pub origin: Vec2i,
    /// Ray direction; never the zero vector.
    pub dir: Vec2i,
    /// X coordinate of the cell the cursor is in.
    pub cell_x: i64,
    /// Y coordinate of the cell the cursor is in.
    pub cell_y: i64,
    /// Step direction along x: the sign of `dir.x`.
    pub step_x: i64,
    /// Step direction along y: the sign of `dir.y`.
    pub step_y: i64,
    /// Numerator of the pending x-crossing parameter over `FRAC * |dir.x|`.
    pub nx: i64,
    /// Numerator of the pending y-crossing parameter over `FRAC * |dir.y|`.
    pub ny: i64,
    /// Numerator of the ray parameter of the last crossing.
    pub dist_num: i64,
    /// Denominator of the ray parameter of the last crossing.
    pub dist_den: i64,
    /// Axis of the last crossing.
    pub side: Axis,
    /// Numerator of the texture-coordinate fraction at the last crossing.
    pub frac_num: i64,
    /// Denominator of the texture-coordinate fraction at the last crossing.
    pub frac_den: i64,
}

impl GridCursor {
    /// Well-formedness: the ray is bounded and non-zero, the cell is at
    /// most one step outside the map range, the pending crossing numerators
    /// are exactly determined by the cell and origin, and the last hit
    /// distance is no later than either pending crossing (so distances can
    /// only grow).
    pub open spec fn wf(self) -> bool {
        &&& dir_wf(self.dir)
        &&& 0 <= self.origin.x <= MAX_DIM * FRAC
        &&& 0 <= self.origin.y <= MAX_DIM * FRAC
        &&& -1 <= self.cell_x <= MAX_DIM + 1
        &&& -1 <= self.cell_y <= MAX_DIM + 1
        &&& self.step_x == spec_sign(self.dir.x as int)
        &&& self.step_y == spec_sign(self.dir.y as int)
        &&& self.dir.x != 0 ==> self.nx == next_num(
            self.origin.x as int,
            self.cell_x as int,
            self.dir.x as int,
        ) && self.nx >= 0
        &&& self.dir.y != 0 ==> self.ny == next_num(
            self.origin.y as int,
            self.cell_y as int,
            self.dir.y as int,
        ) && self.ny >= 0
        &&& 0 < self.dist_den <= FRAC * DIR_MAX
        &&& 0 <= self.dist_num <= NUM_CAP
        &&& self.dir.x != 0 ==> self.dist_num * (FRAC * spec_abs(self.dir.x as int))
            <= self.nx * self.dist_den
        &&& self.dir.y != 0 ==> self.dist_num * (FRAC * spec_abs(self.dir.y as int))
            <= self.ny * self.dist_den
        &&& 0 < self.frac_den <= FRAC * DIR_MAX
        &&& 0 <= self.frac_num < self.frac_den
    }

    /// The rational hit distance of `self` is at most that of `other`
    /// (compared by cross-multiplication of the two fractions).
    pub open spec fn dist_le(self, other: GridCursor) -> bool {
        self.dist_num * other.dist_den <= other.dist_num * self.dist_den
    }

    /// Builds a cursor at the start of a ray.  The starting cell is the
    /// cell containing the origin; the recorded hit distance starts at
    /// zero.  An origin exactly on a grid line belongs to the cell on the
    /// line's positive side.
    pub fn new(origin: Vec2i, dir: Vec2i) -> (r: GridCursor)
        requires
            dir_wf(dir),
            0 <= origin.x <= MAX_DIM * FRAC,
            0 <= origin.y <= MAX_DIM * FRAC,
        ensures
            r.wf(),
            r == spec_cursor_start(origin, dir),
            r.origin == origin,
            r.dir == dir,
            r.cell_x == origin.x as int / FRAC as int,
            r.cell_y == origin.y as int / FRAC as int,
            r.dist_num == 0,
            r.dist_den == 1,
    {
        let cell_x = origin.x / FRAC;
        let cell_y = origin.y / FRAC;
        proof {
            lemma_fundamental_div_mod(origin.x as int, FRAC as int);
            lemma_fundamental_div_mod(origin.y as int, FRAC as int);
            lemma_cell_div_range(origin.x as int);
            lemma_cell_div_range(origin.y as int);
        }
        let step_x = sign_i64(dir.x);
        let step_y = sign_i64(dir.y);
        let nx = init_num(origin.x, cell_x, dir.x);
        let ny = init_num(origin.y, cell_y, dir.y);
        GridCursor {
            origin,
            dir,
            cell_x,
            cell_y,
            step_x,
            step_y,
            nx,
            ny,
            dist_num: 0,
            dist_den: 1,
            side: Axis::X,
            frac_num: 0,
            frac_den: 1,
        }
    }

    /// Advances the cursor to the next grid-line crossing along the ray:
    /// the nearer of the two pending crossings is selected (ties go to the
    /// x axis), the cursor moves into the adjacent cell across that line,
    /// and the crossing's distance, axis and texture-coordinate fraction
    /// are recorded.  The hit distance never decreases, and the cell moves
    /// by exactly one von Neumann step, so the cells visited by repeated
    /// advances are exactly the cells the ray crosses, in order.
    pub fn go_to_next_hit(&mut self)
        requires
            old(self).wf(),
            0 <= old(self).cell_x <= MAX_DIM,
            0 <= old(self).cell_y <= MAX_DIM,
        ensures
            final(self).wf(),
            *final(self) == spec_advance(*old(self)),
            final(self).origin == old(self).origin,
            final(self).dir == old(self).dir,
            final(self).step_x == old(self).step_x,
            final(self).step_y == old(self).step_y,
            // exactly one von Neumann step, along the ray's step direction
            final(self).side is X ==> final(self).cell_x == old(self).cell_x + old(self).step_x
                && final(self).cell_y == old(self).cell_y && old(self).dir.x != 0,
            final(self).side is Y ==> final(self).cell_y == old(self).cell_y + old(self).step_y
                && final(self).cell_x == old(self).cell_x && old(self).dir.y != 0,
            // the hit distance is monotonically non-decreasing
            old(self).dist_le(*final(self)),
            // the selected crossing is the nearest pending one
            final(self).side is X ==> (old(self).dir.y == 0 || old(self).nx * spec_abs(
                old(self).dir.y as int,
            ) <= old(self).ny * spec_abs(old(self).dir.x as int)),
            final(self).side is Y ==> (old(self).dir.x == 0 || old(self).ny * spec_abs(
                old(self).dir.x as int,
            ) < old(self).nx * spec_abs(old(self).dir.y as int)),
            // the recorded distance is exactly the crossing's ray parameter
            final(self).side is X ==> final(self).dist_num == old(self).nx
                && final(self).dist_den == FRAC * spec_abs(old(self).dir.x as int),
            final(self).side is Y ==> final(self).dist_num == old(self).ny
                && final(self).dist_den == FRAC * spec_abs(old(self).dir.y as int),
            // the pending crossing of the crossed axis moves one cell on
            final(self).side is X ==> final(self).nx == old(self).nx + FRAC && final(self).ny
                == old(self).ny,
            final(self).side is Y ==> final(self).ny == old(self).ny + FRAC && final(self).nx
                == old(self).nx,
            // the texture-coordinate fraction is the crossing point's other
            // coordinate reduced modulo one cell
            final(self).side is X ==> final(self).frac_den == FRAC * spec_abs(
                old(self).dir.x as int,
            ) && final(self).frac_num == cross_frac(
                old(self).origin.y as int,
                old(self).dir.y as int,
                old(self).nx as int,
                spec_abs(old(self).dir.x as int),
            ),
            final(self).side is Y ==> final(self).frac_den == FRAC * spec_abs(
                old(self).dir.y as int,
            ) && final(self).frac_num == cross_frac(
                old(self).origin.x as int,
                old(self).dir.x as int,
                old(self).ny as int,
                spec_abs(old(self).dir.y as int),
            ),
    {
        let adx = abs_i64(self.dir.x);
        let ady = abs_i64(self.dir.y);
        let go_x: bool = if self.dir.x == 0 {
            false
        } else if self.dir.y == 0 {
            true
        } else {
            proof {
                crate::geom::lemma_mul_bound(self.nx as int, ady as int, NUM_CAP as int, DIR_MAX as int);
                crate::geom::lemma_mul_bound(self.ny as int, adx as int, NUM_CAP as int, DIR_MAX as int);
            }
            self.nx * ady <= self.ny * adx
        };
        if go_x {
            let den = FRAC * adx;
            proof {
                assert(self.nx <= NUM_CAP);
                crate::geom::lemma_mul_bound(
                    self.origin.y as int,
                    adx as int,
                    MAX_DIM * FRAC,
                    DIR_MAX as int,
                );
                crate::geom::lemma_mul_bound(self.nx as int, self.dir.y as int, NUM_CAP as int, DIR_MAX as int);
            }
            let v = self.origin.y * adx + self.nx * self.dir.y;
            let m = euclid_mod(v, den);
            proof {
                let nxi = self.nx as int;
                let nyi = self.ny as int;
                let deni = den as int;
                let ddi = self.dist_den as int;
                // the new distance is past the old one
                assert(self.dist_num * deni <= nxi * ddi);
                // the new distance is no later than the new pending x
                // crossing
                assert(nxi * deni <= (nxi + FRAC) * deni) by (nonlinear_arith)
                    requires deni >= 0;
                // the new distance is no later than the pending y crossing
                if self.dir.y != 0 {
                    assert(nxi * (FRAC * (ady as int)) <= nyi * (FRAC * (adx as int)))
                        by (nonlinear_arith)
                        requires nxi * ady <= nyi * adx && FRAC > 0;
                }
            }
            self.dist_num = self.nx;
            self.dist_den = den;
            self.frac_num = m;
            self.frac_den = den;
            self.side = Axis::X;
            self.cell_x = self.cell_x + self.step_x;
            self.nx = self.nx + FRAC;
        } else {
            let den = FRAC * ady;
            proof {
                assert(self.ny <= NUM_CAP);
                crate::geom::lemma_mul_bound(
                    self.origin.x as int,
                    ady as int,
                    MAX_DIM * FRAC,
                    DIR_MAX as int,
                );
                crate::geom::lemma_mul_bound(self.ny as int, self.dir.x as int, NUM_CAP as int, DIR_MAX as int);
            }
            let v = self.origin.x * ady + self.ny * self.dir.x;
            let m = euclid_mod(v, den);
            proof {
                let nxi = self.nx as int;
                let nyi = self.ny as int;
                let deni = den as int;
                let ddi = self.dist_den as int;
                assert(self.dist_num * deni <= nyi * ddi);
                assert(nyi * deni <= (nyi + FRAC) * deni) by (nonlinear_arith)
                    requires deni >= 0;
                if self.dir.x != 0 {
                    assert(nyi * (FRAC * (adx as int)) <= nxi * (FRAC * (ady as int)))
                        by (nonlinear_arith)
                        requires nyi * adx <= nxi * ady && FRAC > 0;
                }
            }
            self.dist_num = self.ny;
            self.dist_den = den;
            self.frac_num = m;
            self.frac_den = den;
            self.side = Axis::Y;
            self.cell_y = self.cell_y + self.step_y;
            self.ny = self.ny + FRAC;
        }
    }
}

/// The cell index of a sub-coordinate within the position range is within
/// the cell range.
proof fn lemma_cell_div_range(o: int)
    requires
        0 <= o <= MAX_DIM * FRAC,
    ensures
        0 <= o / (FRAC as int) <= MAX_DIM,
        FRAC * (o / (FRAC as int)) <= o,
{
    lemma_fundamental_div_mod(o, FRAC as int);
    vstd::arithmetic::div_mod::lemma_mod_division_less_than_divisor(o, FRAC as int);
    let q = o / (FRAC as int);
    assert(o == FRAC * q + o % (FRAC as int));
    assert(0 <= o % (FRAC as int) < FRAC);
    assert(q >= 0) by (nonlinear_arith)
        requires FRAC * q + o % (FRAC as int) >= 0 && 0 <= o % (FRAC as int) < FRAC;
    assert(q <= MAX_DIM) by (nonlinear_arith)
        requires FRAC * q + o % (FRAC as int) <= MAX_DIM * FRAC && 0 <= o % (FRAC as int);
}

/// Sign of a bounded integer.
fn sign_i64(v: i64) -> (r: i64)
    requires
        -DIR_MAX <= v <= DIR_MAX,
    ensures
        r == spec_sign(v as int),
{
    if v < 0 {
        -1
    } else if v > 0 {
        1
    } else {
        0
    }
}

/// Absolute value of a bounded integer.
fn abs_i64(v: i64) -> (r: i64)
    requires
        -DIR_MAX <= v <= DIR_MAX,
    ensures
        r == spec_abs(v as int),
{
    if v < 0 {
        -v
    } else {
        v
    }
}

/// Initial pending-crossing numerator for one axis, at the cell that
/// contains the origin coordinate.
fn init_num(o: i64, cell: i64, d: i64) -> (n: i64)
    requires
        0 <= o <= MAX_DIM * FRAC,
        cell == o as int / FRAC as int,
    ensures
        n == next_num(o as int, cell as int, d as int),
        0 <= n <= FRAC,
{
    proof {
        lemma_fundamental_div_mod(o as int, FRAC as int);
        vstd::arithmetic::div_mod::lemma_mod_division_less_than_divisor(o as int, FRAC as int);
        lemma_cell_div_range(o as int);
    }
    if d > 0 {
        (cell + 1) * FRAC - o
    } else {
        o - cell * FRAC
    }
}

/// Euclidean remainder of `v` modulo a positive `d`: the result is in
/// `[0, d)` and equals the spec-level `v % d`.
pub fn euclid_mod(v: i64, d: i64) -> (m: i64)
    requires
        -0x40000000000000 <= v <= 0x40000000000000,
        0 < d <= FRAC * DIR_MAX,
    ensures
        m == (v as int) % (d as int),
        0 <= m < d,
{
    let r = v % d;
    proof {
        let vi = v as int;
        let di = d as int;
        if vi >= 0 {
            vstd::arithmetic::div_mod::lemma_mod_division_less_than_divisor(vi, di);
        } else {
            let u = -vi;
            lemma_fundamental_div_mod(u, di);
            vstd::arithmetic::div_mod::lemma_mod_division_less_than_divisor(u, di);
            let uq = u / di;
            let ur = u % di;
            if ur == 0 {
                // v is an exact multiple of d, so its remainder is 0
                assert(vi == (-uq) * di + 0) by (nonlinear_arith)
                    requires vi == -(di * uq + ur) && ur == 0;
                lemma_fundamental_div_mod_converse_mod(vi, di, -uq, 0);
            } else {
                assert(vi == (-uq - 1) * di + (di - ur)) by (nonlinear_arith)
                    requires vi == -(di * uq + ur);
                lemma_fundamental_div_mod_converse_mod(vi, di, -uq - 1, di - ur);
            }
        }
    }
    if r < 0 {
        r + d
    } else {
        r
    }
}

} // verus!
